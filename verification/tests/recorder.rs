use slop_screen_recorder::build_gif_args;
use slop_screen_recorder::tail_stderr;

#[test]
fn build_gif_args_contains_paths_and_filter() {
    let args = build_gif_args("/tmp/in.mp4", "/tmp/out.gif");

    // Output is the last positional argument.
    assert_eq!(args.last().map(String::as_str), Some("/tmp/out.gif"));

    // Input follows `-i`.
    let i_pos = args.iter().position(|a| a == "-i").expect("missing -i");
    assert_eq!(args[i_pos + 1], "/tmp/in.mp4");

    // Filter graph contains the key pieces from the design.
    let f_pos = args
        .iter()
        .position(|a| a == "-filter_complex")
        .expect("missing -filter_complex");
    let filter = &args[f_pos + 1];
    assert!(filter.contains("fps=10"));
    assert!(filter.contains("scale="));
    assert!(filter.contains("mpdecimate"));
    assert!(filter.contains("palettegen=stats_mode=diff"));
    assert!(filter.contains("paletteuse=diff_mode=rectangle"));

    // Overwrite + loop forever.
    assert!(args.iter().any(|a| a == "-y"));
    let loop_pos = args.iter().position(|a| a == "-loop").expect("missing -loop");
    assert_eq!(args[loop_pos + 1], "0");
}

#[test]
fn tail_stderr_returns_last_n_non_empty_lines() {
    let input = "ffmpeg version 7.1.1\n  built with...\n  configuration: ...\n\n\
                 [gdigrab @ 0x1] capturing\n\
                 [out#0/mp4 @ 0x2] Error opening output: No such file or directory\n\
                 Error opening output file\n\
                 Error opening output files: No such file or directory\n";
    let tail = tail_stderr(input, 3);
    let lines: Vec<&str> = tail.lines().collect();
    assert_eq!(lines.len(), 3);
    assert!(tail.contains("Error opening output files"));
    assert!(!tail.contains("ffmpeg version"));
}

#[test]
fn tail_stderr_treats_carriage_returns_as_newlines() {
    // ffmpeg's progress lines overwrite with \r; treat each as a separate line
    // so they don't crowd out the final error.
    let input = "frame=1 fps=0\rframe=2 fps=30\rframe=3 fps=30\rError: something\n";
    let tail = tail_stderr(input, 2);
    assert!(tail.contains("Error: something"));
    assert!(!tail.contains("frame=1"));
}

#[test]
fn tail_stderr_handles_input_shorter_than_max() {
    let input = "only line\n";
    let tail = tail_stderr(input, 6);
    assert_eq!(tail, "only line");
}
