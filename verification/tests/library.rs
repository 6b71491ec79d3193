use slop_screen_recorder::gif::{build_gif_args, ffmpeg_failure, gif_result, gif_target};
use slop_screen_recorder::locate::{
    ffmpeg_fallback_locations, ffmpeg_sidecar_name, where_output_candidates,
};
use slop_screen_recorder::numeral::{decimal_string, parse_isize, signed_decimal_string};
use slop_screen_recorder::overlay::overlay_size;
use slop_screen_recorder::record::{
    build_record_args, keep_window_title, output_dir_verdict, pick_default_output_dir,
    recording_file_name, window_capture_handle, window_rect_from_frame,
};
use slop_screen_recorder::session::{needs_kill, stop_result, RecorderSession, WaitOutcome};
use slop_screen_recorder::sources::{
    avfoundation_audio_devices, avfoundation_video_sources, dedupe_by_name,
    default_audio_devices, dshow_audio_devices, window_source, windows_from_titles,
    windows_sources, x11_sources,
};
use slop_screen_recorder::tail_stderr;
use slop_screen_recorder::text::chars_of;
use slop_screen_recorder::{RecordingConfig, RecordingSource, Region, TargetOs};

fn src(id: &str, name: &str, kind: &str) -> RecordingSource {
    RecordingSource { id: id.to_string(), name: name.to_string(), source_type: kind.to_string() }
}

fn triples(v: &[RecordingSource]) -> Vec<(String, String, String)> {
    v.iter().map(|s| (s.id.clone(), s.name.clone(), s.source_type.clone())).collect()
}

fn t(id: &str, name: &str, kind: &str) -> (String, String, String) {
    (id.to_string(), name.to_string(), kind.to_string())
}

fn config(source: &str, fps: u32, audio: bool, device: Option<&str>, region: Option<Region>) -> RecordingConfig {
    RecordingConfig {
        source_id: source.to_string(),
        output_dir: "/tmp".to_string(),
        fps,
        capture_audio: audio,
        audio_device: device.map(|d| d.to_string()),
        region,
    }
}

fn strs(v: &[&str]) -> Vec<String> {
    v.iter().map(|s| s.to_string()).collect()
}

// --- tail of stderr -------------------------------------------------------

#[test]
fn tail_keeps_last_non_blank_lines_exactly() {
    assert_eq!(tail_stderr("a\n\n  \nb\r\nc", 2), "b\nc");
    assert_eq!(tail_stderr("a\n\n  \nb\r\nc", 10), "a\nb\nc");
}

#[test]
fn tail_of_nothing_is_empty() {
    assert_eq!(tail_stderr("", 3), "");
    assert_eq!(tail_stderr("x\ny\n", 0), "");
    assert_eq!(tail_stderr(" \t\n\r\n", 4), "");
}

#[test]
fn tail_skips_unicode_whitespace_lines() {
    assert_eq!(tail_stderr("\u{3000}\u{a0}\nreal\n\u{2003}", 5), "real");
}

#[test]
fn tail_reads_back_line_by_line() {
    let input = "one\rtwo\r\n\nthree\nfour\r";
    let tail = tail_stderr(input, 3);
    let lines: Vec<&str> = tail.lines().collect();
    assert_eq!(lines, vec!["two", "three", "four"]);
    assert!(!tail.contains('\r'));
}

// --- GIF conversion -------------------------------------------------------

#[test]
fn gif_args_are_exact() {
    let args = build_gif_args("in.mp4", "out.gif");
    assert_eq!(
        args,
        strs(&[
            "-y",
            "-i",
            "in.mp4",
            "-filter_complex",
            "fps=10,scale='min(720,iw)':-2:flags=lanczos,mpdecimate,split[a][b];[a]palettegen=stats_mode=diff[p];[b][p]paletteuse=diff_mode=rectangle",
            "-loop",
            "0",
            "out.gif",
        ])
    );
}

#[test]
fn gif_target_checks_in_order() {
    assert_eq!(
        gif_target("/v/a.mp4", false, Some("mp4"), Some("/v"), Some("a")),
        Err("Input file does not exist: /v/a.mp4".to_string())
    );
    assert_eq!(
        gif_target("/v/a.mov", true, Some("mov"), Some("/v"), Some("a")),
        Err("Input must be an .mp4 file".to_string())
    );
    assert_eq!(
        gif_target("/v/a", true, None, Some("/v"), Some("a")),
        Err("Input must be an .mp4 file".to_string())
    );
    assert_eq!(
        gif_target("x.mp4", true, Some("mp4"), None, Some("x")),
        Err("Input has no parent directory".to_string())
    );
    assert_eq!(
        gif_target("x.mp4", true, Some("mp4"), Some(""), None),
        Err("Input has no file name".to_string())
    );
    assert_eq!(
        gif_target("/v/clip.mp4", true, Some("mp4"), Some("/v"), Some("clip")),
        Ok(("/v".to_string(), "clip.gif".to_string()))
    );
}

#[test]
fn gif_result_reports_tail_on_failure() {
    assert_eq!(gif_result(true, "ignored", "/v/c.gif".to_string()), Ok("/v/c.gif".to_string()));
    assert_eq!(
        gif_result(false, "banner\n\nbad input\n", "/v/c.gif".to_string()),
        Err("ffmpeg failed: banner\nbad input".to_string())
    );
    assert_eq!(ffmpeg_failure("1\n2\n3\n4\n5\n6\n7\n"), "ffmpeg failed: 2\n3\n4\n5\n6\n7");
}

// --- output file and directory --------------------------------------------

#[test]
fn recording_file_name_wraps_timestamp() {
    assert_eq!(recording_file_name("2026-05-18_14-03-09"), "recording_2026-05-18_14-03-09.mp4");
}

#[test]
fn check_output_writable_rejects_missing_directory() {
    let err = output_dir_verdict(
        "Z:\\definitely\\does\\not\\exist\\anywhere",
        false,
        None,
        TargetOs::Windows,
    )
    .expect_err("expected an error for a missing directory");
    assert!(err.contains("does not exist"), "got: {}", err);
    assert_eq!(err, "Output directory does not exist: Z:\\definitely\\does\\not\\exist\\anywhere");
}

#[test]
fn output_dir_write_failure_is_reported() {
    assert_eq!(output_dir_verdict("/v", true, None, TargetOs::Other), Ok(()));
    assert_eq!(
        output_dir_verdict("/v", true, Some("Permission denied (os error 13)"), TargetOs::Other),
        Err("Cannot write to /v: Permission denied (os error 13)".to_string())
    );
    let win = output_dir_verdict("C:\\v", true, Some("Access is denied."), TargetOs::Windows)
        .unwrap_err();
    assert_eq!(
        win,
        "Cannot write to C:\\v: Access is denied.\n\nOn Windows this is often Controlled Folder Access blocking the app. Either pick a different output directory, or allow this app in Windows Security \u{2192} Virus & threat protection \u{2192} Ransomware protection \u{2192} Controlled folder access."
    );
}

#[test]
fn default_output_dir_prefers_videos() {
    let s = |x: &str| Some(x.to_string());
    assert_eq!(pick_default_output_dir(s("/h/Videos"), s("/h/Desktop"), s("/h")), "/h/Videos");
    assert_eq!(pick_default_output_dir(None, s("/h/Desktop"), s("/h")), "/h/Desktop");
    assert_eq!(pick_default_output_dir(None, None, s("/h")), "/h");
    assert_eq!(pick_default_output_dir(None, None, None), "");
}

// --- windows and window capture -------------------------------------------

#[test]
fn window_titles_filtered() {
    assert!(keep_window_title("Notes"));
    assert!(!keep_window_title(""));
    assert!(!keep_window_title("Program Manager"));
    assert!(!keep_window_title("Windows Input Experience"));
    assert!(!keep_window_title("MSCTFIME UI"));
    assert!(!keep_window_title("Default IME"));
    assert!(keep_window_title("Default IME 2"));
}

#[test]
fn windows_listed_once_per_title() {
    let found = vec![
        (1isize, "Program Manager".to_string()),
        (2, "Notes".to_string()),
        (3, "".to_string()),
        (4, "Notes".to_string()),
        (-5, "Browser".to_string()),
        (6, "Default IME".to_string()),
    ];
    let listed = windows_from_titles(found);
    assert_eq!(
        triples(&listed),
        vec![t("hwnd:2", "Notes", "window"), t("hwnd:-5", "Browser", "window")]
    );
}

#[test]
fn dedupe_keeps_first_of_each_name() {
    let v = vec![src("a", "x", "k"), src("b", "y", "k"), src("c", "x", "m"), src("d", "y", "m"), src("e", "z", "k")];
    let once = dedupe_by_name(v);
    assert_eq!(triples(&once), vec![t("a", "x", "k"), t("b", "y", "k"), t("e", "z", "k")]);
    let twice = dedupe_by_name(once.clone());
    assert_eq!(triples(&twice), triples(&once));
}

#[test]
fn windows_sources_start_with_desktop() {
    let listed = windows_sources(vec![src("hwnd:9", "Editor", "window")]);
    assert_eq!(
        triples(&listed),
        vec![t("desktop", "Desktop (Full Screen)", "screen"), t("hwnd:9", "Editor", "window")]
    );
}

#[test]
fn fixed_sources_elsewhere() {
    assert_eq!(triples(&x11_sources()), vec![t(":0.0", "Display :0", "screen")]);
    assert_eq!(triples(&default_audio_devices()), vec![t("default", "Default Audio", "audio")]);
}

#[test]
fn window_handle_parsing() {
    let h = |s: &str| window_capture_handle(&config(s, 30, false, None, None));
    assert_eq!(h("desktop"), Ok(None));
    assert_eq!(h("hwnd:12345"), Ok(Some(12345)));
    assert_eq!(h("hwnd:-42"), Ok(Some(-42)));
    assert_eq!(h("hwnd:+7"), Ok(Some(7)));
    assert_eq!(h("hwnd:007"), Ok(Some(7)));
    assert_eq!(h("hwnd:abc"), Err("Invalid window handle".to_string()));
    assert_eq!(h("hwnd:"), Err("Invalid window handle".to_string()));
    assert_eq!(h("hwnd:-"), Err("Invalid window handle".to_string()));
    assert_eq!(h("hwnd: 5"), Err("Invalid window handle".to_string()));
    assert_eq!(h("hwnd:99999999999999999999999"), Err("Invalid window handle".to_string()));
    assert_eq!(h("HWND:5"), Ok(None));
    let region = Some(Region { x: 0, y: 0, width: 10, height: 10 });
    assert_eq!(
        window_capture_handle(&config("hwnd:5", 30, false, None, region)),
        Err("Region capture is not supported with a window source".to_string())
    );
    assert_eq!(window_capture_handle(&config("desktop", 30, false, None, region)), Ok(None));
}

#[test]
fn window_ids_round_trip() {
    for hwnd in [0isize, 1, -1, 65538, isize::MAX, isize::MIN] {
        let s = window_source(hwnd, "Title".to_string());
        assert_eq!(window_capture_handle(&config(&s.id, 30, false, None, None)), Ok(Some(hwnd)));
    }
}

#[test]
fn window_rect_from_frame_bounds() {
    assert_eq!(window_rect_from_frame(0, 10, 20, 110, 220), Ok((10, 20, 100, 200)));
    assert_eq!(window_rect_from_frame(0, -8, -8, 1928, 1048), Ok((-8, -8, 1936, 1056)));
    assert_eq!(
        window_rect_from_frame(0x80070005u32 as i32, 0, 0, 0, 0),
        Err("DwmGetWindowAttribute failed: 0x80070005".to_string())
    );
    assert_eq!(
        window_rect_from_frame(1, 0, 0, 0, 0),
        Err("DwmGetWindowAttribute failed: 0x00000001".to_string())
    );
    assert_eq!(window_rect_from_frame(0, 5, 5, 5, 50), Err("Window has zero size".to_string()));
    assert_eq!(window_rect_from_frame(0, 5, 5, 50, 4), Err("Window has zero size".to_string()));
}

// --- ffmpeg's recording arguments -----------------------------------------

const X264: [&str; 8] = ["-c:v", "libx264", "-preset", "ultrafast", "-pix_fmt", "yuv420p", "-b:v", "5000k"];

#[test]
fn x11_args_full_display() {
    let args = build_record_args(TargetOs::Other, &config(":0.0", 30, true, Some("mic"), None), "/o.mp4", None);
    let mut want = strs(&["-f", "x11grab", "-framerate", "30", "-i", ":0.0"]);
    want.extend(strs(&X264));
    want.extend(strs(&["-y", "/o.mp4"]));
    assert_eq!(args, want);
}

#[test]
fn x11_args_region_is_even() {
    let region = Some(Region { x: -5, y: 7, width: 641, height: 481 });
    let args = build_record_args(TargetOs::Other, &config(":0.0", 24, false, None, region), "/o.mp4", None);
    let mut want = strs(&["-f", "x11grab", "-framerate", "24", "-video_size", "640x480", "-i", ":0.0+-5,7"]);
    want.extend(strs(&X264));
    want.extend(strs(&["-y", "/o.mp4"]));
    assert_eq!(args, want);
}

#[test]
fn mac_args_with_audio_and_crop() {
    let region = Some(Region { x: 1, y: 2, width: 101, height: 99 });
    let args = build_record_args(TargetOs::MacOs, &config("2", 60, true, None, region), "/o.mp4", None);
    assert_eq!(
        args,
        strs(&[
            "-f", "avfoundation", "-capture_cursor", "1", "-framerate", "60", "-i", "2:0", "-vf",
            "crop=100:98:1:2", "-c:v", "h264_videotoolbox", "-b:v", "5000k", "-pix_fmt", "yuv420p",
            "-c:a", "aac", "-b:a", "128k", "-y", "/o.mp4",
        ])
    );
}

#[test]
fn mac_args_without_audio() {
    let args = build_record_args(TargetOs::MacOs, &config("1", 15, false, Some("3"), None), "/o.mp4", None);
    assert_eq!(
        args,
        strs(&[
            "-f", "avfoundation", "-capture_cursor", "1", "-framerate", "15", "-i", "1:none",
            "-c:v", "h264_videotoolbox", "-b:v", "5000k", "-pix_fmt", "yuv420p", "-y", "/o.mp4",
        ])
    );
    let args = build_record_args(TargetOs::MacOs, &config("1", 15, true, Some("3"), None), "/o.mp4", None);
    assert_eq!(args[7], "1:3");
}

#[test]
fn windows_args_desktop_with_audio() {
    let args = build_record_args(TargetOs::Windows, &config("desktop", 30, true, Some("Mic (USB)"), None), "C:\\o.mp4", None);
    assert_eq!(
        args,
        strs(&[
            "-f", "gdigrab", "-framerate", "30", "-i", "desktop", "-f", "dshow", "-i",
            "audio=Mic (USB)", "-vf", "pad=ceil(iw/2)*2:ceil(ih/2)*2", "-c:v", "libx264",
            "-preset", "ultrafast", "-pix_fmt", "yuv420p", "-b:v", "5000k", "-c:a", "aac", "-b:a",
            "128k", "-y", "C:\\o.mp4",
        ])
    );
}

#[test]
fn windows_args_window_rect() {
    let args = build_record_args(
        TargetOs::Windows,
        &config("hwnd:77", 25, true, None, None),
        "o.mp4",
        Some((-8, 0, 1923, 1081)),
    );
    assert_eq!(
        args,
        strs(&[
            "-f", "gdigrab", "-framerate", "25", "-offset_x", "-8", "-offset_y", "0",
            "-video_size", "1922x1080", "-i", "desktop", "-vf", "pad=ceil(iw/2)*2:ceil(ih/2)*2",
            "-c:v", "libx264", "-preset", "ultrafast", "-pix_fmt", "yuv420p", "-b:v", "5000k",
            "-c:a", "aac", "-b:a", "128k", "-y", "o.mp4",
        ])
    );
}

#[test]
fn windows_args_region_wraps_like_as_i32() {
    let region = Some(Region { x: 3, y: -4, width: 4294967295, height: 5 });
    let args = build_record_args(TargetOs::Windows, &config("desktop", 30, false, None, region), "o.mp4", None);
    assert_eq!(&args[4..12], &strs(&["-offset_x", "3", "-offset_y", "-4", "-video_size", "-2x4", "-i", "desktop"])[..]);
}

// --- device listings ------------------------------------------------------

const AVF: &str = "[AVFoundation indev @ 0x7f] AVFoundation video devices:\n\
[AVFoundation indev @ 0x7f] [0] FaceTime HD Camera\n\
[AVFoundation indev @ 0x7f] [1] Capture screen 0\r\n\
[AVFoundation indev @ 0x7f] [2] Big DISPLAY\n\
[AVFoundation indev @ 0x7f] AVFoundation audio devices:\n\
[AVFoundation indev @ 0x7f] [0] MacBook Pro Microphone\n\
[AVFoundation indev @ 0x7f] [1] Zoom Audio\n\
: Input/output error\n";

#[test]
fn avfoundation_video_listing() {
    let v = avfoundation_video_sources(AVF).expect("well-formed listing");
    assert_eq!(
        triples(&v),
        vec![
            t("0", "FaceTime HD Camera", "window"),
            t("1", "Capture screen 0", "screen"),
            t("2", "Big DISPLAY", "screen"),
        ]
    );
}

#[test]
fn avfoundation_screen_check_is_case_insensitive() {
    let listing = "AVFoundation video devices:\n[x] [3] Capture SCREEN 1\n[x] [4] Camera\n";
    let v = avfoundation_video_sources(listing).unwrap();
    assert_eq!(triples(&v), vec![t("3", "Capture SCREEN 1", "screen"), t("4", "Camera", "window")]);
}

#[test]
fn avfoundation_audio_listing() {
    let v = avfoundation_audio_devices(AVF).expect("well-formed listing");
    assert_eq!(
        triples(&v),
        vec![t("0", "MacBook Pro Microphone", "audio"), t("1", "Zoom Audio", "audio")]
    );
}

#[test]
fn avfoundation_entries_before_header_ignored() {
    let listing = "[x] [9] Early\nAVFoundation video devices:\n[x] [1]xScreen\n";
    let v = avfoundation_video_sources(listing).unwrap();
    assert_eq!(triples(&v), vec![t("1", "Screen", "screen")]);
    assert_eq!(triples(&avfoundation_audio_devices(listing).unwrap()), Vec::<(String, String, String)>::new());
}

#[test]
fn avfoundation_malformed_entries_refused() {
    assert!(avfoundation_video_sources("AVFoundation video devices:\n[x] [3]\n").is_none());
    assert!(avfoundation_video_sources("AVFoundation video devices:\n[x] [3]\u{e9}t\n").is_none());
    assert!(avfoundation_audio_devices("AVFoundation audio devices:\n[x] [3]").is_none());
    // Outside the video section the same line is not read.
    assert!(avfoundation_video_sources("[x] [3]\n").is_some());
}

#[test]
fn dshow_audio_listing() {
    let listing = "[dshow @ 000] DirectShow video devices (some may be both video and audio devices)\r\n\
[dshow @ 000]  \"Integrated Camera\"\r\n\
[dshow @ 000] DirectShow audio devices\r\n\
[dshow @ 000]  \"Microphone (Realtek Audio)\"\r\n\
[dshow @ 000]     Alternative name \"@device_cm_{33D9}\"\r\n\
[dshow @ 000]  \"unterminated\r\n\
dummy: Immediate exit requested\r\n";
    let v = dshow_audio_devices(listing);
    assert_eq!(
        triples(&v),
        vec![
            t("Microphone (Realtek Audio)", "Microphone (Realtek Audio)", "audio"),
            t("@device_cm_{33D9}", "@device_cm_{33D9}", "audio"),
        ]
    );
}

// --- session --------------------------------------------------------------

#[test]
fn session_start_and_stop() {
    let mut s: RecorderSession<u32> = RecorderSession::new();
    assert!(!s.is_recording());
    assert_eq!(s.ensure_idle(), Ok(()));
    assert_eq!(s.take_process(), Err("Not recording".to_string()));
    assert_eq!(s.output_path_or_default(), "");
    s.record_started(7, "/tmp/a.mp4".to_string());
    assert!(s.is_recording());
    assert_eq!(s.ensure_idle(), Err("Already recording".to_string()));
    assert_eq!(s.take_process(), Ok(7));
    assert!(!s.is_recording());
    assert_eq!(s.output_path_or_default(), "/tmp/a.mp4");
    assert_eq!(s.take_process(), Err("Not recording".to_string()));
    assert_eq!(s.ensure_idle(), Ok(()));
}

#[test]
fn stop_outcomes() {
    let p = || "/tmp/a.mp4".to_string();
    assert_eq!(stop_result(&WaitOutcome::Exited { success: true }, "", p()), Ok(p()));
    assert_eq!(stop_result(&WaitOutcome::TimedOut, "", p()), Ok(p()));
    assert_eq!(
        stop_result(&WaitOutcome::Exited { success: false }, "x\n\ny\r", p()),
        Err("ffmpeg failed: x\ny".to_string())
    );
    assert_eq!(
        stop_result(&WaitOutcome::Failed { message: "broken pipe".to_string() }, "", p()),
        Err("Error waiting for ffmpeg: broken pipe".to_string())
    );
    assert!(!needs_kill(&WaitOutcome::Exited { success: false }));
    assert!(needs_kill(&WaitOutcome::TimedOut));
    assert!(needs_kill(&WaitOutcome::Failed { message: String::new() }));
}

// --- smaller pieces -------------------------------------------------------

#[test]
fn overlay_is_at_least_40_pixels() {
    assert_eq!(overlay_size(10, 500), (40, 500));
    assert_eq!(overlay_size(40, 0), (40, 40));
    assert_eq!(overlay_size(u32::MAX, 41), (u32::MAX, 41));
}

#[test]
fn ffmpeg_locations() {
    assert_eq!(ffmpeg_sidecar_name(TargetOs::Windows), "ffmpeg.exe");
    assert_eq!(ffmpeg_sidecar_name(TargetOs::MacOs), "ffmpeg");
    assert_eq!(
        ffmpeg_fallback_locations(TargetOs::MacOs),
        strs(&["/opt/homebrew/bin/ffmpeg", "/usr/local/bin/ffmpeg"])
    );
    assert!(ffmpeg_fallback_locations(TargetOs::Other).is_empty());
    assert_eq!(
        where_output_candidates("  C:\\ffmpeg\\bin\\ffmpeg.exe \r\nD:\\x.exe\n\n"),
        strs(&["C:\\ffmpeg\\bin\\ffmpeg.exe", "D:\\x.exe", ""])
    );
}

#[test]
fn numerals() {
    assert_eq!(decimal_string(0), "0");
    assert_eq!(decimal_string(1234567890), "1234567890");
    assert_eq!(decimal_string(u64::MAX), u64::MAX.to_string());
    assert_eq!(signed_decimal_string(i64::MIN), i64::MIN.to_string());
    assert_eq!(signed_decimal_string(-7), "-7");
    assert_eq!(parse_isize(&chars_of("-0")), Some(0));
    assert_eq!(parse_isize(&chars_of("+")), None);
    assert_eq!(parse_isize(&chars_of(&isize::MIN.to_string())), Some(isize::MIN));
    assert_eq!(parse_isize(&chars_of(&isize::MAX.to_string())), Some(isize::MAX));
    assert_eq!(parse_isize(&chars_of("9223372036854775808")), "9223372036854775808".parse::<isize>().ok());
}

// --- the ffmpeg search and paths ------------------------------------------

use slop_screen_recorder::gif::gif_output_path;
use slop_screen_recorder::locate::{FfmpegCache, FfmpegProbe, FfmpegSearch, ProbeAnswer};
use slop_screen_recorder::record::recording_output_path;

fn probe_text(p: &FfmpegProbe) -> String {
    match p {
        FfmpegProbe::NonEmptyFile { path } => format!("file {}", path),
        FfmpegProbe::Exists { path } => format!("exists {}", path),
        FfmpegProbe::RunWhere => "where".to_string(),
        FfmpegProbe::Use { path } => format!("use {}", path),
    }
}

#[test]
fn search_uses_a_nonempty_sidecar() {
    let (mut s, p) = FfmpegSearch::start(TargetOs::Other, Some("/opt/app"));
    assert_eq!(probe_text(&p), "file /opt/app/ffmpeg");
    assert_eq!(probe_text(&s.step(ProbeAnswer::Yes)), "use /opt/app/ffmpeg");
    // Once decided, it stays decided.
    assert_eq!(probe_text(&s.step(ProbeAnswer::No)), "use /opt/app/ffmpeg");
}

#[test]
fn search_order_on_macos() {
    let (mut s, p) = FfmpegSearch::start(TargetOs::MacOs, Some("/Applications/R.app/Contents/MacOS"));
    assert_eq!(probe_text(&p), "file /Applications/R.app/Contents/MacOS/ffmpeg");
    assert_eq!(probe_text(&s.step(ProbeAnswer::No)), "exists /opt/homebrew/bin/ffmpeg");
    assert_eq!(probe_text(&s.step(ProbeAnswer::No)), "exists /usr/local/bin/ffmpeg");
    assert_eq!(probe_text(&s.step(ProbeAnswer::Yes)), "use /usr/local/bin/ffmpeg");
    let (mut s, _) = FfmpegSearch::start(TargetOs::MacOs, None);
    assert_eq!(probe_text(&s.step(ProbeAnswer::No)), "exists /usr/local/bin/ffmpeg");
    assert_eq!(probe_text(&s.step(ProbeAnswer::No)), "use ffmpeg");
}

#[test]
fn search_order_on_windows() {
    let (mut s, p) = FfmpegSearch::start(TargetOs::Windows, None);
    assert_eq!(probe_text(&p), "where");
    let out = "C:\\empty\\ffmpeg.exe\r\n  D:\\tools\\ffmpeg.exe \r\n".to_string();
    assert_eq!(probe_text(&s.step(ProbeAnswer::WhereOutput(Some(out)))), "file C:\\empty\\ffmpeg.exe");
    assert_eq!(probe_text(&s.step(ProbeAnswer::No)), "file D:\\tools\\ffmpeg.exe");
    assert_eq!(probe_text(&s.step(ProbeAnswer::Yes)), "use D:\\tools\\ffmpeg.exe");
    let (mut s, _) = FfmpegSearch::start(TargetOs::Windows, None);
    assert_eq!(probe_text(&s.step(ProbeAnswer::WhereOutput(None))), "use ffmpeg");
}

#[test]
fn search_without_anything_found_uses_path() {
    let (mut s, p) = FfmpegSearch::start(TargetOs::Other, Some("/x"));
    assert_eq!(probe_text(&p), "file /x/ffmpeg");
    assert_eq!(probe_text(&s.step(ProbeAnswer::No)), "use ffmpeg");
    let (_, p) = FfmpegSearch::start(TargetOs::Other, None);
    assert_eq!(probe_text(&p), "use ffmpeg");
}

#[test]
fn ffmpeg_cache_reads_back() {
    let mut c = FfmpegCache::new();
    assert_eq!(c.cached_ffmpeg(), None);
    c.remember_ffmpeg("/usr/bin/ffmpeg".to_string());
    assert_eq!(c.cached_ffmpeg(), Some("/usr/bin/ffmpeg".to_string()));
    c.remember_ffmpeg("ffmpeg".to_string());
    assert_eq!(c.cached_ffmpeg(), Some("ffmpeg".to_string()));
}

#[test]
fn gif_path_next_to_recording() {
    assert_eq!(gif_output_path("/v/clip.mp4", true), Ok("/v/clip.gif".to_string()));
    assert_eq!(gif_output_path("clip.mp4", true), Ok("clip.gif".to_string()));
    assert_eq!(gif_output_path("/v/clip.mov", true), Err("Input must be an .mp4 file".to_string()));
    assert_eq!(gif_output_path("/v/.mp4", true), Err("Input must be an .mp4 file".to_string()));
    assert_eq!(
        gif_output_path("/v/clip.mp4", false),
        Err("Input file does not exist: /v/clip.mp4".to_string())
    );
}

#[test]
fn recording_path_in_output_dir() {
    assert_eq!(
        recording_output_path("/home/u/Videos", "2026-05-18_14-03-09"),
        "/home/u/Videos/recording_2026-05-18_14-03-09.mp4"
    );
    assert_eq!(recording_output_path("/tmp/", "t"), "/tmp/recording_t.mp4");
}

// --- tail laws on concrete values -------------------------------------------

#[test]
fn tail_of_tail_and_suffix() {
    let s = "banner\nx\r\n\ny\rz\n  \nlast\n";
    for m in 0..6usize {
        for n in 0..=m {
            let long = tail_stderr(s, m);
            let short = tail_stderr(s, n);
            assert_eq!(tail_stderr(&long, n), short);
            assert!(long.ends_with(&short));
        }
    }
    assert_eq!(tail_stderr(s, 5), tail_stderr(s, 50));
}

#[test]
fn tail_ignores_banner_and_trailing_blanks() {
    let b = "Error opening output file\nError opening output files\n";
    let with_banner = format!("{}\n{}", "ffmpeg version 7\n  built with gcc", b);
    assert_eq!(tail_stderr(&with_banner, 2), tail_stderr(b, 2));
    let s = "one\ntwo";
    assert_eq!(tail_stderr(&format!("{}\n \r\n", s), 3), tail_stderr(s, 3));
}

// --- starting a recording, step by step -------------------------------------

use slop_screen_recorder::session::{wait_step, WaitStep};
use slop_screen_recorder::sources::window_is_listed;
use slop_screen_recorder::start::{StartAction, StartEvent, StartFlow};

fn action_text(a: &StartAction) -> String {
    match a {
        StartAction::CheckOutputDir { dir } => format!("check {}", dir),
        StartAction::PrepareOutput { dir } => format!("prepare {}", dir),
        StartAction::LookUpWindow { hwnd } => format!("window {}", hwnd),
        StartAction::Spawn { args } => format!("spawn {}", args.join(" ")),
        StartAction::Started { output_path } => format!("started {}", output_path),
        StartAction::Refuse { message } => format!("refuse {}", message),
    }
}

#[test]
fn start_flow_on_linux() {
    let session: RecorderSession<u32> = RecorderSession::new();
    let (mut f, a) = StartFlow::begin(&session, TargetOs::Other, config(":0.0", 30, false, None, None));
    assert_eq!(action_text(&a), "check /tmp");
    assert_eq!(action_text(&f.step(StartEvent::Checked(Ok(())))), "prepare /tmp");
    assert_eq!(
        action_text(&f.step(StartEvent::OutputReady("/tmp/r.mp4".to_string()))),
        "spawn -f x11grab -framerate 30 -i :0.0 -c:v libx264 -preset ultrafast -pix_fmt yuv420p -b:v 5000k -y /tmp/r.mp4"
    );
    assert_eq!(action_text(&f.step(StartEvent::Spawned)), "started /tmp/r.mp4");
}

#[test]
fn start_flow_refusals() {
    let mut busy: RecorderSession<u32> = RecorderSession::new();
    busy.record_started(1, "/tmp/a.mp4".to_string());
    let (_, a) = StartFlow::begin(&busy, TargetOs::Other, config(":0.0", 30, false, None, None));
    assert_eq!(action_text(&a), "refuse Already recording");

    let idle: RecorderSession<u32> = RecorderSession::new();
    let (mut f, _) = StartFlow::begin(&idle, TargetOs::Other, config(":0.0", 30, false, None, None));
    assert_eq!(action_text(&f.step(StartEvent::Checked(Err("no dir".to_string())))), "refuse no dir");

    let (mut f, _) = StartFlow::begin(&idle, TargetOs::Other, config(":0.0", 30, false, None, None));
    f.step(StartEvent::Checked(Ok(())));
    f.step(StartEvent::OutputReady("/tmp/r.mp4".to_string()));
    assert_eq!(
        action_text(&f.step(StartEvent::SpawnFailed("No such file or directory (os error 2)".to_string()))),
        "refuse Failed to start ffmpeg: No such file or directory (os error 2)"
    );
}

#[test]
fn start_flow_window_on_windows() {
    let idle: RecorderSession<u32> = RecorderSession::new();
    let (mut f, _) = StartFlow::begin(&idle, TargetOs::Windows, config("hwnd:77", 25, false, None, None));
    f.step(StartEvent::Checked(Ok(())));
    assert_eq!(action_text(&f.step(StartEvent::OutputReady("o.mp4".to_string()))), "window 77");
    let a = f.step(StartEvent::WindowRect(Ok((-8, 0, 1923, 1081))));
    assert!(action_text(&a).starts_with("spawn -f gdigrab -framerate 25 -offset_x -8 -offset_y 0 -video_size 1922x1080"));
    assert_eq!(action_text(&f.step(StartEvent::Spawned)), "started o.mp4");

    let region = Some(Region { x: 0, y: 0, width: 10, height: 10 });
    let (mut f, _) = StartFlow::begin(&idle, TargetOs::Windows, config("hwnd:77", 25, false, None, region));
    f.step(StartEvent::Checked(Ok(())));
    assert_eq!(
        action_text(&f.step(StartEvent::OutputReady("o.mp4".to_string()))),
        "refuse Region capture is not supported with a window source"
    );

    let (mut f, _) = StartFlow::begin(&idle, TargetOs::Windows, config("hwnd:77", 25, false, None, None));
    f.step(StartEvent::Checked(Ok(())));
    f.step(StartEvent::OutputReady("o.mp4".to_string()));
    assert_eq!(
        action_text(&f.step(StartEvent::WindowRect(Err("Window has zero size".to_string())))),
        "refuse Window has zero size"
    );
}

#[test]
fn wait_polls_until_exit_or_deadline() {
    assert!(matches!(wait_step(Some(true), 0, 10), WaitStep::Exited { success: true }));
    assert!(matches!(wait_step(Some(false), 99, 10), WaitStep::Exited { success: false }));
    assert!(matches!(wait_step(None, 9, 10), WaitStep::Poll));
    assert!(matches!(wait_step(None, 10, 10), WaitStep::TimedOut));
}

#[test]
fn only_visible_unminimised_windows_listed() {
    assert!(window_is_listed(true, false));
    assert!(!window_is_listed(false, false));
    assert!(!window_is_listed(true, true));
    assert!(!window_is_listed(false, true));
}
