//! Turning a finished MP4 recording into a GIF: ffmpeg's arguments, the
//! output file's place, and the messages for each way it can fail.

use vstd::prelude::*;
use crate::text::{join2, owned, string_views};
use crate::stderr::{tail_spec, tail_stderr};
use crate::paths::{
    extension_of, file_stem_of, joined_path, parent_of, path_extension, path_file_stem, path_join,
    path_parent,
};

verus! {

broadcast use vstd::string::group_string_axioms;

/// The filter graph: at most 10 fps, width at most 720 px (lanczos, even
/// height), near-identical frames dropped, a palette built from the pixels
/// that change, and each frame encoding only the rectangle that changed.
pub open spec fn gif_filter() -> Seq<char> {
    "fps=10,scale='min(720,iw)':-2:flags=lanczos,mpdecimate,split[a][b];[a]palettegen=stats_mode=diff[p];[b][p]paletteuse=diff_mode=rectangle"@
}

/// ffmpeg's arguments for converting `input` to the GIF `output`.
pub open spec fn gif_args_spec(input: Seq<char>, output: Seq<char>) -> Seq<Seq<char>> {
    seq![
        "-y"@,
        "-i"@,
        input,
        "-filter_complex"@,
        gif_filter(),
        "-loop"@,
        "0"@,
        output,
    ]
}

/// Build the ffmpeg argv for converting an MP4 to a GIF.
///
/// The filter graph:
///   - caps the rate at 10fps (longest delays come from `mpdecimate` skipping
///     near-identical frames, so static stretches collapse into single long-
///     delay GIF frames),
///   - downscales width to at most 720px (lanczos), height auto + even,
///   - generates a per-clip palette weighted toward changing pixels, and
///   - applies that palette with `diff_mode=rectangle` so each GIF frame only
///     re-encodes the bounding box of changed pixels.
pub fn build_gif_args(input: &str, output: &str) -> (args: Vec<String>)
    ensures
        string_views(args@) == gif_args_spec(input@, output@),
{
    let filter =
        "fps=10,scale='min(720,iw)':-2:flags=lanczos,mpdecimate,split[a][b];[a]palettegen=stats_mode=diff[p];[b][p]paletteuse=diff_mode=rectangle";
    let mut args: Vec<String> = Vec::new();
    args.push(owned("-y"));
    args.push(owned("-i"));
    args.push(owned(input));
    args.push(owned("-filter_complex"));
    args.push(owned(filter));
    args.push(owned("-loop"));
    args.push(owned("0"));
    args.push(owned(output));
    assert(string_views(args@) =~= gif_args_spec(input@, output@));
    args
}

/// The error text for an ffmpeg run that exited unsuccessfully: the last
/// six non-blank lines of its stderr.
pub open spec fn ffmpeg_failure_spec(stderr: Seq<char>) -> Seq<char> {
    "ffmpeg failed: "@ + tail_spec(stderr, 6)
}

pub fn ffmpeg_failure(stderr: &str) -> (msg: String)
    ensures
        msg@ == ffmpeg_failure_spec(stderr@),
{
    let tail = tail_stderr(stderr, 6);
    join2("ffmpeg failed: ", tail.as_str())
}

/// Where the GIF goes, or why the conversion is refused.
pub open spec fn gif_target_spec(
    input: Seq<char>,
    exists: bool,
    extension: Option<Seq<char>>,
    parent: Option<Seq<char>>,
    stem: Option<Seq<char>>,
) -> Result<(Seq<char>, Seq<char>), Seq<char>> {
    if !exists {
        Err("Input file does not exist: "@ + input)
    } else if extension != Some("mp4"@) {
        Err("Input must be an .mp4 file"@)
    } else if parent is None {
        Err("Input has no parent directory"@)
    } else if stem is None {
        Err("Input has no file name"@)
    } else {
        Ok((parent->0, stem->0 + ".gif"@))
    }
}

/// Decides where the GIF for `input_path` goes: in the input's directory,
/// named after its stem with `.gif`. The arguments are what the file
/// system and `Path` report of the input: whether it exists, its
/// extension, its parent directory and its file stem. Returns the
/// directory and the file name, or the message for the first check that
/// fails.
pub fn gif_target(
    input_path: &str,
    input_exists: bool,
    extension: Option<&str>,
    parent: Option<&str>,
    file_stem: Option<&str>,
) -> (r: Result<(String, String), String>)
    ensures
        match r {
            Ok((dir, name)) => gif_target_spec(
                input_path@,
                input_exists,
                opt_view(extension),
                opt_view(parent),
                opt_view(file_stem),
            ) == Ok::<(Seq<char>, Seq<char>), Seq<char>>((dir@, name@)),
            Err(m) => gif_target_spec(
                input_path@,
                input_exists,
                opt_view(extension),
                opt_view(parent),
                opt_view(file_stem),
            ) == Err::<(Seq<char>, Seq<char>), Seq<char>>(m@),
        },
{
    if !input_exists {
        return Err(join2("Input file does not exist: ", input_path));
    }
    let is_mp4 = match extension {
        Some(e) => {
            let mp4 = owned("mp4");
            let e2 = owned(e);
            e2 == mp4
        },
        None => false,
    };
    if !is_mp4 {
        return Err(owned("Input must be an .mp4 file"));
    }
    let dir = match parent {
        Some(p) => owned(p),
        None => {
            return Err(owned("Input has no parent directory"));
        },
    };
    let name = match file_stem {
        Some(s) => join2(s, ".gif"),
        None => {
            return Err(owned("Input has no file name"));
        },
    };
    Ok((dir, name))
}

/// Where the GIF for `input` goes (the input's directory joined with
/// `<stem>.gif`), or why the conversion is refused; `exists` is whether
/// the input file exists.
pub open spec fn gif_output_spec(input: Seq<char>, exists: bool) -> Result<Seq<char>, Seq<char>> {
    match gif_target_spec(input, exists, extension_of(input), parent_of(input), file_stem_of(input)) {
        Ok((dir, name)) => Ok(joined_path(dir, name)),
        Err(m) => Err(m),
    }
}

/// The GIF's path for the MP4 recording `input_path`, reading its
/// extension, directory and stem with `Path`; `input_exists` is what the
/// file system says of it.
pub fn gif_output_path(input_path: &str, input_exists: bool) -> (r: Result<String, String>)
    ensures
        match r {
            Ok(p) => gif_output_spec(input_path@, input_exists) == Ok::<Seq<char>, Seq<char>>(p@),
            Err(m) => gif_output_spec(input_path@, input_exists) == Err::<Seq<char>, Seq<char>>(m@),
        },
{
    let ext = path_extension(input_path);
    let parent = path_parent(input_path);
    let stem = path_file_stem(input_path);
    let ext_s: Option<&str> = match &ext {
        Some(e) => Some(e.as_str()),
        None => None,
    };
    let parent_s: Option<&str> = match &parent {
        Some(p) => Some(p.as_str()),
        None => None,
    };
    let stem_s: Option<&str> = match &stem {
        Some(s) => Some(s.as_str()),
        None => None,
    };
    assert(opt_view(ext_s) == extension_of(input_path@));
    assert(opt_view(parent_s) == parent_of(input_path@));
    assert(opt_view(stem_s) == file_stem_of(input_path@));
    match gif_target(input_path, input_exists, ext_s, parent_s, stem_s) {
        Ok((dir, name)) => Ok(path_join(dir.as_str(), name.as_str())),
        Err(m) => Err(m),
    }
}

pub open spec fn opt_view(o: Option<&str>) -> Option<Seq<char>> {
    match o {
        Some(s) => Some(s@),
        None => None,
    }
}

/// The result of a finished conversion: the GIF's path when ffmpeg
/// succeeded, else its tailed stderr.
pub fn gif_result(success: bool, stderr: &str, output_path: String) -> (r: Result<String, String>)
    ensures
        success ==> r is Ok && r->Ok_0@ == output_path@,
        !success ==> r is Err && r->Err_0@ == ffmpeg_failure_spec(stderr@),
{
    if success {
        Ok(output_path)
    } else {
        Err(ffmpeg_failure(stderr))
    }
}

} // verus!
