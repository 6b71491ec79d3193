//! Everything `start_recording` decides before ffmpeg runs: where the file
//! goes, whether the output directory is usable, which window (if any) is
//! captured, and ffmpeg's arguments for each operating system.

use vstd::prelude::*;
use vstd::string::StringExecFns;
use crate::numeral::{
    decimal, decimal_string, hex8_of_i32, hex_fixed, parse_isize, parse_isize_spec,
    signed_decimal, signed_decimal_string, twos_complement_u32,
};
use crate::text::{chars_of, join2, join3, owned, string_from_chars, string_views};
use crate::types::{RecordingConfig, Region, TargetOs};

verus! {

broadcast use vstd::string::group_string_axioms;

// ---------------------------------------------------------------------------
// Output file and directory
// ---------------------------------------------------------------------------

/// The recording's file name for a local timestamp such as
/// `2026-05-18_14-03-09`.
pub fn recording_file_name(timestamp: &str) -> (name: String)
    ensures
        name@ == "recording_"@ + timestamp@ + ".mp4"@,
{
    join3("recording_", timestamp, ".mp4")
}

/// Where a recording started at local time `timestamp` goes: the
/// output directory joined with its file name.
pub fn recording_output_path(output_dir: &str, timestamp: &str) -> (path: String)
    ensures
        path@ == crate::paths::joined_path(output_dir@, "recording_"@ + timestamp@ + ".mp4"@),
{
    let name = recording_file_name(timestamp);
    crate::paths::path_join(output_dir, name.as_str())
}

/// The extra advice given on Windows when the output directory cannot be
/// written: there it is often Controlled Folder Access.
pub open spec fn write_advice(os: TargetOs) -> Seq<char> {
    if os == TargetOs::Windows {
        "\n\nOn Windows this is often Controlled Folder Access blocking the app. Either pick a different output directory, or allow this app in Windows Security \u{2192} Virus & threat protection \u{2192} Ransomware protection \u{2192} Controlled folder access."@
    } else {
        ""@
    }
}

/// The verdict on the output directory, from what the file system said:
/// whether it is a directory, and the error (if any) from creating a probe
/// file in it.
pub open spec fn writable_spec(
    dir: Seq<char>,
    is_dir: bool,
    create_error: Option<Seq<char>>,
    os: TargetOs,
) -> Result<(), Seq<char>> {
    if !is_dir {
        Err("Output directory does not exist: "@ + dir)
    } else {
        match create_error {
            None => Ok(()),
            Some(e) => Err("Cannot write to "@ + dir + ": "@ + e + write_advice(os)),
        }
    }
}

/// Verify the recording output directory exists and is writable, given
/// what the file system reported. Returns an actionable error if not — on
/// Windows this is often Controlled Folder Access blocking the write, which
/// would otherwise surface as a misleading "No such file or directory" from
/// ffmpeg.
pub fn output_dir_verdict(
    dir: &str,
    is_dir: bool,
    create_error: Option<&str>,
    os: TargetOs,
) -> (r: Result<(), String>)
    ensures
        match r {
            Ok(()) => writable_spec(dir@, is_dir, crate::gif::opt_view(create_error), os) == Ok::<(), Seq<char>>(()),
            Err(m) => writable_spec(dir@, is_dir, crate::gif::opt_view(create_error), os) == Err::<(), Seq<char>>(m@),
        },
{
    if !is_dir {
        return Err(join2("Output directory does not exist: ", dir));
    }
    match create_error {
        None => Ok(()),
        Some(e) => {
            let advice = if os == TargetOs::Windows {
                "\n\nOn Windows this is often Controlled Folder Access blocking the app. Either pick a different output directory, or allow this app in Windows Security \u{2192} Virus & threat protection \u{2192} Ransomware protection \u{2192} Controlled folder access."
            } else {
                ""
            };
            let mut m = join3("Cannot write to ", dir, ": ");
            m.append(e);
            m.append(advice);
            Err(m)
        },
    }
}

/// The default output directory: the user's video directory, else the
/// desktop, else the home directory, else the empty string.
pub open spec fn default_dir_spec(
    video: Option<Seq<char>>,
    desktop: Option<Seq<char>>,
    home: Option<Seq<char>>,
) -> Seq<char> {
    match video {
        Some(v) => v,
        None => match desktop {
            Some(d) => d,
            None => match home {
                Some(h) => h,
                None => Seq::<char>::empty(),
            },
        },
    }
}

/// Picks the default output directory from the platform's video, desktop
/// and home directories (each absent when the platform has none).
pub fn pick_default_output_dir(
    video: Option<String>,
    desktop: Option<String>,
    home: Option<String>,
) -> (r: String)
    ensures
        r@ == default_dir_spec(string_opt(video), string_opt(desktop), string_opt(home)),
{
    match video {
        Some(v) => v,
        None => match desktop {
            Some(d) => d,
            None => match home {
                Some(h) => h,
                None => String::new(),
            },
        },
    }
}

pub open spec fn string_opt(o: Option<String>) -> Option<Seq<char>> {
    match o {
        Some(s) => Some(s@),
        None => None,
    }
}

// ---------------------------------------------------------------------------
// Window capture on Windows
// ---------------------------------------------------------------------------

/// The source id of a window, `hwnd:` and the handle in decimal.
pub open spec fn window_id(hwnd: int) -> Seq<char> {
    "hwnd:"@ + signed_decimal(hwnd)
}

/// Window titles that are never offered: empty ones and known system
/// windows.
pub open spec fn keep_title_spec(title: Seq<char>) -> bool {
    &&& title.len() > 0
    &&& title != "Program Manager"@
    &&& title != "Windows Input Experience"@
    &&& title != "MSCTFIME UI"@
    &&& title != "Default IME"@
}

pub fn keep_window_title(title: &str) -> (b: bool)
    ensures
        b == keep_title_spec(title@),
{
    let t = owned(title);
    !title.is_empty() && !(t == owned("Program Manager")) && !(t == owned("Windows Input Experience"))
        && !(t == owned("MSCTFIME UI")) && !(t == owned("Default IME"))
}

/// What `start_recording` makes of the source id on Windows: `Ok(None)`
/// for the desktop, `Ok(Some(handle))` for a window, or the reason it
/// refuses.
pub open spec fn window_handle_spec(source_id: Seq<char>, has_region: bool) -> Result<
    Option<int>,
    Seq<char>,
> {
    if source_id.len() >= 5 && source_id.take(5) == "hwnd:"@ {
        if has_region {
            Err("Region capture is not supported with a window source"@)
        } else {
            match parse_isize_spec(source_id.skip(5)) {
                Some(h) => Ok(Some(h)),
                None => Err("Invalid window handle"@),
            }
        }
    } else {
        Ok(None)
    }
}

/// The window to capture, if the source is a window (`hwnd:<handle>`).
/// A window source cannot be combined with a region.
pub fn window_capture_handle(config: &RecordingConfig) -> (r: Result<Option<isize>, String>)
    ensures
        match r {
            Ok(Some(h)) => window_handle_spec(config.source_id@, config.region is Some) == Ok::<
                Option<int>,
                Seq<char>,
            >(Some(h as int)),
            Ok(None) => window_handle_spec(config.source_id@, config.region is Some) == Ok::<
                Option<int>,
                Seq<char>,
            >(None),
            Err(m) => window_handle_spec(config.source_id@, config.region is Some) == Err::<
                Option<int>,
                Seq<char>,
            >(m@),
        },
{
    let cs = chars_of(config.source_id.as_str());
    proof {
        reveal_strlit("hwnd:");
    }
    let is_window = cs.len() >= 5 && cs[0] == 'h' && cs[1] == 'w' && cs[2] == 'n' && cs[3] == 'd'
        && cs[4] == ':';
    proof {
        if cs.len() >= 5 {
            if is_window {
                assert(cs@.take(5) =~= "hwnd:"@);
            } else {
                assert(cs@.take(5) != "hwnd:"@) by {
                    if cs@.take(5) == "hwnd:"@ {
                        assert(cs@.take(5)[0] == 'h');
                        assert(cs@.take(5)[1] == 'w');
                        assert(cs@.take(5)[2] == 'n');
                        assert(cs@.take(5)[3] == 'd');
                        assert(cs@.take(5)[4] == ':');
                    }
                }
            }
        }
    }
    if !is_window {
        return Ok(None);
    }
    if config.region.is_some() {
        return Err(owned("Region capture is not supported with a window source"));
    }
    let mut rest: Vec<char> = Vec::new();
    let mut i: usize = 5;
    while i < cs.len()
        invariant
            5 <= i <= cs.len(),
            rest@ == cs@.subrange(5, i as int),
        decreases cs.len() - i,
    {
        rest.push(cs[i]);
        proof {
            assert(cs@.subrange(5, i + 1) =~= cs@.subrange(5, i as int).push(cs@[i as int]));
        }
        i = i + 1;
    }
    assert(rest@ =~= cs@.skip(5));
    match parse_isize(&rest) {
        Some(h) => Ok(Some(h)),
        None => Err(owned("Invalid window handle")),
    }
}

/// The capture rectangle of a window from its frame bounds
/// (`DwmGetWindowAttribute` with `DWMWA_EXTENDED_FRAME_BOUNDS`): `hr` is
/// the call's result code, the rest the rectangle it filled in.
pub open spec fn frame_rect_spec(hr: i32, left: i32, top: i32, right: i32, bottom: i32) -> Result<
    (int, int, int, int),
    Seq<char>,
> {
    if hr != 0 {
        Err("DwmGetWindowAttribute failed: 0x"@ + hex_fixed(twos_complement_u32(hr), 8))
    } else if right - left <= 0 || bottom - top <= 0 {
        Err("Window has zero size"@)
    } else {
        Ok((left as int, top as int, right - left, bottom - top))
    }
}

/// Look up a window's screen rect from what the window manager reported:
/// `(x, y, width, height)`, or why it cannot be captured.
pub fn window_rect_from_frame(hr: i32, left: i32, top: i32, right: i32, bottom: i32) -> (r: Result<
    (i32, i32, i32, i32),
    String,
>)
    requires
        hr == 0 ==> i32::MIN <= right - left <= i32::MAX && i32::MIN <= bottom - top <= i32::MAX,
    ensures
        match r {
            Ok((x, y, w, h)) => frame_rect_spec(hr, left, top, right, bottom) == Ok::<
                (int, int, int, int),
                Seq<char>,
            >((x as int, y as int, w as int, h as int)),
            Err(m) => frame_rect_spec(hr, left, top, right, bottom) == Err::<
                (int, int, int, int),
                Seq<char>,
            >(m@),
        },
{
    if hr != 0 {
        let mut msg = chars_of("DwmGetWindowAttribute failed: 0x");
        let hex = hex8_of_i32(hr);
        let mut k: usize = 0;
        let ghost base = msg@;
        while k < hex.len()
            invariant
                k <= hex.len(),
                msg@ == base + hex@.take(k as int),
            decreases hex.len() - k,
        {
            msg.push(hex[k]);
            proof {
                assert(hex@.take(k + 1) =~= hex@.take(k as int).push(hex@[k as int]));
            }
            k = k + 1;
        }
        assert(hex@.take(hex.len() as int) =~= hex@);
        return Err(string_from_chars(msg.as_slice()));
    }
    let w = right - left;
    let h = bottom - top;
    if w <= 0 || h <= 0 {
        return Err(owned("Window has zero size"));
    }
    Ok((left, top, w, h))
}

// ---------------------------------------------------------------------------
// ffmpeg's arguments
// ---------------------------------------------------------------------------

/// The largest even number not above `x` (what `x & !1` gives).
pub open spec fn even_floor(x: int) -> int {
    x - x % 2
}

/// Sizes given to ffmpeg are even and at most one pixel below the size
/// asked for, which is what the encoder's 4:2:0 chroma layout needs.
pub proof fn law_even_floor(x: int)
    ensures
        even_floor(x) % 2 == 0,
        x - 1 <= even_floor(x) <= x,
{
}

/// A `u32` read as `i32` (what `as i32` gives).
pub open spec fn as_i32(w: u32) -> int {
    if w <= i32::MAX {
        w as int
    } else {
        w - 0x1_0000_0000
    }
}

pub open spec fn audio_codec_args(capture_audio: bool) -> Seq<Seq<char>> {
    if capture_audio {
        seq!["-c:a"@, "aac"@, "-b:a"@, "128k"@]
    } else {
        Seq::<Seq<char>>::empty()
    }
}

/// macOS: avfoundation with the cursor, video and (optionally) audio
/// device in one input, cropping for a region, hardware H.264.
pub open spec fn mac_args(c: RecordingConfig, output: Seq<char>) -> Seq<Seq<char>> {
    let audio = match c.audio_device {
        Some(d) => d@,
        None => "0"@,
    };
    let input = if c.capture_audio {
        c.source_id@ + ":"@ + audio
    } else {
        c.source_id@ + ":none"@
    };
    let crop = match c.region {
        Some(r) => seq![
            "-vf"@,
            "crop="@ + decimal(even_floor(r.width as int) as nat) + ":"@ + decimal(
                even_floor(r.height as int) as nat,
            ) + ":"@ + signed_decimal(r.x as int) + ":"@ + signed_decimal(r.y as int),
        ],
        None => Seq::<Seq<char>>::empty(),
    };
    seq![
        "-f"@,
        "avfoundation"@,
        "-capture_cursor"@,
        "1"@,
        "-framerate"@,
        decimal(c.fps as nat),
        "-i"@,
        input,
    ] + crop + seq!["-c:v"@, "h264_videotoolbox"@, "-b:v"@, "5000k"@, "-pix_fmt"@, "yuv420p"@]
        + audio_codec_args(c.capture_audio) + seq!["-y"@, output]
}

/// The rectangle gdigrab captures on Windows: the window's, else the
/// region's, else none (the whole desktop).
pub open spec fn windows_rect(c: RecordingConfig, window_rect: Option<(i32, i32, i32, i32)>) -> Option<
    (int, int, int, int),
> {
    match window_rect {
        Some((x, y, w, h)) => Some((x as int, y as int, w as int, h as int)),
        None => match c.region {
            Some(r) => Some((r.x as int, r.y as int, as_i32(r.width), as_i32(r.height))),
            None => None,
        },
    }
}

/// Windows: gdigrab of the desktop (offset and size for a window or
/// region), dshow audio when a device is chosen, libx264.
pub open spec fn windows_args(
    c: RecordingConfig,
    output: Seq<char>,
    window_rect: Option<(i32, i32, i32, i32)>,
) -> Seq<Seq<char>> {
    let grab = match windows_rect(c, window_rect) {
        Some((x, y, w, h)) => seq![
            "-offset_x"@,
            signed_decimal(x),
            "-offset_y"@,
            signed_decimal(y),
            "-video_size"@,
            signed_decimal(even_floor(w)) + "x"@ + signed_decimal(even_floor(h)),
            "-i"@,
            "desktop"@,
        ],
        None => seq!["-i"@, "desktop"@],
    };
    let audio = if c.capture_audio && c.audio_device is Some {
        seq!["-f"@, "dshow"@, "-i"@, "audio="@ + c.audio_device->0@]
    } else {
        Seq::<Seq<char>>::empty()
    };
    seq!["-f"@, "gdigrab"@, "-framerate"@, decimal(c.fps as nat)] + grab + audio + seq![
        "-vf"@,
        "pad=ceil(iw/2)*2:ceil(ih/2)*2"@,
        "-c:v"@,
        "libx264"@,
        "-preset"@,
        "ultrafast"@,
        "-pix_fmt"@,
        "yuv420p"@,
        "-b:v"@,
        "5000k"@,
    ] + audio_codec_args(c.capture_audio) + seq!["-y"@, output]
}

/// Linux and other X11 systems: x11grab of the display, offset and size
/// for a region, libx264, no audio.
pub open spec fn x11_args(c: RecordingConfig, output: Seq<char>) -> Seq<Seq<char>> {
    let size = match c.region {
        Some(r) => seq![
            "-video_size"@,
            decimal(even_floor(r.width as int) as nat) + "x"@ + decimal(
                even_floor(r.height as int) as nat,
            ),
        ],
        None => Seq::<Seq<char>>::empty(),
    };
    let input = match c.region {
        Some(r) => c.source_id@ + "+"@ + signed_decimal(r.x as int) + ","@ + signed_decimal(
            r.y as int,
        ),
        None => c.source_id@,
    };
    seq!["-f"@, "x11grab"@, "-framerate"@, decimal(c.fps as nat)] + size + seq![
        "-i"@,
        input,
        "-c:v"@,
        "libx264"@,
        "-preset"@,
        "ultrafast"@,
        "-pix_fmt"@,
        "yuv420p"@,
        "-b:v"@,
        "5000k"@,
    ] + seq!["-y"@, output]
}

pub open spec fn record_args_spec(
    os: TargetOs,
    c: RecordingConfig,
    output: Seq<char>,
    window_rect: Option<(i32, i32, i32, i32)>,
) -> Seq<Seq<char>> {
    match os {
        TargetOs::MacOs => mac_args(c, output),
        TargetOs::Windows => windows_args(c, output, window_rect),
        TargetOs::Other => x11_args(c, output),
    }
}

fn push_lit(args: &mut Vec<String>, s: &str)
    ensures
        string_views(final(args)@) == string_views(old(args)@).push(s@),
{
    let ghost before = args@;
    args.push(owned(s));
    assert(string_views(args@) =~= string_views(before).push(s@));
}

fn push_string(args: &mut Vec<String>, s: String)
    ensures
        string_views(final(args)@) == string_views(old(args)@).push(s@),
{
    let ghost before = args@;
    args.push(s);
    assert(string_views(args@) =~= string_views(before).push(s@));
}

fn even_floor_u32(x: u32) -> (r: u64)
    ensures
        r == even_floor(x as int),
{
    (x - x % 2) as u64
}

fn even_floor_i32(x: i32) -> (r: i64)
    ensures
        r == even_floor(x as int),
{
    let y = x as i64;
    if y >= 0 {
        y - y % 2
    } else {
        let m = (0 - y) % 2;
        if m == 0 {
            y
        } else {
            y - 1
        }
    }
}

fn u32_as_i32(w: u32) -> (r: i32)
    ensures
        r == as_i32(w),
{
    if w <= 0x7fff_ffff {
        w as i32
    } else {
        (w as i64 - 0x1_0000_0000i64) as i32
    }
}

fn push_audio_codec(args: &mut Vec<String>, capture_audio: bool)
    ensures
        string_views(final(args)@) == string_views(old(args)@) + audio_codec_args(capture_audio),
{
    let ghost before = string_views(args@);
    if capture_audio {
        push_lit(args, "-c:a");
        push_lit(args, "aac");
        push_lit(args, "-b:a");
        push_lit(args, "128k");
    }
    assert(string_views(args@) =~= before + audio_codec_args(capture_audio));
}

fn mac_record_args(c: &RecordingConfig, output: &str) -> (args: Vec<String>)
    ensures
        string_views(args@) == mac_args(*c, output@),
{
    let mut args: Vec<String> = Vec::new();
    push_lit(&mut args, "-f");
    push_lit(&mut args, "avfoundation");
    push_lit(&mut args, "-capture_cursor");
    push_lit(&mut args, "1");
    push_lit(&mut args, "-framerate");
    push_string(&mut args, decimal_string(c.fps as u64));
    push_lit(&mut args, "-i");
    let input = if c.capture_audio {
        let audio: &str = match &c.audio_device {
            Some(d) => d.as_str(),
            None => "0",
        };
        join3(c.source_id.as_str(), ":", audio)
    } else {
        join2(c.source_id.as_str(), ":none")
    };
    push_string(&mut args, input);
    let ghost head = string_views(args@);
    match c.region {
        Some(r) => {
            push_lit(&mut args, "-vf");
            let mut crop = join2("crop=", decimal_string(even_floor_u32(r.width)).as_str());
            crop.append(":");
            crop.append(decimal_string(even_floor_u32(r.height)).as_str());
            crop.append(":");
            crop.append(signed_decimal_string(r.x as i64).as_str());
            crop.append(":");
            crop.append(signed_decimal_string(r.y as i64).as_str());
            push_string(&mut args, crop);
        },
        None => {},
    }
    let ghost mid = string_views(args@);
    push_lit(&mut args, "-c:v");
    push_lit(&mut args, "h264_videotoolbox");
    push_lit(&mut args, "-b:v");
    push_lit(&mut args, "5000k");
    push_lit(&mut args, "-pix_fmt");
    push_lit(&mut args, "yuv420p");
    push_audio_codec(&mut args, c.capture_audio);
    push_lit(&mut args, "-y");
    push_lit(&mut args, output);
    assert(string_views(args@) =~= mac_args(*c, output@));
    args
}

fn windows_record_args(
    c: &RecordingConfig,
    output: &str,
    window_rect: Option<(i32, i32, i32, i32)>,
) -> (args: Vec<String>)
    ensures
        string_views(args@) == windows_args(*c, output@, window_rect),
{
    let mut args: Vec<String> = Vec::new();
    push_lit(&mut args, "-f");
    push_lit(&mut args, "gdigrab");
    push_lit(&mut args, "-framerate");
    push_string(&mut args, decimal_string(c.fps as u64));
    let rect: Option<(i32, i32, i32, i32)> = match window_rect {
        Some(t) => Some(t),
        None => match c.region {
            Some(r) => Some((r.x, r.y, u32_as_i32(r.width), u32_as_i32(r.height))),
            None => None,
        },
    };
    assert(match rect {
        Some((x, y, w, h)) => windows_rect(*c, window_rect) == Some(
            (x as int, y as int, w as int, h as int),
        ),
        None => windows_rect(*c, window_rect) is None,
    });
    match rect {
        Some((x, y, w, h)) => {
            push_lit(&mut args, "-offset_x");
            push_string(&mut args, signed_decimal_string(x as i64));
            push_lit(&mut args, "-offset_y");
            push_string(&mut args, signed_decimal_string(y as i64));
            push_lit(&mut args, "-video_size");
            let size = join3(
                signed_decimal_string(even_floor_i32(w)).as_str(),
                "x",
                signed_decimal_string(even_floor_i32(h)).as_str(),
            );
            push_string(&mut args, size);
            push_lit(&mut args, "-i");
            push_lit(&mut args, "desktop");
        },
        None => {
            push_lit(&mut args, "-i");
            push_lit(&mut args, "desktop");
        },
    }
    if c.capture_audio {
        match &c.audio_device {
            Some(d) => {
                push_lit(&mut args, "-f");
                push_lit(&mut args, "dshow");
                push_lit(&mut args, "-i");
                push_string(&mut args, join2("audio=", d.as_str()));
            },
            None => {},
        }
    }
    push_lit(&mut args, "-vf");
    push_lit(&mut args, "pad=ceil(iw/2)*2:ceil(ih/2)*2");
    push_lit(&mut args, "-c:v");
    push_lit(&mut args, "libx264");
    push_lit(&mut args, "-preset");
    push_lit(&mut args, "ultrafast");
    push_lit(&mut args, "-pix_fmt");
    push_lit(&mut args, "yuv420p");
    push_lit(&mut args, "-b:v");
    push_lit(&mut args, "5000k");
    push_audio_codec(&mut args, c.capture_audio);
    push_lit(&mut args, "-y");
    push_lit(&mut args, output);
    assert(string_views(args@) =~= windows_args(*c, output@, window_rect));
    args
}

fn x11_record_args(c: &RecordingConfig, output: &str) -> (args: Vec<String>)
    ensures
        string_views(args@) == x11_args(*c, output@),
{
    let mut args: Vec<String> = Vec::new();
    push_lit(&mut args, "-f");
    push_lit(&mut args, "x11grab");
    push_lit(&mut args, "-framerate");
    push_string(&mut args, decimal_string(c.fps as u64));
    let input = match c.region {
        Some(r) => {
            push_lit(&mut args, "-video_size");
            let size = join3(
                decimal_string(even_floor_u32(r.width)).as_str(),
                "x",
                decimal_string(even_floor_u32(r.height)).as_str(),
            );
            push_string(&mut args, size);
            let mut input = join3(
                c.source_id.as_str(),
                "+",
                signed_decimal_string(r.x as i64).as_str(),
            );
            input.append(",");
            input.append(signed_decimal_string(r.y as i64).as_str());
            input
        },
        None => owned(c.source_id.as_str()),
    };
    push_lit(&mut args, "-i");
    push_string(&mut args, input);
    push_lit(&mut args, "-c:v");
    push_lit(&mut args, "libx264");
    push_lit(&mut args, "-preset");
    push_lit(&mut args, "ultrafast");
    push_lit(&mut args, "-pix_fmt");
    push_lit(&mut args, "yuv420p");
    push_lit(&mut args, "-b:v");
    push_lit(&mut args, "5000k");
    push_lit(&mut args, "-y");
    push_lit(&mut args, output);
    assert(string_views(args@) =~= x11_args(*c, output@));
    args
}

/// ffmpeg's arguments for recording `config` into `output_path` on `os`.
/// On Windows `window_rect` is the captured window's rectangle when the
/// source is a window (see `window_capture_handle` and
/// `window_rect_from_frame`); elsewhere it is not used.
pub fn build_record_args(
    os: TargetOs,
    config: &RecordingConfig,
    output_path: &str,
    window_rect: Option<(i32, i32, i32, i32)>,
) -> (args: Vec<String>)
    ensures
        string_views(args@) == record_args_spec(os, *config, output_path@, window_rect),
{
    match os {
        TargetOs::MacOs => mac_record_args(config, output_path),
        TargetOs::Windows => windows_record_args(config, output_path, window_rect),
        TargetOs::Other => x11_record_args(config, output_path),
    }
}

} // verus!

verus! {

// ---------------------------------------------------------------------------
// Laws of the argument lists and the directory verdict
// ---------------------------------------------------------------------------

/// On macOS a region is always cropped, with or without audio: right
/// after the input come `-vf` and `crop=<even width>:<even height>:<x>:<y>`
/// taken from the region alone; without a region the encoder follows the
/// input directly.
pub proof fn law_mac_crop_follows_region(
    c: RecordingConfig,
    output: Seq<char>,
    window_rect: Option<(i32, i32, i32, i32)>,
)
    ensures ({
        let args = record_args_spec(TargetOs::MacOs, c, output, window_rect);
        &&& args[6] == "-i"@
        &&& args[7] == (if c.capture_audio {
            c.source_id@ + ":"@ + (match c.audio_device {
                Some(d) => d@,
                None => "0"@,
            })
        } else {
            c.source_id@ + ":none"@
        })
        &&& match c.region {
            Some(r) => {
                &&& args[8] == "-vf"@
                &&& args[9] == "crop="@ + decimal(even_floor(r.width as int) as nat) + ":"@
                    + decimal(even_floor(r.height as int) as nat) + ":"@ + signed_decimal(
                    r.x as int,
                ) + ":"@ + signed_decimal(r.y as int)
                &&& args[10] == "-c:v"@
            },
            None => args[8] == "-c:v"@,
        }
        &&& args.last() == output
    }),
{
}

/// On Windows, without a window rectangle, a region is captured at its
/// offset and (even) size from the desktop: `-offset_x <x> -offset_y <y>
/// -video_size <w>x<h> -i desktop`.
pub proof fn law_windows_region_captured(c: RecordingConfig, output: Seq<char>, r: Region)
    requires
        c.region == Some(r),
    ensures ({
        let args = record_args_spec(TargetOs::Windows, c, output, None);
        &&& args[4] == "-offset_x"@
        &&& args[5] == signed_decimal(r.x as int)
        &&& args[6] == "-offset_y"@
        &&& args[7] == signed_decimal(r.y as int)
        &&& args[8] == "-video_size"@
        &&& args[9] == signed_decimal(even_floor(as_i32(r.width))) + "x"@ + signed_decimal(
            even_floor(as_i32(r.height)),
        )
        &&& args[10] == "-i"@
        &&& args[11] == "desktop"@
        &&& args.last() == output
    }),
{
}

/// A directory that does not exist is refused on every system, whatever
/// else was reported; a directory passes exactly when it exists and the
/// probe file could be created; a write failure names the directory and
/// the error.
pub proof fn law_output_dir_verdict(
    dir: Seq<char>,
    is_dir: bool,
    create_error: Option<Seq<char>>,
    os: TargetOs,
)
    ensures
        !is_dir ==> writable_spec(dir, is_dir, create_error, os) == Err::<(), Seq<char>>(
            "Output directory does not exist: "@ + dir,
        ),
        writable_spec(dir, is_dir, create_error, os) is Ok <==> (is_dir && create_error is None),
        is_dir && create_error is Some ==> exists|advice: Seq<char>|
            writable_spec(dir, is_dir, create_error, os) == Err::<(), Seq<char>>(
                "Cannot write to "@ + dir + ": "@ + create_error->0 + advice,
            ),
{
    if is_dir && create_error is Some {
        let advice = write_advice(os);
        assert(writable_spec(dir, is_dir, create_error, os) == Err::<(), Seq<char>>(
            "Cannot write to "@ + dir + ": "@ + create_error->0 + advice,
        ));
    }
}

} // verus!
