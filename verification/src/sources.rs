//! What can be recorded: reading ffmpeg's device listings (avfoundation on
//! macOS, DirectShow on Windows), the windows offered on Windows, and the
//! fixed choices elsewhere.

use vstd::prelude::*;
use crate::numeral::{signed_decimal, signed_decimal_string};
use crate::record::{keep_title_spec, keep_window_title, window_id};
use crate::text::{
    chars_of, contains_exec, contains_seq, find_seq, first_occurrence, join2, lines_of, owned,
    slice_chars, split_lines, string_from_chars, views,
};
use crate::types::{make_source, source_models, RecordingSource, SourceModel};

verus! {

broadcast use vstd::string::group_string_axioms;

/// What `str::to_lowercase` returns for `s` (Unicode lower-case mapping).
pub uninterp spec fn lowercase(s: Seq<char>) -> Seq<char>;

/// `str::to_lowercase`: the Unicode lower-case mapping of `s`.
#[verifier::external_body]
fn to_lowercase(s: &str) -> (r: String)
    ensures
        r@ == lowercase(s@),
{
    s.to_lowercase()
}

pub open spec fn model(id: Seq<char>, name: Seq<char>, source_type: Seq<char>) -> SourceModel {
    SourceModel { id, name, source_type }
}

// ---------------------------------------------------------------------------
// One entry of an avfoundation listing
// ---------------------------------------------------------------------------

/// How a line of an avfoundation listing reads:
/// `[AVFoundation indev @ 0x...] [2] Capture screen 0`.
pub enum ListingEntry {
    /// No `] [` and `]` on the line: not an entry.
    NotAnEntry,
    /// An entry: the text between `] [` and the next `]`, and what follows
    /// `]` and one more character.
    Entry { id: Seq<char>, name: Seq<char> },
    /// The character after `]` is missing or not ASCII: cutting the name
    /// one byte after `]` would fall outside the line or inside a
    /// character, so the listing cannot be read.
    Malformed,
}

pub open spec fn listing_entry(line: Seq<char>) -> ListingEntry {
    match first_occurrence(line, "] ["@) {
        None => ListingEntry::NotAnEntry,
        Some(b) => {
            let rest = line.skip(b + 3);
            match first_occurrence(rest, "]"@) {
                None => ListingEntry::NotAnEntry,
                Some(e) => if e + 1 >= rest.len() || (rest[e + 1] as u32) >= 128 {
                    ListingEntry::Malformed
                } else {
                    ListingEntry::Entry { id: rest.take(e), name: rest.skip(e + 2) }
                },
            }
        },
    }
}

/// Exec form of `listing_entry`: `Ok(None)` for no entry, `Ok(Some((id,
/// name)))` for an entry, `Err(())` for a malformed one.
fn read_entry(line: &Vec<char>, open: &Vec<char>, close: &Vec<char>) -> (r: Result<
    Option<(Vec<char>, Vec<char>)>,
    (),
>)
    requires
        open@ == "] ["@,
        close@ == "]"@,
    ensures
        match r {
            Ok(None) => listing_entry(line@) is NotAnEntry,
            Ok(Some((id, name))) => listing_entry(line@) == (ListingEntry::Entry {
                id: id@,
                name: name@,
            }),
            Err(()) => listing_entry(line@) is Malformed,
        },
{
    proof {
        reveal_strlit("] [");
        reveal_strlit("]");
    }
    assert(open@.len() == 3);
    assert(close@.len() == 1);
    match find_seq(line, open) {
        None => Ok(None),
        Some(b) => {
            let n = line.len();
            let rest = slice_chars(line, b + 3, n);
            assert(rest@ =~= line@.skip(b + 3));
            match find_seq(&rest, close) {
                None => Ok(None),
                Some(e) => {
                    if e + 1 >= rest.len() || (rest[e + 1] as u32) >= 128 {
                        Err(())
                    } else {
                        let id = slice_chars(&rest, 0, e);
                        let name = slice_chars(&rest, e + 2, rest.len());
                        assert(id@ =~= rest@.take(e as int));
                        assert(name@ =~= rest@.skip(e + 2));
                        Ok(Some((id, name)))
                    }
                },
            }
        },
    }
}

// ---------------------------------------------------------------------------
// Screens and cameras on macOS
// ---------------------------------------------------------------------------

/// `"screen"` when the lower-cased name mentions a screen or a display,
/// else `"window"`.
pub open spec fn kind_of_lowercase(lower: Seq<char>) -> Seq<char> {
    if contains_seq(lower, "screen"@) || contains_seq(lower, "display"@) {
        "screen"@
    } else {
        "window"@
    }
}

/// The source type for a device whose lower-cased name is `lower`.
pub fn kind_from_lowercase(lower: &str) -> (k: String)
    ensures
        k@ == kind_of_lowercase(lower@),
{
    let l = chars_of(lower);
    let screen = chars_of("screen");
    let display = chars_of("display");
    if contains_exec(&l, &screen) || contains_exec(&l, &display) {
        owned("screen")
    } else {
        owned("window")
    }
}

pub open spec fn prepend<A>(done: Seq<A>, rest: Option<Seq<A>>) -> Option<Seq<A>> {
    match rest {
        Some(r) => Some(done + r),
        None => None,
    }
}

/// The video devices of an avfoundation listing: entries after the
/// `AVFoundation video devices:` header, up to the audio header. `None`
/// when an entry there is malformed.
pub open spec fn video_entries(ls: Seq<Seq<char>>, in_video: bool) -> Option<Seq<SourceModel>>
    decreases ls.len(),
{
    if ls.len() == 0 {
        Some(Seq::<SourceModel>::empty())
    } else {
        let l = ls[0];
        let rest = ls.drop_first();
        if contains_seq(l, "AVFoundation video devices:"@) {
            video_entries(rest, true)
        } else if contains_seq(l, "AVFoundation audio devices:"@) {
            Some(Seq::<SourceModel>::empty())
        } else if in_video {
            match listing_entry(l) {
                ListingEntry::NotAnEntry => video_entries(rest, true),
                ListingEntry::Malformed => None,
                ListingEntry::Entry { id, name } => prepend(
                    seq![model(id, name, kind_of_lowercase(lowercase(name)))],
                    video_entries(rest, true),
                ),
            }
        } else {
            video_entries(rest, false)
        }
    }
}

proof fn lemma_prepend_assoc<A>(a: Seq<A>, b: Seq<A>, r: Option<Seq<A>>)
    ensures
        prepend(a, prepend(b, r)) == prepend(a + b, r),
{
    match r {
        Some(x) => {
            assert(a + (b + x) =~= (a + b) + x);
        },
        None => {},
    }
}

/// The screens and cameras in ffmpeg's avfoundation device listing
/// (`ffmpeg -f avfoundation -list_devices true -i ""`). A device whose name
/// mentions a screen or display is a `"screen"`, any other a `"window"`.
/// `None` when a device line is malformed (see `ListingEntry::Malformed`).
pub fn avfoundation_video_sources(listing: &str) -> (r: Option<Vec<RecordingSource>>)
    ensures
        match r {
            Some(v) => video_entries(lines_of(listing@), false) == Some(source_models(v@)),
            None => video_entries(lines_of(listing@), false) is None,
        },
{
    let cs = chars_of(listing);
    let ls = split_lines(&cs);
    let video_hdr = chars_of("AVFoundation video devices:");
    let audio_hdr = chars_of("AVFoundation audio devices:");
    let open = chars_of("] [");
    let close = chars_of("]");
    let ghost all = views(ls@);
    let mut out: Vec<RecordingSource> = Vec::new();
    let mut in_video = false;
    let mut i: usize = 0;
    assert(all.skip(0) =~= all);
    assert(source_models(out@) =~= Seq::<SourceModel>::empty());
    while i < ls.len()
        invariant
            i <= ls.len(),
            all == views(ls@),
            all == lines_of(cs@),
            cs@ == listing@,
            video_hdr@ == "AVFoundation video devices:"@,
            audio_hdr@ == "AVFoundation audio devices:"@,
            open@ == "] ["@,
            close@ == "]"@,
            video_entries(all, false) == prepend(source_models(out@), video_entries(all.skip(i as int), in_video)),
        decreases ls.len() - i,
    {
        let ghost tail = all.skip(i as int);
        proof {
            assert(tail[0] == ls@[i as int]@);
            assert(tail.drop_first() =~= all.skip(i + 1));
        }
        let line = &ls[i];
        if contains_exec(line, &video_hdr) {
            in_video = true;
        } else if contains_exec(line, &audio_hdr) {
            proof {
                assert(source_models(out@) + Seq::<SourceModel>::empty() =~= source_models(out@));
            }
            return Some(out);
        } else if in_video {
            match read_entry(line, &open, &close) {
                Err(()) => {
                    return None;
                },
                Ok(None) => {},
                Ok(Some((id, name))) => {
                    let name_s = string_from_chars(name.as_slice());
                    let lower = to_lowercase(name_s.as_str());
                    let kind = kind_from_lowercase(lower.as_str());
                    let ghost before = source_models(out@);
                    let src = make_source(string_from_chars(id.as_slice()), name_s, kind);
                    out.push(src);
                    proof {
                        assert(source_models(out@) =~= before + seq![
                            model(id@, name@, kind_of_lowercase(lowercase(name@))),
                        ]);
                        lemma_prepend_assoc(
                            before,
                            seq![model(id@, name@, kind_of_lowercase(lowercase(name@)))],
                            video_entries(all.skip(i + 1), true),
                        );
                    }
                },
            }
        }
        i = i + 1;
    }
    proof {
        assert(all.skip(ls.len() as int) =~= Seq::<Seq<char>>::empty());
        assert(source_models(out@) + Seq::<SourceModel>::empty() =~= source_models(out@));
    }
    Some(out)
}

} // verus!

verus! {

// ---------------------------------------------------------------------------
// Audio inputs
// ---------------------------------------------------------------------------

/// The audio devices of an avfoundation listing: every entry after the
/// `AVFoundation audio devices:` header. `None` when one is malformed.
pub open spec fn audio_entries(ls: Seq<Seq<char>>, in_audio: bool) -> Option<Seq<SourceModel>>
    decreases ls.len(),
{
    if ls.len() == 0 {
        Some(Seq::<SourceModel>::empty())
    } else {
        let l = ls[0];
        let rest = ls.drop_first();
        if contains_seq(l, "AVFoundation audio devices:"@) {
            audio_entries(rest, true)
        } else if in_audio {
            match listing_entry(l) {
                ListingEntry::NotAnEntry => audio_entries(rest, true),
                ListingEntry::Malformed => None,
                ListingEntry::Entry { id, name } => prepend(
                    seq![model(id, name, "audio"@)],
                    audio_entries(rest, true),
                ),
            }
        } else {
            audio_entries(rest, false)
        }
    }
}

/// The audio devices in ffmpeg's avfoundation device listing. `None` when
/// a device line is malformed (see `ListingEntry::Malformed`).
pub fn avfoundation_audio_devices(listing: &str) -> (r: Option<Vec<RecordingSource>>)
    ensures
        match r {
            Some(v) => audio_entries(lines_of(listing@), false) == Some(source_models(v@)),
            None => audio_entries(lines_of(listing@), false) is None,
        },
{
    let cs = chars_of(listing);
    let ls = split_lines(&cs);
    let audio_hdr = chars_of("AVFoundation audio devices:");
    let open = chars_of("] [");
    let close = chars_of("]");
    let ghost all = views(ls@);
    let mut out: Vec<RecordingSource> = Vec::new();
    let mut in_audio = false;
    let mut i: usize = 0;
    assert(all.skip(0) =~= all);
    assert(source_models(out@) =~= Seq::<SourceModel>::empty());
    while i < ls.len()
        invariant
            i <= ls.len(),
            all == views(ls@),
            all == lines_of(cs@),
            cs@ == listing@,
            audio_hdr@ == "AVFoundation audio devices:"@,
            open@ == "] ["@,
            close@ == "]"@,
            audio_entries(all, false) == prepend(source_models(out@), audio_entries(all.skip(i as int), in_audio)),
        decreases ls.len() - i,
    {
        let ghost tail = all.skip(i as int);
        proof {
            assert(tail[0] == ls@[i as int]@);
            assert(tail.drop_first() =~= all.skip(i + 1));
        }
        let line = &ls[i];
        if contains_exec(line, &audio_hdr) {
            in_audio = true;
        } else if in_audio {
            match read_entry(line, &open, &close) {
                Err(()) => {
                    return None;
                },
                Ok(None) => {},
                Ok(Some((id, name))) => {
                    let ghost before = source_models(out@);
                    let src = make_source(
                        string_from_chars(id.as_slice()),
                        string_from_chars(name.as_slice()),
                        owned("audio"),
                    );
                    out.push(src);
                    proof {
                        assert(source_models(out@) =~= before + seq![model(id@, name@, "audio"@)]);
                        lemma_prepend_assoc(
                            before,
                            seq![model(id@, name@, "audio"@)],
                            audio_entries(all.skip(i + 1), true),
                        );
                    }
                },
            }
        }
        i = i + 1;
    }
    proof {
        assert(all.skip(ls.len() as int) =~= Seq::<Seq<char>>::empty());
        assert(source_models(out@) + Seq::<SourceModel>::empty() =~= source_models(out@));
    }
    Some(out)
}

/// The audio devices of a DirectShow listing: after the `DirectShow audio
/// devices` header, the first double-quoted name on each line.
pub open spec fn dshow_entries(ls: Seq<Seq<char>>, in_audio: bool) -> Seq<SourceModel>
    decreases ls.len(),
{
    if ls.len() == 0 {
        Seq::<SourceModel>::empty()
    } else {
        let l = ls[0];
        let rest = ls.drop_first();
        if contains_seq(l, "DirectShow audio devices"@) {
            dshow_entries(rest, true)
        } else if in_audio && contains_seq(l, "\""@) {
            let after = l.skip(first_occurrence(l, "\""@)->0 + 1);
            match first_occurrence(after, "\""@) {
                Some(e) => seq![model(after.take(e), after.take(e), "audio"@)] + dshow_entries(
                    rest,
                    true,
                ),
                None => dshow_entries(rest, true),
            }
        } else {
            dshow_entries(rest, in_audio)
        }
    }
}

/// The audio devices in ffmpeg's DirectShow device listing
/// (`ffmpeg -f dshow -list_devices true -i dummy`), each named by the text
/// between the first pair of double quotes on its line.
pub fn dshow_audio_devices(listing: &str) -> (v: Vec<RecordingSource>)
    ensures
        source_models(v@) == dshow_entries(lines_of(listing@), false),
{
    let cs = chars_of(listing);
    let ls = split_lines(&cs);
    let header = chars_of("DirectShow audio devices");
    let quote = chars_of("\"");
    proof {
        reveal_strlit("\"");
    }
    assert(quote@.len() == 1);
    let ghost all = views(ls@);
    let mut out: Vec<RecordingSource> = Vec::new();
    let mut in_audio = false;
    let mut i: usize = 0;
    assert(all.skip(0) =~= all);
    assert(source_models(out@) =~= Seq::<SourceModel>::empty());
    while i < ls.len()
        invariant
            i <= ls.len(),
            all == views(ls@),
            all == lines_of(cs@),
            cs@ == listing@,
            header@ == "DirectShow audio devices"@,
            quote@ == "\""@,
            quote@.len() == 1,
            dshow_entries(all, false) == source_models(out@) + dshow_entries(all.skip(i as int), in_audio),
        decreases ls.len() - i,
    {
        let ghost tail = all.skip(i as int);
        proof {
            assert(tail[0] == ls@[i as int]@);
            assert(tail.drop_first() =~= all.skip(i + 1));
        }
        let line = &ls[i];
        if contains_exec(line, &header) {
            in_audio = true;
        } else if in_audio {
            match find_seq(line, &quote) {
                None => {},
                Some(s) => {
                    let n = line.len();
                    let after = slice_chars(line, s + 1, n);
                    assert(after@ =~= line@.skip(s + 1));
                    match find_seq(&after, &quote) {
                        None => {},
                        Some(e) => {
                            let name = slice_chars(&after, 0, e);
                            assert(name@ =~= after@.take(e as int));
                            let ghost before = source_models(out@);
                            let src = make_source(
                                string_from_chars(name.as_slice()),
                                string_from_chars(name.as_slice()),
                                owned("audio"),
                            );
                            out.push(src);
                            proof {
                                assert(source_models(out@) =~= before + seq![
                                    model(name@, name@, "audio"@),
                                ]);
                                assert(before + seq![model(name@, name@, "audio"@)]
                                    + dshow_entries(all.skip(i + 1), true) =~= before + (seq![
                                    model(name@, name@, "audio"@),
                                ] + dshow_entries(all.skip(i + 1), true)));
                            }
                        },
                    }
                },
            }
        }
        i = i + 1;
    }
    proof {
        assert(all.skip(ls.len() as int) =~= Seq::<Seq<char>>::empty());
        assert(source_models(out@) + Seq::<SourceModel>::empty() =~= source_models(out@));
    }
    out
}

} // verus!

verus! {

// ---------------------------------------------------------------------------
// Windows on Windows, fixed choices elsewhere
// ---------------------------------------------------------------------------

/// The source for a top-level window with handle `hwnd` and title
/// `title`: id `hwnd:<handle>`, type `"window"`.
pub fn window_source(hwnd: isize, title: String) -> (s: RecordingSource)
    ensures
        source_model(s) == model(window_id(hwnd as int), title@, "window"@),
{
    let id = join2("hwnd:", signed_decimal_string(hwnd as i64).as_str());
    make_source(id, title, owned("window"))
}

pub open spec fn source_model(s: RecordingSource) -> SourceModel {
    crate::types::source_model(s)
}

/// Some source in `s` carries the name `n`.
pub open spec fn name_in(s: Seq<SourceModel>, n: Seq<char>) -> bool {
    exists|j: int| 0 <= j < s.len() && (#[trigger] s[j]).name == n
}

/// The sources in order, each name kept only at its first occurrence.
pub open spec fn dedupe_names(s: Seq<SourceModel>) -> Seq<SourceModel>
    decreases s.len(),
{
    if s.len() == 0 {
        Seq::<SourceModel>::empty()
    } else {
        let r = dedupe_names(s.drop_last());
        if name_in(s.drop_last(), s.last().name) {
            r
        } else {
            r.push(s.last())
        }
    }
}

/// Deduplicate by name, keeping the first occurrence.
pub fn dedupe_by_name(v: Vec<RecordingSource>) -> (r: Vec<RecordingSource>)
    ensures
        source_models(r@) == dedupe_names(source_models(v@)),
{
    let ghost all = source_models(v@);
    let mut out: Vec<RecordingSource> = Vec::new();
    let mut i: usize = 0;
    assert(all.take(0) =~= Seq::<SourceModel>::empty());
    assert(source_models(out@) =~= Seq::<SourceModel>::empty());
    while i < v.len()
        invariant
            i <= v.len(),
            all == source_models(v@),
            source_models(out@) == dedupe_names(all.take(i as int)),
        decreases v.len() - i,
    {
        let mut seen = false;
        let mut j: usize = 0;
        while j < i
            invariant
                j <= i < v.len(),
                all == source_models(v@),
                seen == exists|k: int| 0 <= k < j && all[k].name == all[i as int].name,
            decreases i - j,
        {
            if v[j].name == v[i].name {
                seen = true;
            }
            proof {
                if seen {
                    let k = if v[j as int].name@ == v[i as int].name@ {
                        j as int
                    } else {
                        choose|k: int| 0 <= k < j && all[k].name == all[i as int].name
                    };
                    assert(0 <= k < j + 1 && all[k].name == all[i as int].name);
                }
            }
            j = j + 1;
        }
        let ghost pre = all.take(i as int);
        let ghost cur = all.take(i + 1);
        proof {
            assert(cur.drop_last() =~= pre);
            assert(cur.last() == all[i as int]);
            if seen {
                let k = choose|k: int| 0 <= k < i && all[k].name == all[i as int].name;
                assert(pre[k] == all[k]);
                assert(name_in(pre, all[i as int].name));
            } else {
                assert(!name_in(pre, all[i as int].name)) by {
                    if name_in(pre, all[i as int].name) {
                        let k = choose|k: int| 0 <= k < pre.len() && (#[trigger] pre[k]).name == all[i as int].name;
                        assert(pre[k] == all[k]);
                    }
                }
            }
        }
        if !seen {
            let ghost before = out@;
            let src = make_source(
                v[i].id.clone(),
                v[i].name.clone(),
                v[i].source_type.clone(),
            );
            out.push(src);
            assert(source_models(out@) =~= source_models(before).push(all[i as int]));
        }
        i = i + 1;
    }
    assert(all.take(v.len() as int) =~= all);
    out
}

/// The windows worth offering, in enumeration order: those whose title is
/// not empty and not a known system window.
pub open spec fn offered_windows(found: Seq<(isize, String)>) -> Seq<SourceModel>
    decreases found.len(),
{
    if found.len() == 0 {
        Seq::<SourceModel>::empty()
    } else {
        let r = offered_windows(found.drop_last());
        let (h, t) = found.last();
        if keep_title_spec(t@) {
            r.push(model(window_id(h as int), t@, "window"@))
        } else {
            r
        }
    }
}

/// The windows to offer for capture, from the visible, non-minimised
/// top-level windows (handle and title) in enumeration order: system
/// windows and empty titles are skipped, and of windows sharing a title
/// only the first is kept.
pub fn windows_from_titles(found: Vec<(isize, String)>) -> (r: Vec<RecordingSource>)
    ensures
        source_models(r@) == dedupe_names(offered_windows(found@)),
{
    let mut kept: Vec<RecordingSource> = Vec::new();
    let mut i: usize = 0;
    assert(found@.take(0) =~= Seq::<(isize, String)>::empty());
    assert(source_models(kept@) =~= Seq::<SourceModel>::empty());
    while i < found.len()
        invariant
            i <= found.len(),
            source_models(kept@) == offered_windows(found@.take(i as int)),
        decreases found.len() - i,
    {
        proof {
            assert(found@.take(i + 1).drop_last() =~= found@.take(i as int));
            assert(found@.take(i + 1).last() == found@[i as int]);
        }
        let (h, t) = (found[i].0, &found[i].1);
        if keep_window_title(t.as_str()) {
            let ghost before = kept@;
            let src = window_source(h, t.clone());
            kept.push(src);
            assert(source_models(kept@) =~= source_models(before).push(
                model(window_id(h as int), t@, "window"@),
            ));
        }
        i = i + 1;
    }
    assert(found@.take(found.len() as int) =~= found@);
    dedupe_by_name(kept)
}

/// The whole desktop, offered first on Windows.
pub open spec fn desktop_model() -> SourceModel {
    model("desktop"@, "Desktop (Full Screen)"@, "screen"@)
}

/// The sources on Windows: the whole desktop, then the given windows.
pub fn windows_sources(windows: Vec<RecordingSource>) -> (r: Vec<RecordingSource>)
    ensures
        source_models(r@) == seq![desktop_model()] + source_models(windows@),
{
    let mut r: Vec<RecordingSource> = Vec::new();
    r.push(make_source(owned("desktop"), owned("Desktop (Full Screen)"), owned("screen")));
    let mut w = windows;
    let ghost ws = source_models(w@);
    let mut i: usize = 0;
    while i < w.len()
        invariant
            i <= w.len(),
            ws == source_models(w@),
            source_models(r@) == seq![desktop_model()] + ws.take(i as int),
        decreases w.len() - i,
    {
        let ghost before = r@;
        let s = make_source(w[i].id.clone(), w[i].name.clone(), w[i].source_type.clone());
        r.push(s);
        proof {
            assert(ws.take(i + 1) =~= ws.take(i as int).push(ws[i as int]));
            assert(source_models(r@) =~= source_models(before).push(ws[i as int]));
        }
        i = i + 1;
    }
    assert(ws.take(w.len() as int) =~= ws);
    r
}

/// The one source on Linux and other X11 systems: display `:0.0`.
pub fn x11_sources() -> (r: Vec<RecordingSource>)
    ensures
        source_models(r@) == seq![model(":0.0"@, "Display :0"@, "screen"@)],
{
    let mut r: Vec<RecordingSource> = Vec::new();
    r.push(make_source(owned(":0.0"), owned("Display :0"), owned("screen")));
    assert(source_models(r@) =~= seq![model(":0.0"@, "Display :0"@, "screen"@)]);
    r
}

/// The one audio input on Linux and other X11 systems: the default.
pub fn default_audio_devices() -> (r: Vec<RecordingSource>)
    ensures
        source_models(r@) == seq![model("default"@, "Default Audio"@, "audio"@)],
{
    let mut r: Vec<RecordingSource> = Vec::new();
    r.push(make_source(owned("default"), owned("Default Audio"), owned("audio")));
    assert(source_models(r@) =~= seq![model("default"@, "Default Audio"@, "audio"@)]);
    r
}

} // verus!

verus! {

// ---------------------------------------------------------------------------
// Laws
// ---------------------------------------------------------------------------

/// Deduplicating keeps exactly the names that were there.
pub proof fn law_dedupe_same_names(s: Seq<SourceModel>, n: Seq<char>)
    ensures
        name_in(dedupe_names(s), n) <==> name_in(s, n),
    decreases s.len(),
{
    if s.len() > 0 {
        let init = s.drop_last();
        law_dedupe_same_names(init, n);
        law_dedupe_same_names(init, s.last().name);
        let r = dedupe_names(init);
        if name_in(s, n) {
            let j = choose|j: int| 0 <= j < s.len() && (#[trigger] s[j]).name == n;
            if j < s.len() - 1 {
                assert(init[j] == s[j]);
            }
        }
        if name_in(init, n) {
            let j = choose|j: int| 0 <= j < init.len() && (#[trigger] init[j]).name == n;
            assert(s[j] == init[j]);
        }
        if !name_in(init, s.last().name) {
            let d = r.push(s.last());
            assert(d[r.len() as int] == s.last());
            if name_in(r, n) {
                let j = choose|j: int| 0 <= j < r.len() && (#[trigger] r[j]).name == n;
                assert(d[j] == r[j]);
            }
            if name_in(d, n) {
                let j = choose|j: int| 0 <= j < d.len() && (#[trigger] d[j]).name == n;
                if j < r.len() {
                    assert(d[j] == r[j]);
                }
            }
        }
    }
}

/// After deduplicating, no two sources share a name.
pub proof fn law_dedupe_distinct(s: Seq<SourceModel>)
    ensures
        forall|i: int, j: int|
            0 <= i < j < dedupe_names(s).len() ==> (#[trigger] dedupe_names(s)[i]).name
                != (#[trigger] dedupe_names(s)[j]).name,
    decreases s.len(),
{
    if s.len() > 0 {
        let init = s.drop_last();
        law_dedupe_distinct(init);
        law_dedupe_same_names(init, s.last().name);
        let r = dedupe_names(init);
        if !name_in(init, s.last().name) {
            let d = r.push(s.last());
            assert forall|i: int, j: int| 0 <= i < j < d.len() implies (#[trigger] d[i]).name
                != (#[trigger] d[j]).name by {
                assert(d[i] == r[i]);
                if j < r.len() {
                    assert(d[j] == r[j]);
                } else {
                    assert(d[j] == s.last());
                    if r[i].name == s.last().name {
                        assert(name_in(r, s.last().name));
                    }
                }
            }
        }
    }
}

pub open spec fn distinct_names(s: Seq<SourceModel>) -> bool {
    forall|i: int, j: int| 0 <= i < j < s.len() ==> (#[trigger] s[i]).name != (#[trigger] s[j]).name
}

proof fn lemma_dedupe_of_distinct(s: Seq<SourceModel>)
    requires
        distinct_names(s),
    ensures
        dedupe_names(s) == s,
    decreases s.len(),
{
    if s.len() > 0 {
        let init = s.drop_last();
        assert(distinct_names(init)) by {
            assert forall|i: int, j: int| 0 <= i < j < init.len() implies (#[trigger] init[i]).name
                != (#[trigger] init[j]).name by {
                assert(init[i] == s[i] && init[j] == s[j]);
            }
        }
        lemma_dedupe_of_distinct(init);
        assert(!name_in(init, s.last().name)) by {
            if name_in(init, s.last().name) {
                let j = choose|j: int| 0 <= j < init.len() && (#[trigger] init[j]).name == s.last().name;
                assert(init[j] == s[j]);
                assert(s[j].name == s[s.len() - 1].name);
            }
        }
        assert(init.push(s.last()) =~= s);
    }
}

/// Deduplicating twice is deduplicating once.
pub proof fn law_dedupe_idempotent(s: Seq<SourceModel>)
    ensures
        dedupe_names(dedupe_names(s)) == dedupe_names(s),
{
    law_dedupe_distinct(s);
    lemma_dedupe_of_distinct(dedupe_names(s));
}

/// A window offered for capture is found again when recording starts: the
/// id `window_source` gives a window is read back by
/// `window_capture_handle` as that window's handle.
pub proof fn law_window_id_round_trip(hwnd: isize)
    ensures
        crate::record::window_handle_spec(window_id(hwnd as int), false) == Ok::<
            Option<int>,
            Seq<char>,
        >(Some(hwnd as int)),
{
    reveal_strlit("hwnd:");
    let id = window_id(hwnd as int);
    assert(id.take(5) =~= "hwnd:"@);
    assert(id.skip(5) =~= signed_decimal(hwnd as int));
    crate::numeral::law_parse_signed_decimal(hwnd);
}

} // verus!

verus! {

/// Only visible windows that are not minimised are offered.
pub fn window_is_listed(visible: bool, minimized: bool) -> (b: bool)
    ensures
        b == (visible && !minimized),
{
    visible && !minimized
}

/// The name a DirectShow listing line gives: the text between its first
/// two double quotes, when it has two.
pub open spec fn quoted_name(l: Seq<char>) -> Option<Seq<char>> {
    match first_occurrence(l, "\""@) {
        Some(s) => match first_occurrence(l.skip(s + 1), "\""@) {
            Some(e) => Some(l.skip(s + 1).take(e)),
            None => None,
        },
        None => None,
    }
}

/// What one line of the audio section yields: nothing for a section
/// header, else one audio device for a line with a quoted name.
pub open spec fn line_device(l: Seq<char>) -> Seq<SourceModel> {
    if contains_seq(l, "DirectShow audio devices"@) {
        Seq::<SourceModel>::empty()
    } else {
        match quoted_name(l) {
            Some(n) => seq![model(n, n, "audio"@)],
            None => Seq::<SourceModel>::empty(),
        }
    }
}

/// The devices of lines read one by one, in order.
pub open spec fn line_devices(ls: Seq<Seq<char>>) -> Seq<SourceModel>
    decreases ls.len(),
{
    if ls.len() == 0 {
        Seq::<SourceModel>::empty()
    } else {
        line_device(ls[0]) + line_devices(ls.drop_first())
    }
}

/// Inside the audio section a line yields its own device, if it has one,
/// and the lines after it are read just as they would be without it:
/// what a device line says never ends the section.
pub proof fn law_audio_line_read_alone(l: Seq<char>, rest: Seq<Seq<char>>)
    ensures
        dshow_entries(seq![l] + rest, true) == line_device(l) + dshow_entries(rest, true),
{
    reveal(first_occurrence);
    let ls = seq![l] + rest;
    assert(ls[0] == l);
    assert(ls.drop_first() =~= rest);
    if contains_seq(l, "DirectShow audio devices"@) {
        assert(line_device(l) + dshow_entries(rest, true) =~= dshow_entries(rest, true));
    } else if contains_seq(l, "\""@) {
        let s = first_occurrence(l, "\""@)->0;
        let after = l.skip(s + 1);
        if first_occurrence(after, "\""@) is None {
            assert(line_device(l) + dshow_entries(rest, true) =~= dshow_entries(rest, true));
        }
    } else {
        assert(first_occurrence(l, "\""@) is None);
        assert(line_device(l) + dshow_entries(rest, true) =~= dshow_entries(rest, true));
    }
}

/// Once the audio section has begun, every line is read on its own: the
/// devices are those of the lines, one by one, in order.
pub proof fn law_audio_section_line_by_line(ls: Seq<Seq<char>>)
    ensures
        dshow_entries(ls, true) == line_devices(ls),
    decreases ls.len(),
{
    if ls.len() > 0 {
        let rest = ls.drop_first();
        law_audio_section_line_by_line(rest);
        law_audio_line_read_alone(ls[0], rest);
        assert(seq![ls[0]] + rest =~= ls);
    }
}

/// In a listing with a `DirectShow audio devices` header, what comes after
/// the header yields the devices of its lines one by one, whatever came
/// before; the lines before it yield what they yield alone.
pub proof fn law_devices_after_header(
    a: Seq<Seq<char>>,
    h: Seq<char>,
    b: Seq<Seq<char>>,
    in_audio: bool,
)
    requires
        contains_seq(h, "DirectShow audio devices"@),
    ensures
        dshow_entries(a + seq![h] + b, in_audio) == dshow_entries(a, in_audio) + line_devices(b),
    decreases a.len(),
{
    let ls = a + seq![h] + b;
    if a.len() == 0 {
        assert(ls =~= seq![h] + b);
        law_audio_section_line_by_line(b);
        assert(ls[0] == h);
        assert(ls.drop_first() =~= b);
        assert(dshow_entries(a, in_audio) + line_devices(b) =~= line_devices(b));
    } else {
        let a1 = a.drop_first();
        law_devices_after_header(a1, h, b, true);
        law_devices_after_header(a1, h, b, in_audio);
        assert(ls[0] == a[0]);
        assert(ls.drop_first() =~= a1 + seq![h] + b);
        let l = a[0];
        if contains_seq(l, "DirectShow audio devices"@) {
        } else if in_audio && contains_seq(l, "\""@) {
            let after = l.skip(first_occurrence(l, "\""@)->0 + 1);
            match first_occurrence(after, "\""@) {
                Some(e) => {
                    let m = seq![model(after.take(e), after.take(e), "audio"@)];
                    assert(m + (dshow_entries(a1, true) + line_devices(b)) =~= (m + dshow_entries(
                        a1,
                        true,
                    )) + line_devices(b));
                },
                None => {},
            }
        } else {
        }
    }
}

} // verus!
