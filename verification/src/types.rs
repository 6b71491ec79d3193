//! The data the recorder works with.

use vstd::prelude::*;

verus! {

/// Something that can be recorded: a screen, a window, or an audio input.
#[derive(Debug, Clone)]
pub struct RecordingSource {
    pub id: String,
    pub name: String,
    /// `"screen"`, `"window"` or `"audio"`.
    pub source_type: String,
}

/// A capture rectangle in screen pixels.
#[derive(Debug, Clone, Copy)]
pub struct Region {
    pub x: i32,
    pub y: i32,
    pub width: u32,
    pub height: u32,
}

/// What the user asked to record.
#[derive(Debug)]
pub struct RecordingConfig {
    pub source_id: String,
    pub output_dir: String,
    pub fps: u32,
    pub capture_audio: bool,
    pub audio_device: Option<String>,
    pub region: Option<Region>,
}

/// The operating system the recorder runs on; it decides the capture
/// device and how ffmpeg's device listings look.
#[derive(Debug, Clone, Copy, PartialEq, Eq, Structural)]
pub enum TargetOs {
    MacOs,
    Windows,
    /// Linux and other X11 systems.
    Other,
}

/// A recording source as plain character sequences.
pub struct SourceModel {
    pub id: Seq<char>,
    pub name: Seq<char>,
    pub source_type: Seq<char>,
}

pub open spec fn source_model(s: RecordingSource) -> SourceModel {
    SourceModel { id: s.id@, name: s.name@, source_type: s.source_type@ }
}

pub open spec fn source_models(v: Seq<RecordingSource>) -> Seq<SourceModel> {
    v.map_values(|s: RecordingSource| source_model(s))
}

/// Builds a recording source from its three texts.
pub fn make_source(id: String, name: String, source_type: String) -> (r: RecordingSource)
    ensures
        r.id@ == id@,
        r.name@ == name@,
        r.source_type@ == source_type@,
{
    RecordingSource { id, name, source_type }
}

} // verus!
