//! Argument building, output parsing and session bookkeeping for a
//! screen recorder that drives ffmpeg.

pub mod text;
pub mod paths;
pub mod numeral;
pub mod types;
pub mod stderr;
pub mod gif;
pub mod record;
pub mod start;
pub mod sources;
pub mod session;
pub mod overlay;
pub mod locate;

pub use gif::build_gif_args;
pub use stderr::tail_stderr;
pub use types::{RecordingConfig, RecordingSource, Region, TargetOs};
