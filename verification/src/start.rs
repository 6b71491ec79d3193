//! Starting a recording, step by step: the session must be idle, the
//! output directory writable, then the output path is made, the window (if
//! any) looked up, and ffmpeg started with the arguments for the platform.
//! Each step's outcome decides the next; the caller performs the steps.

use vstd::prelude::*;
use crate::record::{build_record_args, record_args_spec, window_capture_handle, window_handle_spec};
use crate::session::{start_check, RecorderSession};
use crate::text::{join2, owned, string_views};
use crate::types::{RecordingConfig, TargetOs};

verus! {

broadcast use vstd::string::group_string_axioms;

/// What the caller is to do next.
pub enum StartAction {
    /// Check that `dir` exists and can be written.
    CheckOutputDir { dir: String },
    /// Hide the region outline, locate ffmpeg and make the output path in
    /// `dir`.
    PrepareOutput { dir: String },
    /// Look up the rectangle of the window with handle `hwnd`.
    LookUpWindow { hwnd: isize },
    /// Start ffmpeg with `args`.
    Spawn { args: Vec<String> },
    /// ffmpeg runs and writes `output_path`: record it in the session.
    Started { output_path: String },
    /// Give up with `message`.
    Refuse { message: String },
}

/// How the last action went.
pub enum StartEvent {
    Checked(Result<(), String>),
    OutputReady(String),
    WindowRect(Result<(i32, i32, i32, i32), String>),
    Spawned,
    /// Starting ffmpeg failed; the error's text.
    SpawnFailed(String),
}

pub enum ActionModel {
    CheckOutputDir(Seq<char>),
    PrepareOutput(Seq<char>),
    LookUpWindow(int),
    Spawn(Seq<Seq<char>>),
    Started(Seq<char>),
    Refuse(Seq<char>),
}

pub enum EventModel {
    Checked(Result<(), Seq<char>>),
    OutputReady(Seq<char>),
    WindowRect(Result<(i32, i32, i32, i32), Seq<char>>),
    Spawned,
    SpawnFailed(Seq<char>),
}

pub open spec fn action_view(a: StartAction) -> ActionModel {
    match a {
        StartAction::CheckOutputDir { dir } => ActionModel::CheckOutputDir(dir@),
        StartAction::PrepareOutput { dir } => ActionModel::PrepareOutput(dir@),
        StartAction::LookUpWindow { hwnd } => ActionModel::LookUpWindow(hwnd as int),
        StartAction::Spawn { args } => ActionModel::Spawn(string_views(args@)),
        StartAction::Started { output_path } => ActionModel::Started(output_path@),
        StartAction::Refuse { message } => ActionModel::Refuse(message@),
    }
}

pub open spec fn event_view(e: StartEvent) -> EventModel {
    match e {
        StartEvent::Checked(r) => EventModel::Checked(
            match r {
                Ok(()) => Ok(()),
                Err(m) => Err(m@),
            },
        ),
        StartEvent::OutputReady(p) => EventModel::OutputReady(p@),
        StartEvent::WindowRect(r) => EventModel::WindowRect(
            match r {
                Ok(t) => Ok(t),
                Err(m) => Err(m@),
            },
        ),
        StartEvent::Spawned => EventModel::Spawned,
        StartEvent::SpawnFailed(m) => EventModel::SpawnFailed(m@),
    }
}

/// Which outcome the flow waits for.
pub enum StartStage {
    AwaitCheck,
    AwaitOutput,
    AwaitWindow { path: Seq<char> },
    AwaitSpawn { path: Seq<char> },
    Over,
}

/// The event fits the stage: it reports on the action just handed out.
pub open spec fn event_fits(stage: StartStage, e: EventModel) -> bool {
    match stage {
        StartStage::AwaitCheck => e is Checked,
        StartStage::AwaitOutput => e is OutputReady,
        StartStage::AwaitWindow { .. } => e is WindowRect,
        StartStage::AwaitSpawn { .. } => e is Spawned || e is SpawnFailed,
        StartStage::Over => false,
    }
}

/// The first step: refused while recording, else check the output
/// directory.
pub open spec fn start_begin_spec(idle: Result<(), Seq<char>>, config: RecordingConfig) -> (
    StartStage,
    ActionModel,
) {
    match idle {
        Err(m) => (StartStage::Over, ActionModel::Refuse(m)),
        Ok(()) => (StartStage::AwaitCheck, ActionModel::CheckOutputDir(config.output_dir@)),
    }
}

/// ffmpeg is started with the arguments for the platform.
pub open spec fn spawn_with(
    os: TargetOs,
    config: RecordingConfig,
    path: Seq<char>,
    rect: Option<(i32, i32, i32, i32)>,
) -> (StartStage, ActionModel) {
    (StartStage::AwaitSpawn { path }, ActionModel::Spawn(record_args_spec(os, config, path, rect)))
}

/// The next step given how the last one went.
pub open spec fn start_step_spec(
    os: TargetOs,
    config: RecordingConfig,
    stage: StartStage,
    e: EventModel,
) -> (StartStage, ActionModel) {
    match stage {
        StartStage::AwaitCheck => match e {
            EventModel::Checked(Ok(())) => (
                StartStage::AwaitOutput,
                ActionModel::PrepareOutput(config.output_dir@),
            ),
            EventModel::Checked(Err(m)) => (StartStage::Over, ActionModel::Refuse(m)),
            _ => (StartStage::Over, ActionModel::Refuse(Seq::<char>::empty())),
        },
        StartStage::AwaitOutput => match e {
            EventModel::OutputReady(p) => if os == TargetOs::Windows {
                match window_handle_spec(config.source_id@, config.region is Some) {
                    Err(m) => (StartStage::Over, ActionModel::Refuse(m)),
                    Ok(Some(h)) => (StartStage::AwaitWindow { path: p }, ActionModel::LookUpWindow(h)),
                    Ok(None) => spawn_with(os, config, p, None),
                }
            } else {
                spawn_with(os, config, p, None)
            },
            _ => (StartStage::Over, ActionModel::Refuse(Seq::<char>::empty())),
        },
        StartStage::AwaitWindow { path } => match e {
            EventModel::WindowRect(Ok(r)) => spawn_with(os, config, path, Some(r)),
            EventModel::WindowRect(Err(m)) => (StartStage::Over, ActionModel::Refuse(m)),
            _ => (StartStage::Over, ActionModel::Refuse(Seq::<char>::empty())),
        },
        StartStage::AwaitSpawn { path } => match e {
            EventModel::Spawned => (StartStage::Over, ActionModel::Started(path)),
            EventModel::SpawnFailed(m) => (
                StartStage::Over,
                ActionModel::Refuse("Failed to start ffmpeg: "@ + m),
            ),
            _ => (StartStage::Over, ActionModel::Refuse(Seq::<char>::empty())),
        },
        StartStage::Over => (StartStage::Over, ActionModel::Refuse(Seq::<char>::empty())),
    }
}

enum Stage {
    AwaitCheck,
    AwaitOutput,
    AwaitWindow(String),
    AwaitSpawn(String),
    Over,
}

/// A recording being started.
pub struct StartFlow {
    os: TargetOs,
    config: RecordingConfig,
    stage: Stage,
}

impl StartFlow {
    pub closed spec fn stage(&self) -> StartStage {
        match self.stage {
            Stage::AwaitCheck => StartStage::AwaitCheck,
            Stage::AwaitOutput => StartStage::AwaitOutput,
            Stage::AwaitWindow(p) => StartStage::AwaitWindow { path: p@ },
            Stage::AwaitSpawn(p) => StartStage::AwaitSpawn { path: p@ },
            Stage::Over => StartStage::Over,
        }
    }

    pub closed spec fn os(&self) -> TargetOs {
        self.os
    }

    pub closed spec fn config(&self) -> RecordingConfig {
        self.config
    }

    /// Begins starting `config` on `os` for `session`.
    pub fn begin<P>(session: &RecorderSession<P>, os: TargetOs, config: RecordingConfig) -> (r: (
        Self,
        StartAction,
    ))
        ensures
            r.0.os() == os,
            r.0.config() == config,
            (r.0.stage(), action_view(r.1)) == start_begin_spec(start_check(session.model()), config),
    {
        match session.ensure_idle() {
            Err(m) => (StartFlow { os, config, stage: Stage::Over }, StartAction::Refuse { message: m }),
            Ok(()) => {
                let dir = config.output_dir.clone();
                (StartFlow { os, config, stage: Stage::AwaitCheck }, StartAction::CheckOutputDir { dir })
            },
        }
    }

    /// Takes how the last action went and gives the next one.
    pub fn step(&mut self, event: StartEvent) -> (a: StartAction)
        requires
            event_fits(old(self).stage(), event_view(event)),
        ensures
            final(self).os() == old(self).os(),
            final(self).config() == old(self).config(),
            (final(self).stage(), action_view(a)) == start_step_spec(
                old(self).os(),
                old(self).config(),
                old(self).stage(),
                event_view(event),
            ),
    {
        let mut cur = Stage::Over;
        std::mem::swap(&mut cur, &mut self.stage);
        match cur {
            Stage::AwaitCheck => match event {
                StartEvent::Checked(Ok(())) => {
                    self.stage = Stage::AwaitOutput;
                    StartAction::PrepareOutput { dir: self.config.output_dir.clone() }
                },
                StartEvent::Checked(Err(m)) => StartAction::Refuse { message: m },
                _ => StartAction::Refuse { message: String::new() },
            },
            Stage::AwaitOutput => match event {
                StartEvent::OutputReady(p) => {
                    if self.os == TargetOs::Windows {
                        match window_capture_handle(&self.config) {
                            Err(m) => StartAction::Refuse { message: m },
                            Ok(Some(h)) => {
                                self.stage = Stage::AwaitWindow(p);
                                StartAction::LookUpWindow { hwnd: h }
                            },
                            Ok(None) => {
                                let args = build_record_args(self.os, &self.config, p.as_str(), None);
                                self.stage = Stage::AwaitSpawn(p);
                                StartAction::Spawn { args }
                            },
                        }
                    } else {
                        let args = build_record_args(self.os, &self.config, p.as_str(), None);
                        self.stage = Stage::AwaitSpawn(p);
                        StartAction::Spawn { args }
                    }
                },
                _ => StartAction::Refuse { message: String::new() },
            },
            Stage::AwaitWindow(p) => match event {
                StartEvent::WindowRect(Ok(r)) => {
                    let args = build_record_args(self.os, &self.config, p.as_str(), Some(r));
                    self.stage = Stage::AwaitSpawn(p);
                    StartAction::Spawn { args }
                },
                StartEvent::WindowRect(Err(m)) => StartAction::Refuse { message: m },
                _ => StartAction::Refuse { message: String::new() },
            },
            Stage::AwaitSpawn(p) => match event {
                StartEvent::Spawned => StartAction::Started { output_path: p },
                StartEvent::SpawnFailed(m) => StartAction::Refuse {
                    message: join2("Failed to start ffmpeg: ", m.as_str()),
                },
                _ => StartAction::Refuse { message: String::new() },
            },
            Stage::Over => StartAction::Refuse { message: String::new() },
        }
    }
}

// ---------------------------------------------------------------------------
// Laws
// ---------------------------------------------------------------------------

/// Nothing is checked or started while a recording runs.
pub proof fn law_start_refused_while_recording(m: Seq<char>, config: RecordingConfig)
    ensures
        start_begin_spec(Err(m), config) == (StartStage::Over, ActionModel::Refuse(m)),
{
}

/// ffmpeg is only ever started after the output directory passed its
/// check and the output path was made: a `Spawn` comes only out of the
/// stages that follow those steps, with the arguments for the platform
/// and that path.
pub proof fn law_spawn_follows_checks(
    os: TargetOs,
    config: RecordingConfig,
    stage: StartStage,
    e: EventModel,
    args: Seq<Seq<char>>,
)
    requires
        start_step_spec(os, config, stage, e).1 == ActionModel::Spawn(args),
    ensures
        stage is AwaitOutput || stage is AwaitWindow,
        stage is AwaitOutput ==> e is OutputReady && args == record_args_spec(
            os,
            config,
            e->OutputReady_0,
            None,
        ),
        stage is AwaitWindow ==> e is WindowRect && e->WindowRect_0 is Ok && args
            == record_args_spec(os, config, stage->AwaitWindow_path, Some(e->WindowRect_0->Ok_0)),
{
}

/// A failed directory check ends the attempt with its message, before
/// anything else happens.
pub proof fn law_failed_check_refuses(
    os: TargetOs,
    config: RecordingConfig,
    m: Seq<char>,
)
    ensures
        start_step_spec(os, config, StartStage::AwaitCheck, EventModel::Checked(Err(m))) == (
            StartStage::Over,
            ActionModel::Refuse(m),
        ),
{
}

/// On Windows a window source with a region is refused once the output
/// path is made, before any window is looked up or ffmpeg started.
pub proof fn law_window_with_region_refused(config: RecordingConfig, p: Seq<char>)
    requires
        config.source_id@.len() >= 5,
        config.source_id@.take(5) == "hwnd:"@,
        config.region is Some,
    ensures
        start_step_spec(TargetOs::Windows, config, StartStage::AwaitOutput, EventModel::OutputReady(p))
            == (
            StartStage::Over,
            ActionModel::Refuse("Region capture is not supported with a window source"@),
        ),
{
}

/// The path reported when ffmpeg started is the one it was started with.
pub proof fn law_started_reports_path(os: TargetOs, config: RecordingConfig, p: Seq<char>)
    ensures
        start_step_spec(os, config, StartStage::AwaitSpawn { path: p }, EventModel::Spawned) == (
            StartStage::Over,
            ActionModel::Started(p),
        ),
{
}

/// On Windows, once the output path is made, a source that is not a
/// window (its id does not start with `hwnd:`) is recorded at once with
/// the arguments for that path and no window rectangle, with or without a
/// region: a region of the desktop is captured, not refused.
pub proof fn law_desktop_source_spawns(config: RecordingConfig, p: Seq<char>)
    requires
        !(config.source_id@.len() >= 5 && config.source_id@.take(5) == "hwnd:"@),
    ensures
        start_step_spec(TargetOs::Windows, config, StartStage::AwaitOutput, EventModel::OutputReady(p))
            == (
            StartStage::AwaitSpawn { path: p },
            ActionModel::Spawn(record_args_spec(TargetOs::Windows, config, p, None)),
        ),
{
}

/// Once the output path is made, an attempt is refused only on Windows and
/// only for a window source (an id that starts with `hwnd:`).
pub proof fn law_refused_after_output_only_for_window(
    os: TargetOs,
    config: RecordingConfig,
    p: Seq<char>,
)
    requires
        start_step_spec(os, config, StartStage::AwaitOutput, EventModel::OutputReady(p)).1 is Refuse,
    ensures
        os == TargetOs::Windows,
        config.source_id@.len() >= 5,
        config.source_id@.take(5) == "hwnd:"@,
{
}

} // verus!
