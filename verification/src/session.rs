//! The recorder's session: whether ffmpeg is running, the file it writes,
//! and what stopping it reports.

use vstd::prelude::*;
use crate::gif::{ffmpeg_failure, ffmpeg_failure_spec};
use crate::text::{join2, owned};

verus! {

broadcast use vstd::string::group_string_axioms;

/// The state of a recording session, generic over the handle of the
/// running ffmpeg process.
pub struct RecorderSession<P> {
    process: Option<P>,
    output_path: Option<String>,
}

/// A session as plain values: the running process, if any, and the file the
/// latest recording was written to, if any.
pub struct SessionModel<P> {
    pub process: Option<P>,
    pub output_path: Option<Seq<char>>,
}

/// Starting is refused while a recording runs.
pub open spec fn start_check<P>(m: SessionModel<P>) -> Result<(), Seq<char>> {
    if m.process is Some {
        Err("Already recording"@)
    } else {
        Ok(())
    }
}

/// The session once ffmpeg was started writing to `path`.
pub open spec fn started<P>(m: SessionModel<P>, p: P, path: Seq<char>) -> SessionModel<P> {
    SessionModel { process: Some(p), output_path: Some(path) }
}

/// What stopping hands back: the running process, or the refusal.
pub open spec fn taken<P>(m: SessionModel<P>) -> Result<P, Seq<char>> {
    match m.process {
        Some(p) => Ok(p),
        None => Err("Not recording"@),
    }
}

/// The session after stopping: no process; the path stays.
pub open spec fn after_take<P>(m: SessionModel<P>) -> SessionModel<P> {
    SessionModel { process: None, output_path: m.output_path }
}

/// The latest recording's path, or the empty string.
pub open spec fn path_or_empty<P>(m: SessionModel<P>) -> Seq<char> {
    match m.output_path {
        Some(p) => p,
        None => Seq::<char>::empty(),
    }
}

impl<P> RecorderSession<P> {
    pub closed spec fn model(&self) -> SessionModel<P> {
        SessionModel {
            process: self.process,
            output_path: match self.output_path {
                Some(s) => Some(s@),
                None => None,
            },
        }
    }

    /// A session with nothing recorded yet.
    pub fn new() -> (s: Self)
        ensures
            s.model().process is None,
            s.model().output_path is None,
    {
        RecorderSession { process: None, output_path: None }
    }

    /// Whether ffmpeg is running.
    pub fn is_recording(&self) -> (b: bool)
        ensures
            b == self.model().process is Some,
    {
        self.process.is_some()
    }

    /// Refuses a start while a recording runs.
    pub fn ensure_idle(&self) -> (r: Result<(), String>)
        ensures
            match r {
                Ok(()) => start_check(self.model()) == Ok::<(), Seq<char>>(()),
                Err(m) => start_check(self.model()) == Err::<(), Seq<char>>(m@),
            },
    {
        if self.process.is_some() {
            Err(owned("Already recording"))
        } else {
            Ok(())
        }
    }

    /// Records that ffmpeg now runs as `process`, writing to `path`.
    pub fn record_started(&mut self, process: P, path: String)
        requires
            old(self).model().process is None,
        ensures
            final(self).model() == started(old(self).model(), process, path@),
    {
        self.process = Some(process);
        self.output_path = Some(path);
    }

    /// Takes the running process out for stopping; refused when nothing
    /// runs.
    pub fn take_process(&mut self) -> (r: Result<P, String>)
        ensures
            final(self).model() == after_take(old(self).model()),
            match r {
                Ok(p) => taken(old(self).model()) == Ok::<P, Seq<char>>(p),
                Err(m) => taken(old(self).model()) == Err::<P, Seq<char>>(m@),
            },
    {
        match self.process.take() {
            Some(p) => Ok(p),
            None => Err(owned("Not recording")),
        }
    }

    /// The latest recording's path (empty when there was none).
    pub fn output_path_or_default(&self) -> (r: String)
        ensures
            r@ == path_or_empty(self.model()),
    {
        match &self.output_path {
            Some(p) => p.clone(),
            None => String::new(),
        }
    }
}

/// How waiting for ffmpeg to exit after asking it to quit ended.
pub enum WaitOutcome {
    /// ffmpeg exited, successfully or not.
    Exited { success: bool },
    /// ffmpeg did not exit within the grace period.
    TimedOut,
    /// Waiting failed; the error's text.
    Failed { message: String },
}

/// ffmpeg is killed when it overran the grace period or waiting failed.
pub open spec fn needs_kill_spec(o: WaitOutcome) -> bool {
    o is TimedOut || o is Failed
}

pub fn needs_kill(outcome: &WaitOutcome) -> (b: bool)
    ensures
        b == needs_kill_spec(*outcome),
{
    match outcome {
        WaitOutcome::Exited { .. } => false,
        WaitOutcome::TimedOut => true,
        WaitOutcome::Failed { .. } => true,
    }
}

/// What `stop_recording` answers: the recording's path, unless ffmpeg
/// failed (its tailed stderr) or waiting for it failed.
pub open spec fn stop_result_spec(o: WaitOutcome, stderr: Seq<char>, path: Seq<char>) -> Result<
    Seq<char>,
    Seq<char>,
> {
    match o {
        WaitOutcome::Exited { success } => if success {
            Ok(path)
        } else {
            Err(ffmpeg_failure_spec(stderr))
        },
        WaitOutcome::TimedOut => Ok(path),
        WaitOutcome::Failed { message } => Err("Error waiting for ffmpeg: "@ + message@),
    }
}

/// The answer to a stop request once ffmpeg has been asked to quit and
/// waited for; `stderr` is what ffmpeg wrote (read only when it failed)
/// and `output_path` the session's latest path.
pub fn stop_result(outcome: &WaitOutcome, stderr: &str, output_path: String) -> (r: Result<
    String,
    String,
>)
    ensures
        match r {
            Ok(p) => stop_result_spec(*outcome, stderr@, output_path@) == Ok::<Seq<char>, Seq<char>>(p@),
            Err(m) => stop_result_spec(*outcome, stderr@, output_path@) == Err::<Seq<char>, Seq<char>>(m@),
        },
{
    match outcome {
        WaitOutcome::Exited { success } => {
            if *success {
                Ok(output_path)
            } else {
                Err(ffmpeg_failure(stderr))
            }
        },
        WaitOutcome::TimedOut => Ok(output_path),
        WaitOutcome::Failed { message } => Err(join2("Error waiting for ffmpeg: ", message.as_str())),
    }
}

// ---------------------------------------------------------------------------
// Laws
// ---------------------------------------------------------------------------

/// Stopping a recording hands back the process that was started and
/// reports the path it was started with; afterwards nothing runs.
pub proof fn law_stop_returns_started<P>(m: SessionModel<P>, p: P, path: Seq<char>)
    requires
        m.process is None,
    ensures
        start_check(m) == Ok::<(), Seq<char>>(()),
        taken(started(m, p, path)) == Ok::<P, Seq<char>>(p),
        path_or_empty(after_take(started(m, p, path))) == path,
        after_take(started(m, p, path)).process is None,
{
}

/// While a recording runs, another start is refused.
pub proof fn law_no_second_start<P>(m: SessionModel<P>, p: P, path: Seq<char>)
    ensures
        start_check(started(m, p, path)) == Err::<(), Seq<char>>("Already recording"@),
{
}

/// Stopping when nothing runs is refused, and leaves the session as it
/// was; in particular a second stop after a stop is refused.
pub proof fn law_stop_when_idle<P>(m: SessionModel<P>)
    ensures
        m.process is None ==> taken(m) == Err::<P, Seq<char>>("Not recording"@) && after_take(m)
            == m,
        taken(after_take(m)) == Err::<P, Seq<char>>("Not recording"@),
{
}

/// After a stop, a new recording may start.
pub proof fn law_start_after_stop<P>(m: SessionModel<P>)
    ensures
        start_check(after_take(m)) == Ok::<(), Seq<char>>(()),
{
}

} // verus!

verus! {

/// What waiting for ffmpeg does at one poll.
pub enum WaitStep {
    /// ffmpeg has exited.
    Exited { success: bool },
    /// Still running and within the grace period: sleep and poll again.
    Poll,
    /// Still running after the grace period.
    TimedOut,
}

/// One poll of the wait for ffmpeg: `exited` is what polling the process
/// reported (its success, or `None` while it runs), `elapsed_ns` the time
/// since the wait began and `limit_ns` the grace period.
pub fn wait_step(exited: Option<bool>, elapsed_ns: u128, limit_ns: u128) -> (s: WaitStep)
    ensures
        match exited {
            Some(ok) => s == (WaitStep::Exited { success: ok }),
            None => if elapsed_ns >= limit_ns {
                s is TimedOut
            } else {
                s is Poll
            },
        },
{
    match exited {
        Some(ok) => WaitStep::Exited { success: ok },
        None => if elapsed_ns >= limit_ns {
            WaitStep::TimedOut
        } else {
            WaitStep::Poll
        },
    }
}

} // verus!
