//! The recording session: from spawning the capture tool to a finished or
//! abandoned recording.
//!
//! The session decides; its caller acts. Each event that the caller observes
//! goes to `RecordingSession::handle`, which moves the session on and answers
//! with the next action to perform.
use vstd::prelude::*;
use crate::error::{Error, IoStep};

verus! {

/// A step that failed and ended the session.
#[derive(Clone, Copy, Debug, PartialEq, Eq, Structural)]
pub enum Failure {
    Spawn,
    Kill,
    StdinUnavailable,
    Write,
    Flush,
    Wait,
}

/// Where a session stands.
#[derive(Clone, Copy, Debug, PartialEq, Eq, Structural)]
pub enum Phase {
    /// Nothing has happened yet.
    Idle,
    /// The stale file is being removed and the capture tool started.
    Spawning,
    /// The capture tool records; a key press or a cancellation ends it.
    Recording,
    /// Cancelled: the capture tool is being killed.
    Killing,
    /// Stopping: the quit command is being written.
    WritingQuit,
    /// Stopping: the capture tool's input is being flushed.
    Flushing,
    /// Stopping: waiting for the capture tool to exit.
    AwaitingExit,
    /// The recording is complete and closed.
    Finalized,
    /// The recording was abandoned; nothing was produced.
    Cancelled,
    /// A step failed.
    Failed(Failure),
}

/// What the caller observed.
#[derive(Clone, Copy, Debug, PartialEq, Eq, Structural)]
pub enum Event {
    /// The caller starts the session.
    Begin,
    /// The capture tool started.
    Spawned,
    /// The capture tool could not be started.
    SpawnFailed,
    /// A byte arrived on the program's own input.
    KeyPressed,
    /// The user asked to cancel.
    CancelFired,
    /// The capture tool was killed.
    Killed,
    /// Killing the capture tool failed.
    KillFailed,
    /// The capture tool offers no input stream.
    StdinUnavailable,
    /// The quit command was written.
    QuitWritten,
    /// Writing the quit command failed.
    WriteFailed,
    /// The capture tool's input was flushed.
    Flushed,
    /// Flushing failed.
    FlushFailed,
    /// The capture tool exited.
    Exited,
    /// Waiting for the capture tool failed.
    WaitFailed,
}

/// What the caller is to do next.
#[derive(Clone, Copy, Debug, PartialEq, Eq, Structural)]
pub enum Action {
    /// Remove any file at the output path (ignoring failure), then start the
    /// capture tool on the device, writing to that path.
    RemoveStaleFileAndSpawn,
    /// Wait for a key press or a cancellation, whichever comes first.
    AwaitTrigger,
    /// Kill the capture tool.
    Kill,
    /// Write the single quit byte `q` to the capture tool's input.
    WriteQuitByte,
    /// Flush the capture tool's input.
    Flush,
    /// Wait for the capture tool to exit.
    AwaitExit,
    /// The session is over.
    Halt,
    /// The event does not apply here; nothing changes.
    Ignore,
}

/// How a session that is over ended.
#[derive(Clone, Copy, Debug, PartialEq, Eq, Structural)]
pub enum Ending {
    /// The recording is complete and can be uploaded.
    Recorded,
    /// The user cancelled: no output, and no error.
    Cancelled,
}

/// The phase after `event` in `phase`, and the action it calls for.
pub open spec fn transition(phase: Phase, event: Event) -> (Phase, Action) {
    match (phase, event) {
        (Phase::Idle, Event::Begin) => (Phase::Spawning, Action::RemoveStaleFileAndSpawn),
        (Phase::Spawning, Event::Spawned) => (Phase::Recording, Action::AwaitTrigger),
        (Phase::Spawning, Event::SpawnFailed) => (Phase::Failed(Failure::Spawn), Action::Halt),
        (Phase::Recording, Event::CancelFired) => (Phase::Killing, Action::Kill),
        (Phase::Recording, Event::KeyPressed) => (Phase::WritingQuit, Action::WriteQuitByte),
        (Phase::Killing, Event::Killed) => (Phase::Cancelled, Action::Halt),
        (Phase::Killing, Event::KillFailed) => (Phase::Failed(Failure::Kill), Action::Halt),
        (Phase::WritingQuit, Event::QuitWritten) => (Phase::Flushing, Action::Flush),
        (Phase::WritingQuit, Event::StdinUnavailable) => (
            Phase::Failed(Failure::StdinUnavailable),
            Action::Halt,
        ),
        (Phase::WritingQuit, Event::WriteFailed) => (Phase::Failed(Failure::Write), Action::Halt),
        (Phase::Flushing, Event::Flushed) => (Phase::AwaitingExit, Action::AwaitExit),
        (Phase::Flushing, Event::FlushFailed) => (Phase::Failed(Failure::Flush), Action::Halt),
        (Phase::AwaitingExit, Event::Exited) => (Phase::Finalized, Action::Halt),
        (Phase::AwaitingExit, Event::WaitFailed) => (Phase::Failed(Failure::Wait), Action::Halt),
        _ => (phase, Action::Ignore),
    }
}

/// The phase reached from `phase` through `events`, and the actions called
/// for on the way.
pub open spec fn run(phase: Phase, events: Seq<Event>) -> (Phase, Seq<Action>)
    decreases events.len(),
{
    if events.len() == 0 {
        (phase, seq![])
    } else {
        let (next, action) = transition(phase, events[0]);
        let (last, rest) = run(next, events.drop_first());
        (last, seq![action] + rest)
    }
}

/// The actions that stop the capture tool.
pub open spec fn is_stop_command(a: Action) -> bool {
    a == Action::Kill || a == Action::WriteQuitByte
}

/// The phases after a stop command was given.
pub open spec fn is_stopping_or_after(p: Phase) -> bool {
    match p {
        Phase::Killing | Phase::WritingQuit | Phase::Flushing | Phase::AwaitingExit
        | Phase::Finalized | Phase::Cancelled => true,
        Phase::Failed(f) => f != Failure::Spawn,
        _ => false,
    }
}

/// The error a failure is reported as.
pub open spec fn failure_error(f: Failure) -> Error {
    match f {
        Failure::Spawn => Error::SpawnFailed,
        Failure::Kill => Error::IoFailed(IoStep::Kill),
        Failure::StdinUnavailable => Error::IoFailed(IoStep::StdinUnavailable),
        Failure::Write => Error::IoFailed(IoStep::WriteQuit),
        Failure::Flush => Error::IoFailed(IoStep::Flush),
        Failure::Wait => Error::IoFailed(IoStep::Wait),
    }
}

/// The capture tool.
pub fn capture_tool() -> (r: &'static str)
    ensures
        r@ == "ffmpeg"@,
{
    "ffmpeg"
}

/// One recording attempt from a device into a file.
pub struct RecordingSession {
    device: String,
    output_path: String,
    phase: Phase,
}

impl RecordingSession {
    pub closed spec fn spec_device(&self) -> Seq<char> {
        self.device@
    }

    pub closed spec fn spec_output_path(&self) -> Seq<char> {
        self.output_path@
    }

    pub closed spec fn spec_phase(&self) -> Phase {
        self.phase
    }

    /// A session that has not started, to record from `device_name` into
    /// `output_path`.
    pub fn start(device_name: String, output_path: String) -> (r: RecordingSession)
        ensures
            r.spec_device() == device_name@,
            r.spec_output_path() == output_path@,
            r.spec_phase() == Phase::Idle,
    {
        RecordingSession { device: device_name, output_path, phase: Phase::Idle }
    }

    pub fn device(&self) -> (r: &String)
        ensures
            r@ == self.spec_device(),
    {
        &self.device
    }

    pub fn output_path(&self) -> (r: &String)
        ensures
            r@ == self.spec_output_path(),
    {
        &self.output_path
    }

    pub fn phase(&self) -> (r: Phase)
        ensures
            r == self.spec_phase(),
    {
        self.phase
    }

    /// The capture tool's arguments for this recording: overwrite the output,
    /// read the DirectShow input `audio=<device>`, write to the output path.
    pub fn capture_args(&self) -> (r: Vec<String>)
        ensures
            r@.map_values(|a: String| a@) == seq![
                "-y"@,
                "-f"@,
                "dshow"@,
                "-i"@,
                "audio="@ + self.spec_device(),
                self.spec_output_path(),
            ],
    {
        let mut args: Vec<String> = Vec::new();
        args.push(String::from_str("-y"));
        args.push(String::from_str("-f"));
        args.push(String::from_str("dshow"));
        args.push(String::from_str("-i"));
        args.push(String::from_str("audio=").concat(self.device.as_str()));
        args.push(self.output_path.clone());
        assert(args@.map_values(|a: String| a@) =~= seq![
            "-y"@,
            "-f"@,
            "dshow"@,
            "-i"@,
            "audio="@ + self.spec_device(),
            self.spec_output_path(),
        ]);
        args
    }

    /// Moves the session on by `event` and returns the action to perform.
    pub fn handle(&mut self, event: Event) -> (r: Action)
        ensures
            (final(self).spec_phase(), r) == transition(old(self).spec_phase(), event),
            final(self).spec_device() == old(self).spec_device(),
            final(self).spec_output_path() == old(self).spec_output_path(),
    {
        let (next, action) = match (self.phase, event) {
            (Phase::Idle, Event::Begin) => (Phase::Spawning, Action::RemoveStaleFileAndSpawn),
            (Phase::Spawning, Event::Spawned) => (Phase::Recording, Action::AwaitTrigger),
            (Phase::Spawning, Event::SpawnFailed) => (Phase::Failed(Failure::Spawn), Action::Halt),
            (Phase::Recording, Event::CancelFired) => (Phase::Killing, Action::Kill),
            (Phase::Recording, Event::KeyPressed) => (Phase::WritingQuit, Action::WriteQuitByte),
            (Phase::Killing, Event::Killed) => (Phase::Cancelled, Action::Halt),
            (Phase::Killing, Event::KillFailed) => (Phase::Failed(Failure::Kill), Action::Halt),
            (Phase::WritingQuit, Event::QuitWritten) => (Phase::Flushing, Action::Flush),
            (Phase::WritingQuit, Event::StdinUnavailable) => (
                Phase::Failed(Failure::StdinUnavailable),
                Action::Halt,
            ),
            (Phase::WritingQuit, Event::WriteFailed) => (
                Phase::Failed(Failure::Write),
                Action::Halt,
            ),
            (Phase::Flushing, Event::Flushed) => (Phase::AwaitingExit, Action::AwaitExit),
            (Phase::Flushing, Event::FlushFailed) => (
                Phase::Failed(Failure::Flush),
                Action::Halt,
            ),
            (Phase::AwaitingExit, Event::Exited) => (Phase::Finalized, Action::Halt),
            (Phase::AwaitingExit, Event::WaitFailed) => (
                Phase::Failed(Failure::Wait),
                Action::Halt,
            ),
            (phase, _) => (phase, Action::Ignore),
        };
        self.phase = next;
        action
    }

    /// How the session ended: `None` while it is still going; a recording to
    /// upload, a cancellation, or the error of the step that failed.
    pub fn ending(&self) -> (r: Option<Result<Ending, Error>>)
        ensures
            match self.spec_phase() {
                Phase::Finalized => r == Some(Ok::<Ending, Error>(Ending::Recorded)),
                Phase::Cancelled => r == Some(Ok::<Ending, Error>(Ending::Cancelled)),
                Phase::Failed(f) => r == Some(Err::<Ending, Error>(failure_error(f))),
                _ => r is None,
            },
    {
        match self.phase {
            Phase::Finalized => Some(Ok(Ending::Recorded)),
            Phase::Cancelled => Some(Ok(Ending::Cancelled)),
            Phase::Failed(f) => Some(
                Err(
                    match f {
                        Failure::Spawn => Error::SpawnFailed,
                        Failure::Kill => Error::IoFailed(IoStep::Kill),
                        Failure::StdinUnavailable => Error::IoFailed(IoStep::StdinUnavailable),
                        Failure::Write => Error::IoFailed(IoStep::WriteQuit),
                        Failure::Flush => Error::IoFailed(IoStep::Flush),
                        Failure::Wait => Error::IoFailed(IoStep::Wait),
                    },
                ),
            ),
            _ => None,
        }
    }
}

/// Once a stop command was given, no event leads to another.
proof fn lemma_no_stop_command_after_stopping(phase: Phase, events: Seq<Event>)
    requires
        is_stopping_or_after(phase),
    ensures
        forall|i: int|
            0 <= i < run(phase, events).1.len() ==> !is_stop_command(
                #[trigger] run(phase, events).1[i],
            ),
    decreases events.len(),
{
    if events.len() > 0 {
        let (next, action) = transition(phase, events[0]);
        lemma_no_stop_command_after_stopping(next, events.drop_first());
        let rest = run(next, events.drop_first()).1;
        assert forall|i: int|
            0 <= i < run(phase, events).1.len() implies !is_stop_command(
                #[trigger] run(phase, events).1[i],
            ) by {
            if i > 0 {
                assert(run(phase, events).1[i] == rest[i - 1]);
            }
        }
    }
}

/// The key press and the cancellation race, and exactly one of them wins:
/// whatever events arrive, a session gives at most one stop command. It
/// kills the capture tool or writes the quit byte, never both and never
/// either twice.
pub proof fn lemma_at_most_one_stop_command(phase: Phase, events: Seq<Event>)
    requires
        !is_stopping_or_after(phase),
    ensures
        forall|i: int, j: int|
            0 <= i < run(phase, events).1.len() && 0 <= j < run(phase, events).1.len()
                && is_stop_command(#[trigger] run(phase, events).1[i]) && is_stop_command(
                #[trigger] run(phase, events).1[j],
            ) ==> i == j,
    decreases events.len(),
{
    if events.len() > 0 {
        let (next, action) = transition(phase, events[0]);
        let acts = run(phase, events).1;
        let rest = run(next, events.drop_first()).1;
        assert(acts == seq![action] + rest);
        if is_stop_command(action) {
            lemma_no_stop_command_after_stopping(next, events.drop_first());
            assert forall|i: int, j: int|
                0 <= i < acts.len() && 0 <= j < acts.len() && is_stop_command(#[trigger] acts[i])
                    && is_stop_command(#[trigger] acts[j]) implies i == j by {
                if i > 0 {
                    assert(acts[i] == rest[i - 1]);
                }
                if j > 0 {
                    assert(acts[j] == rest[j - 1]);
                }
            }
        } else {
            lemma_at_most_one_stop_command(next, events.drop_first());
            assert forall|i: int, j: int|
                0 <= i < acts.len() && 0 <= j < acts.len() && is_stop_command(#[trigger] acts[i])
                    && is_stop_command(#[trigger] acts[j]) implies i == j by {
                assert(!is_stop_command(acts[0]));
                assert(acts[i] == rest[i - 1]);
                assert(acts[j] == rest[j - 1]);
            }
        }
    }
}

} // verus!
