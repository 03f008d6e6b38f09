use whisper_connector::error::{Error, IoStep};
use whisper_connector::session::{capture_tool, Action, Ending, Event, Phase, RecordingSession};

fn recording() -> RecordingSession {
    let mut s = RecordingSession::start("Mic A".to_string(), "/tmp/out.mp3".to_string());
    assert_eq!(s.handle(Event::Begin), Action::RemoveStaleFileAndSpawn);
    assert_eq!(s.handle(Event::Spawned), Action::AwaitTrigger);
    assert_eq!(s.phase(), Phase::Recording);
    s
}

#[test]
fn cancellation_before_key_kills_and_ends_empty() {
    let mut s = recording();
    let mut actions = vec![s.handle(Event::CancelFired)];
    actions.push(s.handle(Event::Killed));
    assert_eq!(actions, vec![Action::Kill, Action::Halt]);
    assert!(!actions.contains(&Action::WriteQuitByte));
    assert_eq!(s.phase(), Phase::Cancelled);
    assert!(matches!(s.ending(), Some(Ok(Ending::Cancelled))));
}

#[test]
fn key_press_stops_gracefully() {
    let mut s = recording();
    let actions = vec![
        s.handle(Event::KeyPressed),
        s.handle(Event::QuitWritten),
        s.handle(Event::Flushed),
        s.handle(Event::Exited),
    ];
    assert_eq!(actions, vec![Action::WriteQuitByte, Action::Flush, Action::AwaitExit, Action::Halt]);
    assert_eq!(actions.iter().filter(|a| **a == Action::WriteQuitByte).count(), 1);
    assert!(!actions.contains(&Action::Kill));
    assert_eq!(s.phase(), Phase::Finalized);
    assert!(matches!(s.ending(), Some(Ok(Ending::Recorded))));
}

#[test]
fn cancellation_after_key_press_has_no_effect() {
    let mut s = recording();
    assert_eq!(s.handle(Event::KeyPressed), Action::WriteQuitByte);
    assert_eq!(s.handle(Event::CancelFired), Action::Ignore);
    assert_eq!(s.phase(), Phase::WritingQuit);
    assert_eq!(s.handle(Event::QuitWritten), Action::Flush);
    assert_eq!(s.handle(Event::CancelFired), Action::Ignore);
    assert_eq!(s.phase(), Phase::Flushing);
}

#[test]
fn spawn_failure_fails_session() {
    let mut s = RecordingSession::start("Mic A".to_string(), "/tmp/out.mp3".to_string());
    s.handle(Event::Begin);
    assert_eq!(s.handle(Event::SpawnFailed), Action::Halt);
    assert!(matches!(s.ending(), Some(Err(Error::SpawnFailed))));
}

#[test]
fn each_stop_failure_has_its_own_error() {
    let mut s = recording();
    s.handle(Event::KeyPressed);
    s.handle(Event::StdinUnavailable);
    assert!(matches!(s.ending(), Some(Err(Error::IoFailed(IoStep::StdinUnavailable)))));

    let mut s = recording();
    s.handle(Event::KeyPressed);
    s.handle(Event::WriteFailed);
    assert!(matches!(s.ending(), Some(Err(Error::IoFailed(IoStep::WriteQuit)))));

    let mut s = recording();
    s.handle(Event::KeyPressed);
    s.handle(Event::QuitWritten);
    s.handle(Event::FlushFailed);
    assert!(matches!(s.ending(), Some(Err(Error::IoFailed(IoStep::Flush)))));

    let mut s = recording();
    s.handle(Event::KeyPressed);
    s.handle(Event::QuitWritten);
    s.handle(Event::Flushed);
    s.handle(Event::WaitFailed);
    assert!(matches!(s.ending(), Some(Err(Error::IoFailed(IoStep::Wait)))));

    let mut s = recording();
    s.handle(Event::CancelFired);
    s.handle(Event::KillFailed);
    assert!(matches!(s.ending(), Some(Err(Error::IoFailed(IoStep::Kill)))));
}

#[test]
fn running_session_has_no_ending() {
    let s = recording();
    assert!(s.ending().is_none());
}

#[test]
fn events_out_of_order_are_ignored() {
    let mut s = RecordingSession::start("Mic A".to_string(), "/tmp/out.mp3".to_string());
    assert_eq!(s.handle(Event::KeyPressed), Action::Ignore);
    assert_eq!(s.phase(), Phase::Idle);
}

#[test]
fn capture_arguments() {
    let s = RecordingSession::start("Mic A".to_string(), "/tmp/out.mp3".to_string());
    assert_eq!(s.capture_args(), vec!["-y", "-f", "dshow", "-i", "audio=Mic A", "/tmp/out.mp3"]);
    assert_eq!(s.device(), "Mic A");
    assert_eq!(s.output_path(), "/tmp/out.mp3");
    assert_eq!(capture_tool(), "ffmpeg");
}
