use whisper_connector::cli::{parse_command, parse_language, prepare_recording, Command, Language};
use whisper_connector::error::{Error, Invalid};
use whisper_connector::session::{Action, Event, Phase};

fn args(items: &[&str]) -> Vec<String> {
    items.iter().map(|s| s.to_string()).collect()
}

#[test]
fn languages() {
    assert_eq!(parse_language("en"), Some(Language::English));
    assert_eq!(parse_language("pl"), Some(Language::Polish));
    assert_eq!(parse_language("de"), None);
    assert_eq!(parse_language("EN"), None);
    assert_eq!(Language::Polish.code(), "pl");
}

#[test]
fn devices_command() {
    assert!(matches!(parse_command(&args(&["devices"]), false), Ok(Command::ListDevices)));
}

#[test]
fn transcribe_command() {
    match parse_command(&args(&["transcribe", "en", "Mic A"]), true) {
        Ok(Command::Transcribe { language, device }) => {
            assert_eq!(language, Language::English);
            assert_eq!(device, "Mic A");
        }
        other => panic!("unexpected {:?}", other),
    }
}

#[test]
fn credential_is_checked_first() {
    assert!(matches!(parse_command(&args(&["transcribe"]), false), Err(Error::ConfigMissing)));
}

#[test]
fn bad_arguments() {
    assert!(matches!(parse_command(&args(&[]), true), Err(Error::ValidationFailed(Invalid::Arguments))));
    assert!(matches!(
        parse_command(&args(&["transcribe", "en"]), true),
        Err(Error::ValidationFailed(Invalid::Arguments))
    ));
    assert!(matches!(parse_command(&args(&["help"]), true), Err(Error::ValidationFailed(Invalid::Arguments))));
    assert!(matches!(
        parse_command(&args(&["transcribe", "de", "Mic A"]), true),
        Err(Error::ValidationFailed(Invalid::UnsupportedLanguage))
    ));
}

#[test]
fn unknown_device_fails_before_recording() {
    let devices = args(&["Microphone (Realtek(R) Audio)", "Mic B"]);
    let device = match parse_command(&args(&["transcribe", "en", "Mic A"]), true) {
        Ok(Command::Transcribe { device, .. }) => device,
        other => panic!("unexpected {:?}", other),
    };
    assert!(matches!(
        prepare_recording(device, "/tmp/out.mp3".to_string(), &devices),
        Err(Error::ValidationFailed(Invalid::UnknownDevice))
    ));
}

#[test]
fn known_device_gives_idle_session() {
    let devices = args(&["Mic B", "Mic A"]);
    let mut s = prepare_recording("Mic A".to_string(), "/tmp/out.mp3".to_string(), &devices).unwrap();
    assert_eq!(s.phase(), Phase::Idle);
    assert_eq!(s.handle(Event::Begin), Action::RemoveStaleFileAndSpawn);
}
