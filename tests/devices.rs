use whisper_connector::devices::{list_devices_args, parse_audio_devices};
use whisper_connector::error::Error;

const LISTING: &str = "[dshow @ 000001c8] \"Integrated Camera\" (video)\r\n\
[dshow @ 000001c8]  Alternative name \"@device_pnp_\\\\?\\usb#vid_04f2\"\r\n\
[dshow @ 000001c8] \"Microphone (Realtek(R) Audio)\" (audio)\r\n\
[dshow @ 000001c8]  Alternative name \"@device_cm_{33D9A762}\\wave_{A1B2}\" (audio)\r\n\
[dshow @ 000001c8] \"Mic A\" (audio)\r\n\
dummy: Immediate exit requested\r\n";

#[test]
fn lists_audio_devices_in_order() {
    let devices = parse_audio_devices(LISTING).unwrap();
    assert_eq!(devices, vec!["Microphone (Realtek(R) Audio)".to_string(), "Mic A".to_string()]);
}

#[test]
fn empty_output_lists_nothing() {
    assert_eq!(parse_audio_devices("").unwrap(), Vec::<String>::new());
}

#[test]
fn video_and_untagged_lines_are_dropped() {
    let text = "[dshow @ 01] \"Cam\" (video)\n\"Mic\" (audio)\n[other @ 01] \"Mic\" (audio)";
    assert_eq!(parse_audio_devices(text).unwrap(), Vec::<String>::new());
}

#[test]
fn last_line_without_newline_is_read() {
    let text = "[dshow @ 01] \"Mic B\" (audio)";
    assert_eq!(parse_audio_devices(text).unwrap(), vec!["Mic B".to_string()]);
}

#[test]
fn same_name_twice_is_kept_twice() {
    let text = "[dshow @ 01] \"Mic\" (audio)\n[dshow @ 01] \"Mic\" (audio)\n";
    assert_eq!(parse_audio_devices(text).unwrap(), vec!["Mic".to_string(), "Mic".to_string()]);
}

#[test]
fn non_ascii_names_are_kept_whole() {
    let text = "[dshow @ 01] \"Mikrofon (Głośnik ŻÓŁW)\" (audio)\n";
    assert_eq!(parse_audio_devices(text).unwrap(), vec!["Mikrofon (Głośnik ŻÓŁW)".to_string()]);
}

#[test]
fn line_without_delimiters_is_noise() {
    let text = "[dshow @ 01] no quotes here (audio)\n[dshow @ 01] \"Mic\" (audio)\n";
    assert_eq!(parse_audio_devices(text).unwrap(), vec!["Mic".to_string()]);
}

#[test]
fn empty_name_is_listed() {
    let text = "[dshow @ 01] \"\" (audio)\n";
    assert_eq!(parse_audio_devices(text).unwrap(), vec!["".to_string()]);
}

#[test]
fn malformed_line_fails_whole_listing() {
    let bad = "[dshow @ 01] x\" \"Mic\" (audio)";
    let text = format!("[dshow @ 01] \"Good\" (audio)\n{bad}\n[dshow @ 01] \"Later\" (audio)\n");
    match parse_audio_devices(&text) {
        Err(Error::ParseFailed(line)) => assert_eq!(line, bad),
        other => panic!("expected a parse failure, got {:?}", other),
    }
}

#[test]
fn first_malformed_line_is_reported() {
    let first = "[dshow @ 01] a\" \"b\" (audio)";
    let second = "[dshow @ 02] c\" \"d\" (audio)";
    let text = format!("{first}\n{second}\n");
    match parse_audio_devices(&text) {
        Err(Error::ParseFailed(line)) => assert_eq!(line, first),
        other => panic!("expected a parse failure, got {:?}", other),
    }
}

#[test]
fn same_line_without_alias_marker_is_malformed() {
    let text = "[dshow @ 01] x\" y] Alternative name \"z (audio)\n";
    assert!(matches!(parse_audio_devices(text), Err(Error::ParseFailed(_))));
}

#[test]
fn malformed_alias_line_is_ignored() {
    let text = "[dshow @ 01]  Alternative name \"x\" \"y\" (audio)\n\
[dshow @ 01] x\" y]  Alternative name \"z (audio)\n\
[dshow @ 01] \"Mic\" (audio)\n";
    assert_eq!(parse_audio_devices(text).unwrap(), vec!["Mic".to_string()]);
}

#[test]
fn list_arguments() {
    assert_eq!(
        list_devices_args(),
        vec!["-hide_banner", "-list_devices", "true", "-f", "dshow", "-i", "dummy"]
    );
}
