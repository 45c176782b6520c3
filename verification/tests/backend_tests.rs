use fadb_desktop::backend::{
    connect_outcome, explicit_adb, fake_backend_enabled, ConnectFlow, ConnectPhase,
};
use fadb_desktop::desktop::AdbEndpoint;
use fadb_desktop::domain::{BackendEvent, BridgeError, ErrorCode};
use fadb_desktop::strings::{is_control, is_whitespace, str_contains};

fn endpoint() -> AdbEndpoint {
    AdbEndpoint::new("192.168.1.20".to_owned(), 5555)
}

#[test]
fn fake_switch_accepts_its_words_in_any_case() {
    for value in ["1", "true", "TRUE", "True", "yes", "YeS"] {
        assert!(fake_backend_enabled(Some(value)), "{value}");
    }
    for value in ["", "0", "false", "no", "yes ", "tru", "2", "ye5"] {
        assert!(!fake_backend_enabled(Some(value)), "{value}");
    }
    assert!(!fake_backend_enabled(None));
}

#[test]
fn connect_then_refresh_reports_connected() {
    match connect_outcome(endpoint(), Ok(()), true) {
        BackendEvent::AdbConnected(e) => {
            assert_eq!(e.host(), "192.168.1.20");
            assert_eq!(e.port(), 5555);
        }
        other => panic!("unexpected {other:?}"),
    }
}

#[test]
fn connect_without_device_list_fails() {
    match connect_outcome(endpoint(), Ok(()), false) {
        BackendEvent::AdbConnectFailed { endpoint, error } => {
            assert_eq!(endpoint.port(), 5555);
            assert_eq!(error.code, ErrorCode::AdbFailed);
            assert_eq!(error.message_key, "adb.devices.refresh_failed");
            assert_eq!(error.detail, "ADB connected but device discovery failed");
        }
        other => panic!("unexpected {other:?}"),
    }
}

#[test]
fn failed_connect_keeps_its_error() {
    let error = BridgeError::new(ErrorCode::AdbFailed, "adb.command_failed", "refused");
    match connect_outcome(endpoint(), Err(error), true) {
        BackendEvent::AdbConnectFailed { endpoint, error } => {
            assert_eq!(endpoint.host(), "192.168.1.20");
            assert_eq!(error.message_key, "adb.command_failed");
            assert_eq!(error.detail, "refused");
        }
        other => panic!("unexpected {other:?}"),
    }
}

#[test]
fn character_classes_agree_with_std() {
    for code in 0u32..0x3100 {
        if let Some(c) = char::from_u32(code) {
            assert_eq!(is_whitespace(c), c.is_whitespace(), "{code:#x}");
            assert_eq!(is_control(c), c.is_control(), "{code:#x}");
        }
    }
    for c in ['\u{feff}', '\u{10ffff}', '\u{e000}', '\u{1f600}'] {
        assert_eq!(is_whitespace(c), c.is_whitespace());
        assert_eq!(is_control(c), c.is_control());
    }
}

#[test]
fn substring_search() {
    assert!(str_contains("ActivityManager: start", "Manager"));
    assert!(str_contains("abc", ""));
    assert!(str_contains("", ""));
    assert!(!str_contains("", "a"));
    assert!(!str_contains("abc", "abcd"));
    assert!(str_contains("aab", "ab"));
    assert!(!str_contains("abc", "cb"));
    assert!(str_contains("日志输出", "输出"));
}

#[test]
fn adb_override_names_a_file_or_is_reported() {
    assert!(matches!(explicit_adb(None, false), Ok(None)));
    assert!(matches!(explicit_adb(None, true), Ok(None)));
    match explicit_adb(Some("/opt/sdk/adb".to_owned()), true) {
        Ok(Some(path)) => assert_eq!(path, "/opt/sdk/adb"),
        other => panic!("unexpected {other:?}"),
    }
    match explicit_adb(Some("/missing/adb".to_owned()), false) {
        Err(error) => {
            assert_eq!(error.code, ErrorCode::AdbNotFound);
            assert_eq!(error.message_key, "adb.fadb_adb_invalid");
            assert_eq!(error.detail, "/missing/adb");
        }
        other => panic!("unexpected {other:?}"),
    }
}

#[test]
fn connect_flow_announces_then_reports_one_outcome() {
    let (mut flow, announced) = ConnectFlow::begin(endpoint());
    match announced {
        BackendEvent::AdbConnecting(e) => assert_eq!(e.host(), "192.168.1.20"),
        other => panic!("unexpected {other:?}"),
    }
    assert_eq!(flow.phase, ConnectPhase::Connecting);
    assert!(flow.connect_finished(Ok(())).is_none());
    assert_eq!(flow.phase, ConnectPhase::Refreshing);
    match flow.refresh_finished(true) {
        BackendEvent::AdbConnected(e) => assert_eq!(e.port(), 5555),
        other => panic!("unexpected {other:?}"),
    }
    assert_eq!(flow.phase, ConnectPhase::Done);
}

#[test]
fn connect_flow_ends_at_a_failed_connect() {
    let (mut flow, _) = ConnectFlow::begin(endpoint());
    let error = BridgeError::new(ErrorCode::AdbFailed, "adb.command_failed", "refused");
    match flow.connect_finished(Err(error)) {
        Some(BackendEvent::AdbConnectFailed { endpoint, error }) => {
            assert_eq!(endpoint.host(), "192.168.1.20");
            assert_eq!(error.detail, "refused");
        }
        other => panic!("unexpected {other:?}"),
    }
    assert_eq!(flow.phase, ConnectPhase::Done);
}

#[test]
fn connect_flow_fails_when_the_device_list_cannot_be_read() {
    let (mut flow, _) = ConnectFlow::begin(endpoint());
    assert!(flow.connect_finished(Ok(())).is_none());
    match flow.refresh_finished(false) {
        BackendEvent::AdbConnectFailed { error, .. } => {
            assert_eq!(error.message_key, "adb.devices.refresh_failed");
        }
        other => panic!("unexpected {other:?}"),
    }
}
