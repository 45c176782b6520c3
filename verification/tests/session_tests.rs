use fadb_desktop::desktop::AdbEndpoint;
use fadb_desktop::domain::{
    BackendCommand, BackendEvent, BridgeError, DeviceDescriptor, DeviceRecord, DeviceSerial,
    DeviceSnapshot, DeviceState, ErrorCode, UpdateCheckOutcome, UpdateInfo,
};
use fadb_desktop::i18n::Language;
use fadb_desktop::session::{AppReaction, AppState};
use fadb_desktop::update::UpdateStatus;

fn record(serial: &str, state: DeviceState, generation: u64) -> DeviceRecord {
    DeviceRecord {
        descriptor: DeviceDescriptor {
            serial: DeviceSerial::new(serial).expect("serial"),
            state,
            product: None,
            model: None,
            device: None,
            transport_id: None,
        },
        generation,
    }
}

fn snapshot(records: Vec<DeviceRecord>, selected: Option<&str>) -> DeviceSnapshot {
    DeviceSnapshot {
        devices: records,
        selected: selected.map(|serial| DeviceSerial::new(serial).expect("serial")),
    }
}

#[test]
fn adb_events_track_availability_and_errors() {
    let mut state = AppState::new(Vec::new(), None, false);
    state.apply_event(
        BackendEvent::AdbUnavailable(BridgeError::new(ErrorCode::AdbNotFound, "adb.not_found", "")),
        0,
        Language::English,
    );
    assert_eq!(
        state.last_error.as_ref().map(|e| e.message_key.as_str()),
        Some("adb.not_found")
    );
    state.apply_event(
        BackendEvent::AdbReady {
            path: "/usr/bin/adb".to_owned(),
            version: "1.0.41".to_owned(),
        },
        0,
        Language::English,
    );
    assert!(state.last_error.is_none());
    assert_eq!(state.adb_path.as_deref(), Some("/usr/bin/adb"));
    assert_eq!(state.adb_version.as_deref(), Some("1.0.41"));
}

#[test]
fn connect_flow_remembers_endpoints_and_reports_failures() {
    let mut state = AppState::new(Vec::new(), None, false);
    state.endpoint_host = "192.168.1.3".to_owned();
    state.endpoint_port = " 5556 ".to_owned();
    let endpoint = state.endpoint_from_inputs().expect("endpoint");
    let command = state.connect(endpoint);
    assert!(matches!(command, BackendCommand::ConnectDevice(ref e) if e.port() == 5556));
    assert_eq!(state.endpoint_port, "5556");
    assert!(state.connecting_endpoint.is_some());
    state.apply_event(
        BackendEvent::AdbConnected(AdbEndpoint::new("192.168.1.3".to_owned(), 5556)),
        0,
        Language::English,
    );
    assert!(state.connecting_endpoint.is_none());
    assert_eq!(state.recent_endpoints.len(), 1);
    state.apply_event(
        BackendEvent::AdbConnectFailed {
            endpoint: AdbEndpoint::new("10.0.0.9".to_owned(), 5555),
            error: BridgeError::new(ErrorCode::AdbFailed, "adb.command_failed", "refused"),
        },
        0,
        Language::English,
    );
    let shown = state.last_error.as_ref().expect("error");
    assert_eq!(shown.detail, "refused (10.0.0.9:5555)");
    assert_eq!(shown.message_key, "adb.command_failed");
    assert_eq!(state.recent_endpoints.len(), 1);
    state.endpoint_port = "port".to_owned();
    assert!(state.endpoint_from_inputs().is_err());
}

#[test]
fn found_updates_are_toasted() {
    let mut state = AppState::new(Vec::new(), None, false);
    let reaction = state.apply_event(
        BackendEvent::UpdateChecked(Ok(UpdateCheckOutcome::Available(UpdateInfo {
            version: "0.9.0".to_owned(),
            url: "u".to_owned(),
        }))),
        77,
        Language::English,
    );
    assert!(matches!(reaction, AppReaction::Toast(ref t) if t == "New version available v0.9.0"));
    assert_eq!(state.update_state.last_check_epoch, Some(77));
    let reaction = state.apply_event(
        BackendEvent::UpdateChecked(Ok(UpdateCheckOutcome::UpToDate)),
        78,
        Language::English,
    );
    assert!(matches!(reaction, AppReaction::Nothing));
    assert!(matches!(state.update_state.status, UpdateStatus::UpToDate));
}

#[test]
fn device_lists_retarget_the_panels() {
    let mut state = AppState::new(Vec::new(), None, false);
    let reaction = state.apply_event(
        BackendEvent::DevicesChanged(snapshot(
            vec![record("a", DeviceState::Online, 1), record("b", DeviceState::Online, 4)],
            Some("b"),
        )),
        0,
        Language::English,
    );
    match reaction {
        AppReaction::Retarget {
            reset_overview,
            target: Some(target),
        } => {
            assert!(reset_overview);
            assert_eq!(target.serial.as_str(), "b");
            assert_eq!(target.generation, 4);
        }
        other => panic!("unexpected reaction {other:?}"),
    }
    let reaction = state.apply_event(
        BackendEvent::DevicesChanged(snapshot(vec![record("b", DeviceState::Online, 5)], Some("b"))),
        0,
        Language::English,
    );
    assert!(matches!(
        reaction,
        AppReaction::Retarget {
            reset_overview: false,
            target: Some(_)
        }
    ));
}

#[test]
fn auto_select_picks_the_first_online_device_once() {
    let mut state = AppState::new(Vec::new(), None, true);
    let reaction = state.apply_event(
        BackendEvent::DevicesChanged(snapshot(vec![record("x", DeviceState::Offline, 1)], None)),
        0,
        Language::English,
    );
    assert!(matches!(reaction, AppReaction::Retarget { target: None, .. }));
    assert!(state.auto_select_requested);
    let reaction = state.apply_event(
        BackendEvent::DevicesChanged(snapshot(vec![record("y", DeviceState::Online, 2)], None)),
        0,
        Language::English,
    );
    assert!(matches!(reaction, AppReaction::Select { ref serial, .. } if serial.as_str() == "y"));
    assert!(!state.auto_select_requested);
}

#[test]
fn panel_events_leave_the_app_state_alone() {
    let mut state = AppState::new(Vec::new(), None, false);
    let reaction = state.apply_event(
        BackendEvent::AiUnavailable {
            reason: "x".to_owned(),
        },
        0,
        Language::English,
    );
    assert!(matches!(reaction, AppReaction::Nothing));
    assert!(state.last_error.is_none());
}

#[test]
fn fresh_identifiers_are_version_4_uuids() {
    use_ids(fadb_desktop::domain::OperationId::new().0);
    use_ids(fadb_desktop::domain::LogcatSessionId::new().0);
    use_ids(fadb_desktop::domain::ShellSessionId::new().0);
    assert_ne!(
        fadb_desktop::domain::OperationId::new().0,
        fadb_desktop::domain::OperationId::new().0
    );
}

fn use_ids(id: u128) {
    assert_eq!(
        id & 0xF000_C000_0000_0000_0000u128,
        0x4000_8000_0000_0000_0000u128
    );
}
