use fadb_desktop::desktop::{
    endpoint_from_inputs, endpoint_port, is_apk_path, remember_endpoint, seam_for,
    selected_record, AdbEndpoint, Panel, ResizeSeam, MAX_RECENT_ENDPOINTS,
};
use fadb_desktop::domain::{
    DeviceDescriptor, DeviceRecord, DeviceSerial, DeviceSnapshot, DeviceState, ErrorCode,
};
use fadb_desktop::files::{mutation_precheck, RemoteFileMutationKind};

#[test]
fn all_expected_panels_are_present() {
    assert_eq!(Panel::all().len(), 11);
    assert_eq!(Panel::all()[0], Panel::Overview);
    assert_eq!(Panel::all()[9], Panel::WebView);
    assert_eq!(Panel::all()[10], Panel::Mirror);
}

#[test]
fn apk_detection_is_extension_based_and_case_insensitive() {
    assert!(is_apk_path(Some("C:/a/b.apk")));
    assert!(is_apk_path(Some("app.APK")));
    assert!(!is_apk_path(Some("app.zip")));
    assert!(!is_apk_path(Some("apk")));
    assert!(!is_apk_path(None));
}

#[test]
fn initial_device_snapshot_has_no_implicit_selection() {
    assert!(DeviceSnapshot::default().selected.is_none());
}

#[test]
fn apk_detection_follows_path_file_names() {
    for path in [
        "a/b.apk",
        "a/b.apk/",
        "a/b.apk/.",
        "x.tar.ApK",
        "..apk",
        "dir.d/app.apk",
        "/abs/App.Apk",
        "./app.apk",
        "",
        ".apk",
        "a/.apk",
        "a/..",
        "b.apk/..",
        "/",
        ".",
        "a.apkx",
        "a.ap",
        "apk.",
        "a.apk.zip",
    ] {
        let expected = std::path::Path::new(path)
            .extension()
            .is_some_and(|extension| extension.eq_ignore_ascii_case("apk"));
        assert_eq!(is_apk_path(Some(path)), expected, "{path:?}");
    }
}

#[test]
fn panel_keys_and_icons() {
    assert_eq!(Panel::Overview.key(), "overview");
    assert_eq!(Panel::WebView.key(), "webview");
    assert_eq!(Panel::Mirror.icon(), "📺");
    assert_eq!(Panel::from_key("logcat"), Some(Panel::Logcat));
    assert_eq!(Panel::from_key("nope"), None);
    for panel in Panel::all() {
        assert_eq!(Panel::from_key(panel.key()), Some(panel));
    }
}

#[test]
fn seams_prefer_corners() {
    assert_eq!(seam_for(false, false, false, false), None);
    assert_eq!(seam_for(true, false, false, false), Some(ResizeSeam::West));
    assert_eq!(seam_for(false, true, false, false), Some(ResizeSeam::East));
    assert_eq!(seam_for(false, false, true, false), Some(ResizeSeam::North));
    assert_eq!(seam_for(false, false, false, true), Some(ResizeSeam::South));
    assert_eq!(seam_for(true, false, true, false), Some(ResizeSeam::NorthWest));
    assert_eq!(seam_for(false, true, true, false), Some(ResizeSeam::NorthEast));
    assert_eq!(seam_for(true, false, false, true), Some(ResizeSeam::SouthWest));
    assert_eq!(seam_for(false, true, false, true), Some(ResizeSeam::SouthEast));
}

fn endpoint(host: &str, port: u16) -> AdbEndpoint {
    AdbEndpoint::new(host.to_owned(), port)
}

fn listed(list: &[AdbEndpoint]) -> Vec<(String, u16)> {
    list.iter().map(|e| (e.host().to_owned(), e.port())).collect()
}

#[test]
fn recent_endpoints_move_to_front_without_repeats() {
    let mut recent = Vec::new();
    remember_endpoint(&mut recent, endpoint("10.0.0.1", 5555));
    remember_endpoint(&mut recent, endpoint("10.0.0.2", 5555));
    remember_endpoint(&mut recent, endpoint("10.0.0.1", 5555));
    assert_eq!(
        listed(&recent),
        vec![("10.0.0.1".to_owned(), 5555), ("10.0.0.2".to_owned(), 5555)]
    );
    remember_endpoint(&mut recent, endpoint("10.0.0.1", 5556));
    assert_eq!(recent.len(), 3);
    assert_eq!(listed(&recent)[0], ("10.0.0.1".to_owned(), 5556));
}

#[test]
fn recent_endpoints_keep_at_most_eight() {
    let mut recent = Vec::new();
    for index in 0..12u16 {
        remember_endpoint(&mut recent, endpoint("host", index));
    }
    assert_eq!(recent.len(), MAX_RECENT_ENDPOINTS);
    assert_eq!(recent[0].port(), 11);
    assert_eq!(recent[7].port(), 4);
    // Remembering the newest again changes nothing.
    let before = listed(&recent);
    remember_endpoint(&mut recent, endpoint("host", 11));
    assert_eq!(listed(&recent), before);
}

#[test]
fn endpoint_ports_parse_after_trimming() {
    assert_eq!(endpoint_port(" 5555 ").unwrap(), 5555);
    assert_eq!(
        endpoint_port("65536").unwrap_err().message_key,
        "adb.endpoint.port_invalid"
    );
    assert!(endpoint_port("").is_err());
    assert!(endpoint_port("-1").is_err());
    let typed = endpoint_from_inputs("192.168.1.3", "5555").expect("endpoint");
    assert_eq!(typed.host(), "192.168.1.3");
    assert_eq!(typed.port(), 5555);
    assert!(endpoint_from_inputs("192.168.1.3", "port").is_err());
}

fn record(serial: &str, generation: u64) -> DeviceRecord {
    DeviceRecord {
        descriptor: DeviceDescriptor {
            serial: DeviceSerial::new(serial).expect("serial"),
            state: DeviceState::Online,
            product: None,
            model: None,
            device: None,
            transport_id: None,
        },
        generation,
    }
}

#[test]
fn selected_record_is_the_first_listed_match() {
    let mut snapshot = DeviceSnapshot::default();
    snapshot.devices.push(record("a", 1));
    snapshot.devices.push(record("b", 2));
    snapshot.devices.push(record("b", 3));
    assert!(selected_record(&snapshot).is_none());
    snapshot.selected = Some(DeviceSerial::new("b").expect("serial"));
    assert_eq!(selected_record(&snapshot).map(|r| r.generation), Some(2));
    snapshot.selected = Some(DeviceSerial::new("c").expect("serial"));
    assert!(selected_record(&snapshot).is_none());
}

#[test]
fn file_changes_need_an_online_device_and_confirmed_deletes() {
    let stale = mutation_precheck(RemoteFileMutationKind::DeleteFile, false, false).unwrap_err();
    assert_eq!(stale.code, ErrorCode::DeviceUnavailable);
    assert_eq!(stale.message_key, "device.target_stale");
    let unconfirmed =
        mutation_precheck(RemoteFileMutationKind::DeleteFile, true, false).unwrap_err();
    assert_eq!(unconfirmed.message_key, "file.delete_confirmation_required");
    assert!(mutation_precheck(RemoteFileMutationKind::DeleteFile, true, true).is_ok());
    assert!(mutation_precheck(RemoteFileMutationKind::Rename, true, false).is_ok());
    assert!(mutation_precheck(RemoteFileMutationKind::CreateDirectory, true, false).is_ok());
}
