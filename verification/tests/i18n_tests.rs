use fadb_desktop::domain::{BridgeError, ErrorCode};
use fadb_desktop::i18n::{adb_download_url, error_hint, error_text, error_title, text, Language};

const ASSISTANT_KEYS: &[&str] = &[
    "assistant",
    "assistant_ready",
    "assistant_not_configured",
    "assistant_configure",
    "assistant_privacy_note",
    "assistant_empty_hint",
    "assistant_you",
    "assistant_label",
    "assistant_waiting",
    "assistant_input_hint",
    "assistant_send",
    "assistant_send_hint",
    "ai_settings",
    "ai_endpoint",
    "ai_model_name",
    "ai_api_key",
    "ai_timeout_seconds",
    "ai_save",
    "ai_disable",
    "ai_settings_hint",
];

#[test]
fn assistant_keys_translate_for_both_languages() {
    for language in [Language::English, Language::Chinese] {
        for key in ASSISTANT_KEYS {
            assert!(
                !text(language, key).is_empty(),
                "missing {key:?} translation for {language:?}"
            );
        }
    }
}

#[test]
fn window_control_keys_translate_for_both_languages() {
    for language in [Language::English, Language::Chinese] {
        for key in ["win_minimize", "win_maximize", "win_restore", "win_close"] {
            assert!(
                !text(language, key).is_empty(),
                "missing {key:?} translation for {language:?}"
            );
        }
    }
}

const UPDATE_KEYS: &[&str] = &[
    "settings.check_updates",
    "settings.auto_check_updates",
    "update.checking",
    "update.up_to_date",
    "update.available",
    "update.open_releases",
    "update.check_failed",
    "update.check_failed_hint",
];

#[test]
fn update_keys_translate_for_both_languages() {
    for language in [Language::English, Language::Chinese] {
        for key in UPDATE_KEYS {
            assert!(
                !text(language, key).is_empty(),
                "missing {key:?} translation for {language:?}"
            );
        }
    }
}

const APPLICATION_KEYS: &[&str] = &[
    "applications",
    "applications_hint",
    "app_filter_third",
    "app_filter_system",
    "app_filter_all",
    "apps_search_hint",
    "no_applications",
    "app_badge_system",
    "app_badge_frozen",
    "app_details_hint",
    "app_info",
    "app_version",
    "app_target_sdk",
    "app_min_sdk",
    "app_installer",
    "app_first_install",
    "app_last_update",
    "app_apk_path",
    "app_permissions",
    "app_permissions_none",
    "app_details_unavailable",
    "app_open",
    "app_force_stop",
    "app_clear_data",
    "app_freeze",
    "app_unfreeze",
    "app_uninstall",
    "app_action_running",
    "app_confirm_clear_title",
    "app_confirm_clear_body",
    "app_confirm_uninstall_title",
    "app_confirm_uninstall_body",
    "confirm",
    "cancel",
];

#[test]
fn application_keys_translate_for_both_languages() {
    for language in [Language::English, Language::Chinese] {
        for key in APPLICATION_KEYS {
            assert!(
                !text(language, key).is_empty(),
                "missing {key:?} translation for {language:?}"
            );
        }
    }
}

const FILES_KEYS: &[&str] = &[
    "files_select_device",
    "files_back",
    "files_up",
    "files_go",
    "files_new_folder",
    "files_upload",
    "files_upload_dialog",
    "files_upload_invalid_name",
    "files_download",
    "files_download_dialog",
    "files_cancel_transfer",
    "files_loading",
    "files_name",
    "files_type",
    "files_size",
    "files_modified",
    "files_kind_file",
    "files_kind_directory",
    "files_kind_symlink",
    "files_kind_other",
    "files_rename",
    "files_delete",
    "files_transferring",
    "files_overwrite_remote_title",
    "files_overwrite_local_title",
    "files_overwrite_body",
    "files_replace",
    "files_delete_title",
    "files_delete_body",
    "files_invalid_name",
    "files_enter",
    "files_copy_path",
];

const SCREENSHOT_KEYS: &[&str] = &[
    "screenshot_capture",
    "screenshot_retake",
    "screenshot_save_png",
    "screenshot_fit",
    "screenshot_actual",
    "screenshot_copy_image",
    "screenshot_capturing",
    "screenshot_hint",
    "screenshot_saved",
    "screenshot_pixels",
];

const SHELL_KEYS: &[&str] = &[
    "shell_title",
    "shell_status_disconnected",
    "shell_status_connecting",
    "shell_status_connected",
    "shell_status_closing",
    "shell_status_exited",
    "shell_status_failed",
    "shell_hint",
    "shell_disconnect",
    "shell_clear_display",
    "shell_copy_visible",
    "shell_copy_selection",
    "shell_paste",
    "shell_focus_terminal",
    "shell_select_online",
    "shell_empty_hint",
];

const LOGCAT_KEYS: &[&str] = &[
    "logcat_start",
    "logcat_stop",
    "logcat_pause",
    "logcat_resume",
    "logcat_clear",
    "logcat_save",
    "logcat_autoscroll",
    "logcat_level",
    "logcat_level_all",
    "logcat_streaming",
    "logcat_starting",
    "logcat_idle",
    "logcat_paused",
    "logcat_search_hint",
    "logcat_line_count",
];

const LAYOUT_KEYS: &[&str] = &[
    "layout_loading",
    "layout_empty",
    "layout_export",
    "layout_search_hint",
    "layout_node_count",
    "layout_attributes",
    "layout_no_selection",
    "layout_copy_hint",
    "attr_class",
    "attr_resource_id",
    "attr_text",
    "attr_content_desc",
    "attr_package",
    "attr_bounds",
    "attr_children",
    "attr_clickable",
    "attr_scrollable",
    "attr_enabled",
    "attr_selected",
    "attr_focused",
    "attr_yes",
    "attr_no",
    "attr_disabled",
    "copy",
];

const WEBVIEW_KEYS: &[&str] = &[
    "webview_refresh_sockets",
    "webview_sockets",
    "webview_pages",
    "webview_none_found",
    "webview_select_socket",
    "webview_no_pages",
    "webview_col_title",
    "webview_col_url",
    "webview_col_type",
    "webview_col_action",
    "webview_open_page",
    "webview_open_devtools",
    "webview_copy_url",
    "webview_debug_hint",
];

const APPLICATIONS_KEYS: &[&str] = &[
    "applications_install",
    "applications_install_running",
    "applications_install_ok",
];

const WIRELESS_KEYS: &[&str] = &[
    "wireless",
    "wireless_hint",
    "wireless_pair",
    "wireless_pair_go",
    "wireless_pairing",
    "wireless_pair_ok",
    "wireless_code",
    "wireless_tcpip",
    "wireless_tcpip_running",
    "wireless_tcpip_ok",
    "wireless_tcpip_hint",
    "wireless_tcpip_need_device",
    "wireless_mdns",
    "wireless_mdns_hint",
    "wireless_connect",
    "wireless_none",
];

const MIRROR_KEYS: &[&str] = &[
    "mirror",
    "mirror_hint",
    "mirror_start",
    "mirror_stop",
    "mirror_starting",
    "mirror_running",
    "mirror_native",
    "mirror_need_device",
    "mirror_waiting",
    "mirror_remote",
    "mirror_key_power",
    "mirror_key_mute",
    "mirror_key_play",
    "mirror_key_vol_up",
    "mirror_key_vol_down",
    "mirror_key_menu",
    "mirror_key_home",
    "mirror_key_back",
    "mirror_record",
    "mirror_record_stop",
    "mirror_recording",
    "mirror_record_saved",
    "mirror_need_mirror",
    "mirror_record_frames",
];

const OVERVIEW_KEYS: &[&str] = &[
    "overview_na",
    "overview_not_loaded",
    "overview_unauthorized",
    "overview_offline",
    "overview_unknown_state",
    "overview_cpu_cores",
    "overview_field_name",
    "overview_field_brand",
    "overview_field_model",
    "overview_field_serial",
    "overview_field_android",
    "overview_field_kernel",
    "overview_field_cpu",
    "overview_field_memory",
    "overview_field_storage",
    "overview_field_battery",
    "overview_field_physical",
    "overview_field_resolution",
    "overview_field_font",
    "overview_field_wifi",
    "overview_field_ip",
    "overview_field_mac",
];

#[test]
fn files_screenshot_shell_keys_translate_for_both_languages() {
    for language in [Language::English, Language::Chinese] {
        for key in FILES_KEYS
            .iter()
            .chain(SCREENSHOT_KEYS)
            .chain(SHELL_KEYS)
            .chain(LOGCAT_KEYS)
            .chain(LAYOUT_KEYS)
            .chain(WEBVIEW_KEYS)
            .chain(APPLICATIONS_KEYS)
            .chain(WIRELESS_KEYS)
            .chain(MIRROR_KEYS)
            .chain(OVERVIEW_KEYS)
            .chain(
                [
                    "refresh",
                    "confirm",
                    "cancel",
                    "connect",
                    "copy",
                    "navigation_collapse",
                    "navigation_expand",
                ]
                .iter(),
            )
        {
            assert!(
                !text(language, key).is_empty(),
                "missing {key:?} translation for {language:?}"
            );
        }
    }
}

const MESSAGE_KEYS: &[&str] = &[
    "adb.cancelled",
    "adb.command_failed",
    "adb.devices.invalid_line",
    "adb.not_found",
    "adb.output_limit",
    "adb.read_failed",
    "adb.spawn_failed",
    "adb.stderr_missing",
    "adb.stdout_missing",
    "adb.timed_out",
    "adb.wait_failed",
    "adb.mdns_failed",
    "adb.pair_failed",
    "adb.tcpip_failed",
    "device.generation_changed",
    "device.not_found",
    "device.unavailable",
    "file.create_directory_failed",
    "file.delete_failed",
    "file.delete_invalid",
    "file.delete_not_regular_file",
    "file.download_failed",
    "file.list_failed",
    "file.list_invalid_record",
    "file.local_exists",
    "file.local_source_missing",
    "file.local_source_not_file",
    "file.local_symlink_refused",
    "file.path.component_invalid",
    "file.path.escapes_root",
    "file.path.invalid",
    "file.remote_exists",
    "file.rename_failed",
    "file.rename_invalid",
    "file.upload_failed",
    "screenshot.capture_failed",
    "screenshot.dimensions.invalid",
    "screenshot.invalid_png",
    "screenshot.save_failed",
    "shell.already_closed",
    "shell.close_timed_out",
    "shell.input.empty",
    "shell.input.too_large",
    "shell.kill_failed",
    "shell.pipe_missing",
    "shell.read_failed",
    "shell.size.invalid",
    "shell.spawn_failed",
    "shell.wait_failed",
    "shell.write_failed",
    "layout.dump_failed",
    "layout.parse_failed",
    "logcat.spawn_failed",
    "logcat.wait_failed",
    "webview.forward_failed",
    "webview.pages_unreachable",
    "applications.install_failed",
    "applications.install_no_reason",
    "applications.drop_needs_device",
    "device.target_stale",
    "wireless.pair_invalid",
    "mirror.codec_mismatch",
    "mirror.record_empty",
    "mirror.record_not_running",
    "mirror.record_write_failed",
    "mirror.forward_failed",
    "mirror.jar_write_failed",
    "mirror.listen_failed",
    "mirror.push_failed",
    "mirror.server_start_timeout",
    "mirror.shell_failed",
    "mirror.stream_failed",
];

#[test]
fn message_keys_have_chinese_translations() {
    for key in MESSAGE_KEYS {
        assert!(
            !text(Language::Chinese, key).is_empty(),
            "missing Chinese translation for {key:?}"
        );
    }
}

#[test]
fn error_text_localizes_known_keys_and_falls_back_to_raw_key() {
    let known = BridgeError::new(ErrorCode::AdbFailed, "adb.timed_out", "5s");
    assert_eq!(
        error_text(Language::Chinese, &known),
        "ADB 命令执行超时: 5s"
    );
    assert_eq!(error_text(Language::English, &known), "adb.timed_out: 5s");

    let unknown = BridgeError::new(ErrorCode::Internal, "future.key", "boom");
    assert_eq!(error_text(Language::Chinese, &unknown), "future.key: boom");

    let silent = BridgeError::new(ErrorCode::Internal, "adb.cancelled", "");
    assert_eq!(error_text(Language::Chinese, &silent), "操作已取消");
}

#[test]
fn unknown_keys_translate_to_nothing() {
    assert_eq!(text(Language::English, "no.such.key"), "");
    assert_eq!(text(Language::Chinese, "no.such.key"), "");
}

#[test]
fn translations_follow_the_language() {
    assert_eq!(text(Language::Chinese, "update.available"), "发现新版本");
    assert_eq!(text(Language::English, "update.available"), "New version available");
}

#[test]
fn download_page_depends_on_language() {
    assert_eq!(
        adb_download_url(Language::Chinese),
        "https://developer.android.google.cn/tools/releases/platform-tools"
    );
    assert_eq!(
        adb_download_url(Language::English),
        "https://developer.android.com/tools/releases/platform-tools"
    );
}

#[test]
fn error_title_falls_back_to_the_raw_key() {
    let unknown = BridgeError::new(ErrorCode::Internal, "future.key", "boom");
    assert_eq!(error_title(Language::English, &unknown), "future.key");
    let known = BridgeError::new(ErrorCode::AdbFailed, "adb.cancelled", "");
    assert_eq!(error_title(Language::Chinese, &known), "操作已取消");
}

#[test]
fn only_silent_install_failures_carry_a_hint() {
    let silent = BridgeError::new(ErrorCode::AdbFailed, "applications.install_no_reason", "");
    let hint = error_hint(Language::English, &silent).expect("hint");
    assert!(hint.starts_with("adb reported no failure reason."));
    assert!(error_hint(Language::Chinese, &silent).unwrap().starts_with("adb 未返回失败原因"));
    let other = BridgeError::new(ErrorCode::AdbFailed, "adb.timed_out", "");
    assert!(error_hint(Language::English, &other).is_none());
}

#[test]
fn keys_with_english_text_have_chinese_text() {
    for key in ["overview", "connect", "shell_empty_hint", "adb_not_available", "fake"] {
        assert!(!text(Language::English, key).is_empty(), "{key}");
        assert!(!text(Language::Chinese, key).is_empty(), "{key}");
    }
    assert_eq!(text(Language::English, "no.such.key"), "");
    assert_eq!(text(Language::Chinese, "no.such.key"), "");
}
