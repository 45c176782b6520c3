use vstd::prelude::*;

use crate::strings::str_equal;

verus! {

/// English catalog, entries 1 to 40 of the catalog, first match wins.
pub open spec fn en_block_0(key: Seq<char>) -> Option<Seq<char>> {
    if key == "overview"@ {
        Some("Overview"@)
    } else if key == "navigation_collapse"@ {
        Some("Collapse navigation"@)
    } else if key == "navigation_expand"@ {
        Some("Expand navigation"@)
    } else if key == "overview_na"@ {
        Some("N/A"@)
    } else if key == "overview_copy_hint"@ {
        Some("Click to copy"@)
    } else if key == "copied"@ {
        Some("Copied"@)
    } else if key == "overview_not_loaded"@ {
        Some("Overview data is not loaded yet. Press Refresh in the top bar."@)
    } else if key == "overview_unauthorized"@ {
        Some("Authorize USB debugging on the device, then refresh."@)
    } else if key == "overview_offline"@ {
        Some("The device is offline. Reconnect it or restart ADB."@)
    } else if key == "overview_unknown_state"@ {
        Some("The device is in an unsupported ADB state."@)
    } else if key == "overview_cpu_cores"@ {
        Some("cores"@)
    } else if key == "overview_field_name"@ {
        Some("Name"@)
    } else if key == "overview_field_brand"@ {
        Some("Brand"@)
    } else if key == "overview_field_model"@ {
        Some("Model"@)
    } else if key == "overview_field_serial"@ {
        Some("Serial"@)
    } else if key == "overview_field_android"@ {
        Some("Android version"@)
    } else if key == "overview_field_kernel"@ {
        Some("Kernel"@)
    } else if key == "overview_field_cpu"@ {
        Some("Processor"@)
    } else if key == "overview_field_memory"@ {
        Some("Memory"@)
    } else if key == "overview_field_storage"@ {
        Some("Storage"@)
    } else if key == "overview_field_battery"@ {
        Some("Battery"@)
    } else if key == "overview_field_physical"@ {
        Some("Physical resolution"@)
    } else if key == "overview_field_resolution"@ {
        Some("Resolution"@)
    } else if key == "overview_field_font"@ {
        Some("Font scale"@)
    } else if key == "overview_field_wifi"@ {
        Some("Wi-Fi"@)
    } else if key == "overview_field_ip"@ {
        Some("IP address"@)
    } else if key == "overview_field_mac"@ {
        Some("MAC address"@)
    } else if key == "files"@ {
        Some("Files"@)
    } else if key == "applications"@ {
        Some("Applications"@)
    } else if key == "processes"@ {
        Some("Processes"@)
    } else if key == "performance"@ {
        Some("Performance"@)
    } else if key == "shell"@ {
        Some("Shell"@)
    } else if key == "layout"@ {
        Some("Layout"@)
    } else if key == "screenshot"@ {
        Some("Screenshot"@)
    } else if key == "logcat"@ {
        Some("Logcat"@)
    } else if key == "webview"@ {
        Some("WebView"@)
    } else if key == "assistant"@ {
        Some("AI Assistant"@)
    } else if key == "select_device"@ {
        Some("Select a device"@)
    } else if key == "no_device"@ {
        Some("No connected devices"@)
    } else if key == "refresh"@ {
        Some("Refresh"@)
    } else {
        None
    }
}

/// Looks `key` up in block 0 of the english catalog.
fn lookup_en_block_0(key: &str) -> (found: Option<&'static str>)
    ensures
        match found {
            Some(t) => en_block_0(key@) == Some(t@),
            None => en_block_0(key@) is None,
        },
{
    if str_equal(key, "overview") {
        return Some("Overview");
    }
    if str_equal(key, "navigation_collapse") {
        return Some("Collapse navigation");
    }
    if str_equal(key, "navigation_expand") {
        return Some("Expand navigation");
    }
    if str_equal(key, "overview_na") {
        return Some("N/A");
    }
    if str_equal(key, "overview_copy_hint") {
        return Some("Click to copy");
    }
    if str_equal(key, "copied") {
        return Some("Copied");
    }
    if str_equal(key, "overview_not_loaded") {
        return Some("Overview data is not loaded yet. Press Refresh in the top bar.");
    }
    if str_equal(key, "overview_unauthorized") {
        return Some("Authorize USB debugging on the device, then refresh.");
    }
    if str_equal(key, "overview_offline") {
        return Some("The device is offline. Reconnect it or restart ADB.");
    }
    if str_equal(key, "overview_unknown_state") {
        return Some("The device is in an unsupported ADB state.");
    }
    if str_equal(key, "overview_cpu_cores") {
        return Some("cores");
    }
    if str_equal(key, "overview_field_name") {
        return Some("Name");
    }
    if str_equal(key, "overview_field_brand") {
        return Some("Brand");
    }
    if str_equal(key, "overview_field_model") {
        return Some("Model");
    }
    if str_equal(key, "overview_field_serial") {
        return Some("Serial");
    }
    if str_equal(key, "overview_field_android") {
        return Some("Android version");
    }
    if str_equal(key, "overview_field_kernel") {
        return Some("Kernel");
    }
    if str_equal(key, "overview_field_cpu") {
        return Some("Processor");
    }
    if str_equal(key, "overview_field_memory") {
        return Some("Memory");
    }
    if str_equal(key, "overview_field_storage") {
        return Some("Storage");
    }
    if str_equal(key, "overview_field_battery") {
        return Some("Battery");
    }
    if str_equal(key, "overview_field_physical") {
        return Some("Physical resolution");
    }
    if str_equal(key, "overview_field_resolution") {
        return Some("Resolution");
    }
    if str_equal(key, "overview_field_font") {
        return Some("Font scale");
    }
    if str_equal(key, "overview_field_wifi") {
        return Some("Wi-Fi");
    }
    if str_equal(key, "overview_field_ip") {
        return Some("IP address");
    }
    if str_equal(key, "overview_field_mac") {
        return Some("MAC address");
    }
    if str_equal(key, "files") {
        return Some("Files");
    }
    if str_equal(key, "applications") {
        return Some("Applications");
    }
    if str_equal(key, "processes") {
        return Some("Processes");
    }
    if str_equal(key, "performance") {
        return Some("Performance");
    }
    if str_equal(key, "shell") {
        return Some("Shell");
    }
    if str_equal(key, "layout") {
        return Some("Layout");
    }
    if str_equal(key, "screenshot") {
        return Some("Screenshot");
    }
    if str_equal(key, "logcat") {
        return Some("Logcat");
    }
    if str_equal(key, "webview") {
        return Some("WebView");
    }
    if str_equal(key, "assistant") {
        return Some("AI Assistant");
    }
    if str_equal(key, "select_device") {
        return Some("Select a device");
    }
    if str_equal(key, "no_device") {
        return Some("No connected devices");
    }
    if str_equal(key, "refresh") {
        return Some("Refresh");
    }
    None
}

/// English catalog, entries 41 to 80 of the catalog, first match wins.
pub open spec fn en_block_1(key: Seq<char>) -> Option<Seq<char>> {
    if key == "stop"@ {
        Some("Stop"@)
    } else if key == "start"@ {
        Some("Start"@)
    } else if key == "device_manager"@ {
        Some("Device Manager"@)
    } else if key == "diagnostics"@ {
        Some("ADB Info"@)
    } else if key == "appearance"@ {
        Some("Appearance"@)
    } else if key == "theme"@ {
        Some("Theme"@)
    } else if key == "language"@ {
        Some("Language"@)
    } else if key == "open"@ {
        Some("Open"@)
    } else if key == "details"@ {
        Some("Details"@)
    } else if key == "hide"@ {
        Some("Hide"@)
    } else if key == "adb_executable"@ {
        Some("ADB executable"@)
    } else if key == "adb.not_found"@ {
        Some("ADB was not found"@)
    } else if key == "adb.fadb_adb_invalid"@ {
        Some("The FADB_ADB environment variable points to a missing file"@)
    } else if key == "adb_download"@ {
        Some("Official download"@)
    } else if key == "adb_download_link"@ {
        Some("developer.android.com"@)
    } else if key == "version"@ {
        Some("Version"@)
    } else if key == "detected_devices"@ {
        Some("Detected devices"@)
    } else if key == "unknown"@ {
        Some("Unknown"@)
    } else if key == "adb_not_available"@ {
        Some("Not available; fake fallback may be active"@)
    } else if key == "adb_env_hint"@ {
        Some("Set FADB_ADB to choose an explicit adb executable. Set FADB_FAKE=1 for deterministic development data."@)
    } else if key == "coming_soon"@ {
        Some("Planned for a later milestone"@)
    } else if key == "explicit_selection"@ {
        Some("Fadb never selects a device automatically, preventing accidental operations."@)
    } else if key == "loading"@ {
        Some("Loading device information…"@)
    } else if key == "light"@ {
        Some("Light"@)
    } else if key == "dark"@ {
        Some("Dark"@)
    } else if key == "settings"@ {
        Some("Settings"@)
    } else if key == "about"@ {
        Some("About"@)
    } else if key == "settings.check_updates"@ {
        Some("Check for updates"@)
    } else if key == "settings.auto_check_updates"@ {
        Some("Check for updates at startup"@)
    } else if key == "update.checking"@ {
        Some("Checking for updates…"@)
    } else if key == "update.up_to_date"@ {
        Some("Fadb is up to date"@)
    } else if key == "update.available"@ {
        Some("New version available"@)
    } else if key == "update.open_releases"@ {
        Some("Open release page"@)
    } else if key == "update.check_failed"@ {
        Some("Update check failed"@)
    } else if key == "update.check_failed_hint"@ {
        Some("Could not reach GitHub. Make sure your system proxy is up (or set https_proxy before launching), then retry."@)
    } else if key == "close"@ {
        Some("Close"@)
    } else if key == "fake"@ {
        Some("Fake device"@)
    } else if key == "connect_android"@ {
        Some("Connect an Android device"@)
    } else if key == "ip_host"@ {
        Some("IP / host"@)
    } else if key == "port"@ {
        Some("Port"@)
    } else {
        None
    }
}

/// Looks `key` up in block 1 of the english catalog.
fn lookup_en_block_1(key: &str) -> (found: Option<&'static str>)
    ensures
        match found {
            Some(t) => en_block_1(key@) == Some(t@),
            None => en_block_1(key@) is None,
        },
{
    if str_equal(key, "stop") {
        return Some("Stop");
    }
    if str_equal(key, "start") {
        return Some("Start");
    }
    if str_equal(key, "device_manager") {
        return Some("Device Manager");
    }
    if str_equal(key, "diagnostics") {
        return Some("ADB Info");
    }
    if str_equal(key, "appearance") {
        return Some("Appearance");
    }
    if str_equal(key, "theme") {
        return Some("Theme");
    }
    if str_equal(key, "language") {
        return Some("Language");
    }
    if str_equal(key, "open") {
        return Some("Open");
    }
    if str_equal(key, "details") {
        return Some("Details");
    }
    if str_equal(key, "hide") {
        return Some("Hide");
    }
    if str_equal(key, "adb_executable") {
        return Some("ADB executable");
    }
    if str_equal(key, "adb.not_found") {
        return Some("ADB was not found");
    }
    if str_equal(key, "adb.fadb_adb_invalid") {
        return Some("The FADB_ADB environment variable points to a missing file");
    }
    if str_equal(key, "adb_download") {
        return Some("Official download");
    }
    if str_equal(key, "adb_download_link") {
        return Some("developer.android.com");
    }
    if str_equal(key, "version") {
        return Some("Version");
    }
    if str_equal(key, "detected_devices") {
        return Some("Detected devices");
    }
    if str_equal(key, "unknown") {
        return Some("Unknown");
    }
    if str_equal(key, "adb_not_available") {
        return Some("Not available; fake fallback may be active");
    }
    if str_equal(key, "adb_env_hint") {
        return Some("Set FADB_ADB to choose an explicit adb executable. Set FADB_FAKE=1 for deterministic development data.");
    }
    if str_equal(key, "coming_soon") {
        return Some("Planned for a later milestone");
    }
    if str_equal(key, "explicit_selection") {
        return Some("Fadb never selects a device automatically, preventing accidental operations.");
    }
    if str_equal(key, "loading") {
        return Some("Loading device information…");
    }
    if str_equal(key, "light") {
        return Some("Light");
    }
    if str_equal(key, "dark") {
        return Some("Dark");
    }
    if str_equal(key, "settings") {
        return Some("Settings");
    }
    if str_equal(key, "about") {
        return Some("About");
    }
    if str_equal(key, "settings.check_updates") {
        return Some("Check for updates");
    }
    if str_equal(key, "settings.auto_check_updates") {
        return Some("Check for updates at startup");
    }
    if str_equal(key, "update.checking") {
        return Some("Checking for updates…");
    }
    if str_equal(key, "update.up_to_date") {
        return Some("Fadb is up to date");
    }
    if str_equal(key, "update.available") {
        return Some("New version available");
    }
    if str_equal(key, "update.open_releases") {
        return Some("Open release page");
    }
    if str_equal(key, "update.check_failed") {
        return Some("Update check failed");
    }
    if str_equal(key, "update.check_failed_hint") {
        return Some("Could not reach GitHub. Make sure your system proxy is up (or set https_proxy before launching), then retry.");
    }
    if str_equal(key, "close") {
        return Some("Close");
    }
    if str_equal(key, "fake") {
        return Some("Fake device");
    }
    if str_equal(key, "connect_android") {
        return Some("Connect an Android device");
    }
    if str_equal(key, "ip_host") {
        return Some("IP / host");
    }
    if str_equal(key, "port") {
        return Some("Port");
    }
    None
}

/// English catalog, entries 81 to 120 of the catalog, first match wins.
pub open spec fn en_block_2(key: Seq<char>) -> Option<Seq<char>> {
    if key == "connect"@ {
        Some("Connect"@)
    } else if key == "disconnect"@ {
        Some("Disconnect"@)
    } else if key == "connecting"@ {
        Some("Connecting"@)
    } else if key == "recent_network_devices"@ {
        Some("Recent network devices"@)
    } else if key == "forget"@ {
        Some("Forget"@)
    } else if key == "connected_devices"@ {
        Some("Connected devices"@)
    } else if key == "model"@ {
        Some("Model"@)
    } else if key == "serial"@ {
        Some("Serial"@)
    } else if key == "state"@ {
        Some("State"@)
    } else if key == "product"@ {
        Some("Product"@)
    } else if key == "action"@ {
        Some("Action"@)
    } else if key == "select"@ {
        Some("Select"@)
    } else if key == "process_snapshot_hint"@ {
        Some("Refreshes every 3 seconds"@)
    } else if key == "applications_hint"@ {
        Some("Lists the apps installed on the device; third-party only by default."@)
    } else if key == "app_filter_third"@ {
        Some("Third-party"@)
    } else if key == "app_filter_system"@ {
        Some("System apps"@)
    } else if key == "app_filter_all"@ {
        Some("All"@)
    } else if key == "apps_search_hint"@ {
        Some("Search packages…"@)
    } else if key == "no_applications"@ {
        Some("No applications returned"@)
    } else if key == "app_badge_system"@ {
        Some("System"@)
    } else if key == "app_badge_frozen"@ {
        Some("Frozen"@)
    } else if key == "app_details_hint"@ {
        Some("Select an app on the left to see its details"@)
    } else if key == "app_info"@ {
        Some("App info"@)
    } else if key == "app_version"@ {
        Some("Version"@)
    } else if key == "app_target_sdk"@ {
        Some("Target SDK"@)
    } else if key == "app_min_sdk"@ {
        Some("Min SDK"@)
    } else if key == "app_installer"@ {
        Some("Installer"@)
    } else if key == "app_first_install"@ {
        Some("First installed"@)
    } else if key == "app_last_update"@ {
        Some("Last updated"@)
    } else if key == "app_apk_path"@ {
        Some("APK path"@)
    } else if key == "app_permissions"@ {
        Some("Requested permissions"@)
    } else if key == "app_permissions_none"@ {
        Some("No requested permissions"@)
    } else if key == "app_details_unavailable"@ {
        Some("Could not read the app details"@)
    } else if key == "app_open"@ {
        Some("Open"@)
    } else if key == "app_force_stop"@ {
        Some("Force stop"@)
    } else if key == "app_clear_data"@ {
        Some("Clear data"@)
    } else if key == "app_freeze"@ {
        Some("Freeze"@)
    } else if key == "app_unfreeze"@ {
        Some("Unfreeze"@)
    } else if key == "app_uninstall"@ {
        Some("Uninstall"@)
    } else if key == "app_action_running"@ {
        Some("Running"@)
    } else {
        None
    }
}

/// Looks `key` up in block 2 of the english catalog.
fn lookup_en_block_2(key: &str) -> (found: Option<&'static str>)
    ensures
        match found {
            Some(t) => en_block_2(key@) == Some(t@),
            None => en_block_2(key@) is None,
        },
{
    if str_equal(key, "connect") {
        return Some("Connect");
    }
    if str_equal(key, "disconnect") {
        return Some("Disconnect");
    }
    if str_equal(key, "connecting") {
        return Some("Connecting");
    }
    if str_equal(key, "recent_network_devices") {
        return Some("Recent network devices");
    }
    if str_equal(key, "forget") {
        return Some("Forget");
    }
    if str_equal(key, "connected_devices") {
        return Some("Connected devices");
    }
    if str_equal(key, "model") {
        return Some("Model");
    }
    if str_equal(key, "serial") {
        return Some("Serial");
    }
    if str_equal(key, "state") {
        return Some("State");
    }
    if str_equal(key, "product") {
        return Some("Product");
    }
    if str_equal(key, "action") {
        return Some("Action");
    }
    if str_equal(key, "select") {
        return Some("Select");
    }
    if str_equal(key, "process_snapshot_hint") {
        return Some("Refreshes every 3 seconds");
    }
    if str_equal(key, "applications_hint") {
        return Some("Lists the apps installed on the device; third-party only by default.");
    }
    if str_equal(key, "app_filter_third") {
        return Some("Third-party");
    }
    if str_equal(key, "app_filter_system") {
        return Some("System apps");
    }
    if str_equal(key, "app_filter_all") {
        return Some("All");
    }
    if str_equal(key, "apps_search_hint") {
        return Some("Search packages…");
    }
    if str_equal(key, "no_applications") {
        return Some("No applications returned");
    }
    if str_equal(key, "app_badge_system") {
        return Some("System");
    }
    if str_equal(key, "app_badge_frozen") {
        return Some("Frozen");
    }
    if str_equal(key, "app_details_hint") {
        return Some("Select an app on the left to see its details");
    }
    if str_equal(key, "app_info") {
        return Some("App info");
    }
    if str_equal(key, "app_version") {
        return Some("Version");
    }
    if str_equal(key, "app_target_sdk") {
        return Some("Target SDK");
    }
    if str_equal(key, "app_min_sdk") {
        return Some("Min SDK");
    }
    if str_equal(key, "app_installer") {
        return Some("Installer");
    }
    if str_equal(key, "app_first_install") {
        return Some("First installed");
    }
    if str_equal(key, "app_last_update") {
        return Some("Last updated");
    }
    if str_equal(key, "app_apk_path") {
        return Some("APK path");
    }
    if str_equal(key, "app_permissions") {
        return Some("Requested permissions");
    }
    if str_equal(key, "app_permissions_none") {
        return Some("No requested permissions");
    }
    if str_equal(key, "app_details_unavailable") {
        return Some("Could not read the app details");
    }
    if str_equal(key, "app_open") {
        return Some("Open");
    }
    if str_equal(key, "app_force_stop") {
        return Some("Force stop");
    }
    if str_equal(key, "app_clear_data") {
        return Some("Clear data");
    }
    if str_equal(key, "app_freeze") {
        return Some("Freeze");
    }
    if str_equal(key, "app_unfreeze") {
        return Some("Unfreeze");
    }
    if str_equal(key, "app_uninstall") {
        return Some("Uninstall");
    }
    if str_equal(key, "app_action_running") {
        return Some("Running");
    }
    None
}

/// English catalog, entries 121 to 160 of the catalog, first match wins.
pub open spec fn en_block_3(key: Seq<char>) -> Option<Seq<char>> {
    if key == "app_confirm_clear_title"@ {
        Some("Clear app data?"@)
    } else if key == "app_confirm_clear_body"@ {
        Some("All data of this app (settings, accounts, databases) will be erased. This cannot be undone."@)
    } else if key == "app_confirm_uninstall_title"@ {
        Some("Uninstall?"@)
    } else if key == "app_confirm_uninstall_body"@ {
        Some("The app will be uninstalled for the current user. For system apps this removes it only for the current user."@)
    } else if key == "confirm"@ {
        Some("Confirm"@)
    } else if key == "cancel"@ {
        Some("Cancel"@)
    } else if key == "files_select_device"@ {
        Some("Select an online device to browse its files."@)
    } else if key == "files_back"@ {
        Some("Back"@)
    } else if key == "files_up"@ {
        Some("Up"@)
    } else if key == "files_go"@ {
        Some("Go"@)
    } else if key == "files_new_folder"@ {
        Some("New folder"@)
    } else if key == "files_upload"@ {
        Some("Upload"@)
    } else if key == "files_upload_dialog"@ {
        Some("Choose a file to upload"@)
    } else if key == "files_upload_invalid_name"@ {
        Some("Upload failed: the local file name contains invalid characters."@)
    } else if key == "files_download"@ {
        Some("Download"@)
    } else if key == "files_download_dialog"@ {
        Some("Save the downloaded file"@)
    } else if key == "files_cancel_transfer"@ {
        Some("Cancel transfer"@)
    } else if key == "files_loading"@ {
        Some("Loading directory…"@)
    } else if key == "files_name"@ {
        Some("Name"@)
    } else if key == "files_type"@ {
        Some("Type"@)
    } else if key == "files_size"@ {
        Some("Size"@)
    } else if key == "files_modified"@ {
        Some("Modified"@)
    } else if key == "files_kind_file"@ {
        Some("File"@)
    } else if key == "files_kind_directory"@ {
        Some("Folder"@)
    } else if key == "files_kind_symlink"@ {
        Some("Symlink"@)
    } else if key == "files_kind_other"@ {
        Some("Other"@)
    } else if key == "files_rename"@ {
        Some("Rename"@)
    } else if key == "files_delete"@ {
        Some("Delete"@)
    } else if key == "files_transferring"@ {
        Some("Transferring…"@)
    } else if key == "files_overwrite_remote_title"@ {
        Some("Overwrite remote file?"@)
    } else if key == "files_overwrite_local_title"@ {
        Some("Overwrite local file?"@)
    } else if key == "files_overwrite_body"@ {
        Some("\"{}\" already exists. Replace it?"@)
    } else if key == "files_replace"@ {
        Some("Replace"@)
    } else if key == "files_delete_title"@ {
        Some("Delete entry?"@)
    } else if key == "files_delete_body"@ {
        Some("The selected entry will be deleted. This cannot be undone."@)
    } else if key == "files_invalid_name"@ {
        Some("The remote name or selection is invalid."@)
    } else if key == "files_enter"@ {
        Some("Enter"@)
    } else if key == "files_copy_path"@ {
        Some("Copy path"@)
    } else if key == "screenshot_capture"@ {
        Some("Capture"@)
    } else if key == "screenshot_retake"@ {
        Some("Retake"@)
    } else {
        None
    }
}

/// Looks `key` up in block 3 of the english catalog.
fn lookup_en_block_3(key: &str) -> (found: Option<&'static str>)
    ensures
        match found {
            Some(t) => en_block_3(key@) == Some(t@),
            None => en_block_3(key@) is None,
        },
{
    if str_equal(key, "app_confirm_clear_title") {
        return Some("Clear app data?");
    }
    if str_equal(key, "app_confirm_clear_body") {
        return Some("All data of this app (settings, accounts, databases) will be erased. This cannot be undone.");
    }
    if str_equal(key, "app_confirm_uninstall_title") {
        return Some("Uninstall?");
    }
    if str_equal(key, "app_confirm_uninstall_body") {
        return Some("The app will be uninstalled for the current user. For system apps this removes it only for the current user.");
    }
    if str_equal(key, "confirm") {
        return Some("Confirm");
    }
    if str_equal(key, "cancel") {
        return Some("Cancel");
    }
    if str_equal(key, "files_select_device") {
        return Some("Select an online device to browse its files.");
    }
    if str_equal(key, "files_back") {
        return Some("Back");
    }
    if str_equal(key, "files_up") {
        return Some("Up");
    }
    if str_equal(key, "files_go") {
        return Some("Go");
    }
    if str_equal(key, "files_new_folder") {
        return Some("New folder");
    }
    if str_equal(key, "files_upload") {
        return Some("Upload");
    }
    if str_equal(key, "files_upload_dialog") {
        return Some("Choose a file to upload");
    }
    if str_equal(key, "files_upload_invalid_name") {
        return Some("Upload failed: the local file name contains invalid characters.");
    }
    if str_equal(key, "files_download") {
        return Some("Download");
    }
    if str_equal(key, "files_download_dialog") {
        return Some("Save the downloaded file");
    }
    if str_equal(key, "files_cancel_transfer") {
        return Some("Cancel transfer");
    }
    if str_equal(key, "files_loading") {
        return Some("Loading directory…");
    }
    if str_equal(key, "files_name") {
        return Some("Name");
    }
    if str_equal(key, "files_type") {
        return Some("Type");
    }
    if str_equal(key, "files_size") {
        return Some("Size");
    }
    if str_equal(key, "files_modified") {
        return Some("Modified");
    }
    if str_equal(key, "files_kind_file") {
        return Some("File");
    }
    if str_equal(key, "files_kind_directory") {
        return Some("Folder");
    }
    if str_equal(key, "files_kind_symlink") {
        return Some("Symlink");
    }
    if str_equal(key, "files_kind_other") {
        return Some("Other");
    }
    if str_equal(key, "files_rename") {
        return Some("Rename");
    }
    if str_equal(key, "files_delete") {
        return Some("Delete");
    }
    if str_equal(key, "files_transferring") {
        return Some("Transferring…");
    }
    if str_equal(key, "files_overwrite_remote_title") {
        return Some("Overwrite remote file?");
    }
    if str_equal(key, "files_overwrite_local_title") {
        return Some("Overwrite local file?");
    }
    if str_equal(key, "files_overwrite_body") {
        return Some("\"{}\" already exists. Replace it?");
    }
    if str_equal(key, "files_replace") {
        return Some("Replace");
    }
    if str_equal(key, "files_delete_title") {
        return Some("Delete entry?");
    }
    if str_equal(key, "files_delete_body") {
        return Some("The selected entry will be deleted. This cannot be undone.");
    }
    if str_equal(key, "files_invalid_name") {
        return Some("The remote name or selection is invalid.");
    }
    if str_equal(key, "files_enter") {
        return Some("Enter");
    }
    if str_equal(key, "files_copy_path") {
        return Some("Copy path");
    }
    if str_equal(key, "screenshot_capture") {
        return Some("Capture");
    }
    if str_equal(key, "screenshot_retake") {
        return Some("Retake");
    }
    None
}

/// English catalog, entries 161 to 200 of the catalog, first match wins.
pub open spec fn en_block_4(key: Seq<char>) -> Option<Seq<char>> {
    if key == "screenshot_save_png"@ {
        Some("Save PNG"@)
    } else if key == "screenshot_fit"@ {
        Some("Fit"@)
    } else if key == "screenshot_actual"@ {
        Some("100%"@)
    } else if key == "screenshot_copy_image"@ {
        Some("Copy image"@)
    } else if key == "screenshot_capturing"@ {
        Some("Capturing and decoding PNG…"@)
    } else if key == "screenshot_hint"@ {
        Some("Select an online device, then capture its current screen."@)
    } else if key == "screenshot_saved"@ {
        Some("Saved to "@)
    } else if key == "screenshot_pixels"@ {
        Some("pixels"@)
    } else if key == "shell_title"@ {
        Some("Interactive Shell"@)
    } else if key == "shell_status_disconnected"@ {
        Some("Disconnected"@)
    } else if key == "shell_status_connecting"@ {
        Some("Connecting"@)
    } else if key == "shell_status_connected"@ {
        Some("Connected"@)
    } else if key == "shell_status_closing"@ {
        Some("Closing"@)
    } else if key == "shell_status_exited"@ {
        Some("Exited"@)
    } else if key == "shell_status_failed"@ {
        Some("Failed"@)
    } else if key == "shell_hint"@ {
        Some("Expert interface - Android PTY - remote stderr usually merged - panel size set on connect"@)
    } else if key == "shell_disconnect"@ {
        Some("Disconnect"@)
    } else if key == "shell_clear_display"@ {
        Some("Clear display"@)
    } else if key == "shell_copy_visible"@ {
        Some("Copy visible"@)
    } else if key == "shell_copy_selection"@ {
        Some("Copy selection"@)
    } else if key == "shell_paste"@ {
        Some("Paste"@)
    } else if key == "shell_focus_terminal"@ {
        Some("Focus terminal"@)
    } else if key == "shell_select_online"@ {
        Some("Select an online device before connecting."@)
    } else if key == "shell_empty_hint"@ {
        Some("Click Connect, then focus this terminal to type."@)
    } else if key == "quick_commands_tag"@ {
        Some("Quick commands"@)
    } else if key == "quick_commands_more"@ {
        Some("More quick commands"@)
    } else if key == "quick_commands_manage"@ {
        Some("Manage"@)
    } else if key == "quick_commands_manage_title"@ {
        Some("Manage Quick Commands"@)
    } else if key == "quick_commands_manage_hint"@ {
        Some("Save frequently used commands and send them with one click on the bar; import/export as JSON."@)
    } else if key == "quick_commands_add"@ {
        Some("Add"@)
    } else if key == "quick_commands_delete"@ {
        Some("Delete"@)
    } else if key == "quick_commands_label"@ {
        Some("Name"@)
    } else if key == "quick_commands_command"@ {
        Some("Command"@)
    } else if key == "quick_commands_run"@ {
        Some("Run"@)
    } else if key == "quick_commands_run_tip"@ {
        Some("When checked, clicking the button appends Enter and runs the command; otherwise it only types it."@)
    } else if key == "quick_commands_no_run_tip"@ {
        Some("Types the command without running it"@)
    } else if key == "quick_commands_up"@ {
        Some("Up"@)
    } else if key == "quick_commands_down"@ {
        Some("Down"@)
    } else if key == "quick_commands_import"@ {
        Some("Import…"@)
    } else if key == "quick_commands_export"@ {
        Some("Export…"@)
    } else {
        None
    }
}

/// Looks `key` up in block 4 of the english catalog.
fn lookup_en_block_4(key: &str) -> (found: Option<&'static str>)
    ensures
        match found {
            Some(t) => en_block_4(key@) == Some(t@),
            None => en_block_4(key@) is None,
        },
{
    if str_equal(key, "screenshot_save_png") {
        return Some("Save PNG");
    }
    if str_equal(key, "screenshot_fit") {
        return Some("Fit");
    }
    if str_equal(key, "screenshot_actual") {
        return Some("100%");
    }
    if str_equal(key, "screenshot_copy_image") {
        return Some("Copy image");
    }
    if str_equal(key, "screenshot_capturing") {
        return Some("Capturing and decoding PNG…");
    }
    if str_equal(key, "screenshot_hint") {
        return Some("Select an online device, then capture its current screen.");
    }
    if str_equal(key, "screenshot_saved") {
        return Some("Saved to ");
    }
    if str_equal(key, "screenshot_pixels") {
        return Some("pixels");
    }
    if str_equal(key, "shell_title") {
        return Some("Interactive Shell");
    }
    if str_equal(key, "shell_status_disconnected") {
        return Some("Disconnected");
    }
    if str_equal(key, "shell_status_connecting") {
        return Some("Connecting");
    }
    if str_equal(key, "shell_status_connected") {
        return Some("Connected");
    }
    if str_equal(key, "shell_status_closing") {
        return Some("Closing");
    }
    if str_equal(key, "shell_status_exited") {
        return Some("Exited");
    }
    if str_equal(key, "shell_status_failed") {
        return Some("Failed");
    }
    if str_equal(key, "shell_hint") {
        return Some("Expert interface - Android PTY - remote stderr usually merged - panel size set on connect");
    }
    if str_equal(key, "shell_disconnect") {
        return Some("Disconnect");
    }
    if str_equal(key, "shell_clear_display") {
        return Some("Clear display");
    }
    if str_equal(key, "shell_copy_visible") {
        return Some("Copy visible");
    }
    if str_equal(key, "shell_copy_selection") {
        return Some("Copy selection");
    }
    if str_equal(key, "shell_paste") {
        return Some("Paste");
    }
    if str_equal(key, "shell_focus_terminal") {
        return Some("Focus terminal");
    }
    if str_equal(key, "shell_select_online") {
        return Some("Select an online device before connecting.");
    }
    if str_equal(key, "shell_empty_hint") {
        return Some("Click Connect, then focus this terminal to type.");
    }
    if str_equal(key, "quick_commands_tag") {
        return Some("Quick commands");
    }
    if str_equal(key, "quick_commands_more") {
        return Some("More quick commands");
    }
    if str_equal(key, "quick_commands_manage") {
        return Some("Manage");
    }
    if str_equal(key, "quick_commands_manage_title") {
        return Some("Manage Quick Commands");
    }
    if str_equal(key, "quick_commands_manage_hint") {
        return Some("Save frequently used commands and send them with one click on the bar; import/export as JSON.");
    }
    if str_equal(key, "quick_commands_add") {
        return Some("Add");
    }
    if str_equal(key, "quick_commands_delete") {
        return Some("Delete");
    }
    if str_equal(key, "quick_commands_label") {
        return Some("Name");
    }
    if str_equal(key, "quick_commands_command") {
        return Some("Command");
    }
    if str_equal(key, "quick_commands_run") {
        return Some("Run");
    }
    if str_equal(key, "quick_commands_run_tip") {
        return Some("When checked, clicking the button appends Enter and runs the command; otherwise it only types it.");
    }
    if str_equal(key, "quick_commands_no_run_tip") {
        return Some("Types the command without running it");
    }
    if str_equal(key, "quick_commands_up") {
        return Some("Up");
    }
    if str_equal(key, "quick_commands_down") {
        return Some("Down");
    }
    if str_equal(key, "quick_commands_import") {
        return Some("Import…");
    }
    if str_equal(key, "quick_commands_export") {
        return Some("Export…");
    }
    None
}

/// English catalog, entries 201 to 240 of the catalog, first match wins.
pub open spec fn en_block_5(key: Seq<char>) -> Option<Seq<char>> {
    if key == "quick_commands_imported_prefix"@ {
        Some("Imported"@)
    } else if key == "quick_commands_imported_suffix"@ {
        Some("quick command(s)."@)
    } else if key == "quick_commands_exported_prefix"@ {
        Some("Exported to:"@)
    } else if key == "quick_commands_failed"@ {
        Some("Operation failed"@)
    } else if key == "quick_commands_empty"@ {
        Some("No quick commands yet. Click Add below to create one."@)
    } else if key == "logcat_start"@ {
        Some("Start capture"@)
    } else if key == "logcat_stop"@ {
        Some("Stop"@)
    } else if key == "logcat_pause"@ {
        Some("Pause"@)
    } else if key == "logcat_resume"@ {
        Some("Resume"@)
    } else if key == "logcat_clear"@ {
        Some("Clear"@)
    } else if key == "logcat_save"@ {
        Some("Save log"@)
    } else if key == "logcat_autoscroll"@ {
        Some("Auto-scroll"@)
    } else if key == "logcat_level"@ {
        Some("Level"@)
    } else if key == "logcat_level_all"@ {
        Some("All"@)
    } else if key == "logcat_streaming"@ {
        Some("Capturing"@)
    } else if key == "logcat_starting"@ {
        Some("Connecting to logcat…"@)
    } else if key == "logcat_idle"@ {
        Some("Not capturing"@)
    } else if key == "logcat_paused"@ {
        Some("Paused (new lines are dropped)"@)
    } else if key == "logcat_search_hint"@ {
        Some("Search tag or content…"@)
    } else if key == "logcat_line_count"@ {
        Some("Showing {visible} / {total} lines"@)
    } else if key == "layout_loading"@ {
        Some("Capturing view hierarchy… (busy screens may take seconds)"@)
    } else if key == "layout_empty"@ {
        Some("No snapshot yet. Click Refresh to capture the current screen."@)
    } else if key == "layout_export"@ {
        Some("Export XML"@)
    } else if key == "layout_search_hint"@ {
        Some("Search class / id / text…"@)
    } else if key == "layout_node_count"@ {
        Some("Nodes"@)
    } else if key == "layout_attributes"@ {
        Some("Attributes"@)
    } else if key == "layout_no_selection"@ {
        Some("Select a node on the left to inspect it."@)
    } else if key == "layout_copy_hint"@ {
        Some("Copy a text summary of this subtree"@)
    } else if key == "attr_class"@ {
        Some("Class"@)
    } else if key == "attr_resource_id"@ {
        Some("Resource ID"@)
    } else if key == "attr_text"@ {
        Some("Text"@)
    } else if key == "attr_content_desc"@ {
        Some("Content description"@)
    } else if key == "attr_package"@ {
        Some("Package"@)
    } else if key == "attr_bounds"@ {
        Some("Bounds (x, y, w, h)"@)
    } else if key == "attr_children"@ {
        Some("Children"@)
    } else if key == "attr_clickable"@ {
        Some("Clickable"@)
    } else if key == "attr_scrollable"@ {
        Some("Scrollable"@)
    } else if key == "attr_enabled"@ {
        Some("Enabled"@)
    } else if key == "attr_selected"@ {
        Some("Selected"@)
    } else if key == "attr_focused"@ {
        Some("Focused"@)
    } else {
        None
    }
}

/// Looks `key` up in block 5 of the english catalog.
fn lookup_en_block_5(key: &str) -> (found: Option<&'static str>)
    ensures
        match found {
            Some(t) => en_block_5(key@) == Some(t@),
            None => en_block_5(key@) is None,
        },
{
    if str_equal(key, "quick_commands_imported_prefix") {
        return Some("Imported");
    }
    if str_equal(key, "quick_commands_imported_suffix") {
        return Some("quick command(s).");
    }
    if str_equal(key, "quick_commands_exported_prefix") {
        return Some("Exported to:");
    }
    if str_equal(key, "quick_commands_failed") {
        return Some("Operation failed");
    }
    if str_equal(key, "quick_commands_empty") {
        return Some("No quick commands yet. Click Add below to create one.");
    }
    if str_equal(key, "logcat_start") {
        return Some("Start capture");
    }
    if str_equal(key, "logcat_stop") {
        return Some("Stop");
    }
    if str_equal(key, "logcat_pause") {
        return Some("Pause");
    }
    if str_equal(key, "logcat_resume") {
        return Some("Resume");
    }
    if str_equal(key, "logcat_clear") {
        return Some("Clear");
    }
    if str_equal(key, "logcat_save") {
        return Some("Save log");
    }
    if str_equal(key, "logcat_autoscroll") {
        return Some("Auto-scroll");
    }
    if str_equal(key, "logcat_level") {
        return Some("Level");
    }
    if str_equal(key, "logcat_level_all") {
        return Some("All");
    }
    if str_equal(key, "logcat_streaming") {
        return Some("Capturing");
    }
    if str_equal(key, "logcat_starting") {
        return Some("Connecting to logcat…");
    }
    if str_equal(key, "logcat_idle") {
        return Some("Not capturing");
    }
    if str_equal(key, "logcat_paused") {
        return Some("Paused (new lines are dropped)");
    }
    if str_equal(key, "logcat_search_hint") {
        return Some("Search tag or content…");
    }
    if str_equal(key, "logcat_line_count") {
        return Some("Showing {visible} / {total} lines");
    }
    if str_equal(key, "layout_loading") {
        return Some("Capturing view hierarchy… (busy screens may take seconds)");
    }
    if str_equal(key, "layout_empty") {
        return Some("No snapshot yet. Click Refresh to capture the current screen.");
    }
    if str_equal(key, "layout_export") {
        return Some("Export XML");
    }
    if str_equal(key, "layout_search_hint") {
        return Some("Search class / id / text…");
    }
    if str_equal(key, "layout_node_count") {
        return Some("Nodes");
    }
    if str_equal(key, "layout_attributes") {
        return Some("Attributes");
    }
    if str_equal(key, "layout_no_selection") {
        return Some("Select a node on the left to inspect it.");
    }
    if str_equal(key, "layout_copy_hint") {
        return Some("Copy a text summary of this subtree");
    }
    if str_equal(key, "attr_class") {
        return Some("Class");
    }
    if str_equal(key, "attr_resource_id") {
        return Some("Resource ID");
    }
    if str_equal(key, "attr_text") {
        return Some("Text");
    }
    if str_equal(key, "attr_content_desc") {
        return Some("Content description");
    }
    if str_equal(key, "attr_package") {
        return Some("Package");
    }
    if str_equal(key, "attr_bounds") {
        return Some("Bounds (x, y, w, h)");
    }
    if str_equal(key, "attr_children") {
        return Some("Children");
    }
    if str_equal(key, "attr_clickable") {
        return Some("Clickable");
    }
    if str_equal(key, "attr_scrollable") {
        return Some("Scrollable");
    }
    if str_equal(key, "attr_enabled") {
        return Some("Enabled");
    }
    if str_equal(key, "attr_selected") {
        return Some("Selected");
    }
    if str_equal(key, "attr_focused") {
        return Some("Focused");
    }
    None
}

/// English catalog, entries 241 to 280 of the catalog, first match wins.
pub open spec fn en_block_6(key: Seq<char>) -> Option<Seq<char>> {
    if key == "attr_yes"@ {
        Some("Yes"@)
    } else if key == "attr_no"@ {
        Some("No"@)
    } else if key == "attr_disabled"@ {
        Some("Disabled"@)
    } else if key == "copy"@ {
        Some("Copy"@)
    } else if key == "webview_refresh_sockets"@ {
        Some("Refresh debug services"@)
    } else if key == "webview_sockets"@ {
        Some("Debug services (DevTools sockets)"@)
    } else if key == "webview_pages"@ {
        Some("Debuggable pages"@)
    } else if key == "webview_none_found"@ {
        Some("No WebView debug service found. The app must enable setWebContentsDebuggingEnabled(true) and run an active WebView/browser."@)
    } else if key == "webview_select_socket"@ {
        Some("Select a debug service to list its pages."@)
    } else if key == "webview_no_pages"@ {
        Some("No debuggable pages on this debug service."@)
    } else if key == "webview_col_title"@ {
        Some("Title"@)
    } else if key == "webview_col_url"@ {
        Some("URL"@)
    } else if key == "webview_col_type"@ {
        Some("Type"@)
    } else if key == "webview_col_action"@ {
        Some("Actions"@)
    } else if key == "webview_open_page"@ {
        Some("Open page"@)
    } else if key == "webview_open_devtools"@ {
        Some("Open DevTools"@)
    } else if key == "webview_copy_url"@ {
        Some("Copy debug URL"@)
    } else if key == "webview_debug_hint"@ {
        Some("DevTools opens in your browser through a local port forward (DevTools protocol); forwards are cleaned up when the service list refreshes."@)
    } else if key == "applications_install"@ {
        Some("Install APK…"@)
    } else if key == "applications_install_running"@ {
        Some("Installing APK…"@)
    } else if key == "applications_install_ok"@ {
        Some("APK installed"@)
    } else if key == "applications_drop_install"@ {
        Some("Drop to install the APK"@)
    } else if key == "applications.install_no_reason"@ {
        Some("APK install failed"@)
    } else if key == "applications.drop_needs_device"@ {
        Some("Select a device before installing an APK"@)
    } else if key == "wireless"@ {
        Some("Wireless debugging"@)
    } else if key == "wireless_hint"@ {
        Some("Pair, switch to wireless mode, and discover LAN debug services."@)
    } else if key == "wireless_pair"@ {
        Some("Pair address"@)
    } else if key == "wireless_pair_go"@ {
        Some("Pair"@)
    } else if key == "wireless_pairing"@ {
        Some("Pairing…"@)
    } else if key == "wireless_pair_ok"@ {
        Some("Paired; now connect with the device IP."@)
    } else if key == "wireless_code"@ {
        Some("Pairing code"@)
    } else if key == "wireless_tcpip"@ {
        Some("Wireless mode"@)
    } else if key == "wireless_tcpip_running"@ {
        Some("Switching to wireless mode…"@)
    } else if key == "wireless_tcpip_ok"@ {
        Some("Switched to wireless mode; connect with the device IP."@)
    } else if key == "wireless_tcpip_hint"@ {
        Some("Switch the current device to network adb (port 5555), then connect by device IP."@)
    } else if key == "wireless_tcpip_need_device"@ {
        Some("Select a device first"@)
    } else if key == "wireless_mdns"@ {
        Some("Discover"@)
    } else if key == "wireless_mdns_hint"@ {
        Some("Lists the debug services currently advertised on the LAN."@)
    } else if key == "wireless_connect"@ {
        Some("Connect"@)
    } else if key == "wireless_none"@ {
        Some("No debug services discovered."@)
    } else {
        None
    }
}

/// Looks `key` up in block 6 of the english catalog.
fn lookup_en_block_6(key: &str) -> (found: Option<&'static str>)
    ensures
        match found {
            Some(t) => en_block_6(key@) == Some(t@),
            None => en_block_6(key@) is None,
        },
{
    if str_equal(key, "attr_yes") {
        return Some("Yes");
    }
    if str_equal(key, "attr_no") {
        return Some("No");
    }
    if str_equal(key, "attr_disabled") {
        return Some("Disabled");
    }
    if str_equal(key, "copy") {
        return Some("Copy");
    }
    if str_equal(key, "webview_refresh_sockets") {
        return Some("Refresh debug services");
    }
    if str_equal(key, "webview_sockets") {
        return Some("Debug services (DevTools sockets)");
    }
    if str_equal(key, "webview_pages") {
        return Some("Debuggable pages");
    }
    if str_equal(key, "webview_none_found") {
        return Some("No WebView debug service found. The app must enable setWebContentsDebuggingEnabled(true) and run an active WebView/browser.");
    }
    if str_equal(key, "webview_select_socket") {
        return Some("Select a debug service to list its pages.");
    }
    if str_equal(key, "webview_no_pages") {
        return Some("No debuggable pages on this debug service.");
    }
    if str_equal(key, "webview_col_title") {
        return Some("Title");
    }
    if str_equal(key, "webview_col_url") {
        return Some("URL");
    }
    if str_equal(key, "webview_col_type") {
        return Some("Type");
    }
    if str_equal(key, "webview_col_action") {
        return Some("Actions");
    }
    if str_equal(key, "webview_open_page") {
        return Some("Open page");
    }
    if str_equal(key, "webview_open_devtools") {
        return Some("Open DevTools");
    }
    if str_equal(key, "webview_copy_url") {
        return Some("Copy debug URL");
    }
    if str_equal(key, "webview_debug_hint") {
        return Some("DevTools opens in your browser through a local port forward (DevTools protocol); forwards are cleaned up when the service list refreshes.");
    }
    if str_equal(key, "applications_install") {
        return Some("Install APK…");
    }
    if str_equal(key, "applications_install_running") {
        return Some("Installing APK…");
    }
    if str_equal(key, "applications_install_ok") {
        return Some("APK installed");
    }
    if str_equal(key, "applications_drop_install") {
        return Some("Drop to install the APK");
    }
    if str_equal(key, "applications.install_no_reason") {
        return Some("APK install failed");
    }
    if str_equal(key, "applications.drop_needs_device") {
        return Some("Select a device before installing an APK");
    }
    if str_equal(key, "wireless") {
        return Some("Wireless debugging");
    }
    if str_equal(key, "wireless_hint") {
        return Some("Pair, switch to wireless mode, and discover LAN debug services.");
    }
    if str_equal(key, "wireless_pair") {
        return Some("Pair address");
    }
    if str_equal(key, "wireless_pair_go") {
        return Some("Pair");
    }
    if str_equal(key, "wireless_pairing") {
        return Some("Pairing…");
    }
    if str_equal(key, "wireless_pair_ok") {
        return Some("Paired; now connect with the device IP.");
    }
    if str_equal(key, "wireless_code") {
        return Some("Pairing code");
    }
    if str_equal(key, "wireless_tcpip") {
        return Some("Wireless mode");
    }
    if str_equal(key, "wireless_tcpip_running") {
        return Some("Switching to wireless mode…");
    }
    if str_equal(key, "wireless_tcpip_ok") {
        return Some("Switched to wireless mode; connect with the device IP.");
    }
    if str_equal(key, "wireless_tcpip_hint") {
        return Some("Switch the current device to network adb (port 5555), then connect by device IP.");
    }
    if str_equal(key, "wireless_tcpip_need_device") {
        return Some("Select a device first");
    }
    if str_equal(key, "wireless_mdns") {
        return Some("Discover");
    }
    if str_equal(key, "wireless_mdns_hint") {
        return Some("Lists the debug services currently advertised on the LAN.");
    }
    if str_equal(key, "wireless_connect") {
        return Some("Connect");
    }
    if str_equal(key, "wireless_none") {
        return Some("No debug services discovered.");
    }
    None
}

/// English catalog, entries 281 to 320 of the catalog, first match wins.
pub open spec fn en_block_7(key: Seq<char>) -> Option<Seq<char>> {
    if key == "mirror"@ {
        Some("Mirror"@)
    } else if key == "mirror_hint"@ {
        Some("Mirrors the selected device's live screen into this window (video only, no touch injection)."@)
    } else if key == "mirror_start"@ {
        Some("Start mirroring"@)
    } else if key == "mirror_stop"@ {
        Some("Stop mirroring"@)
    } else if key == "mirror_starting"@ {
        Some("Starting the on-device server…"@)
    } else if key == "mirror_running"@ {
        Some("Mirroring"@)
    } else if key == "mirror_native"@ {
        Some("Native resolution"@)
    } else if key == "mirror_need_device"@ {
        Some("Select an online device first"@)
    } else if key == "mirror_waiting"@ {
        Some("Waiting for the device video stream…"@)
    } else if key == "mirror_remote"@ {
        Some("Remote"@)
    } else if key == "mirror_key_power"@ {
        Some("Power"@)
    } else if key == "mirror_key_mute"@ {
        Some("Mute"@)
    } else if key == "mirror_key_play"@ {
        Some("Play"@)
    } else if key == "mirror_key_vol_up"@ {
        Some("Vol+"@)
    } else if key == "mirror_key_vol_down"@ {
        Some("Vol-"@)
    } else if key == "mirror_key_menu"@ {
        Some("Menu"@)
    } else if key == "mirror_key_home"@ {
        Some("Home"@)
    } else if key == "mirror_key_back"@ {
        Some("Back"@)
    } else if key == "mirror_record"@ {
        Some("Record"@)
    } else if key == "mirror_record_stop"@ {
        Some("Stop recording"@)
    } else if key == "mirror_recording"@ {
        Some("Recording"@)
    } else if key == "mirror_record_saved"@ {
        Some("Recording saved"@)
    } else if key == "mirror_need_mirror"@ {
        Some("Start mirroring first"@)
    } else if key == "mirror_record_frames"@ {
        Some("frames"@)
    } else if key == "mirror.jar_write_failed"@ {
        Some("Failed to write the mirror server temp file"@)
    } else if key == "mirror.push_failed"@ {
        Some("Failed to push the mirror server to the device"@)
    } else if key == "mirror.listen_failed"@ {
        Some("Failed to listen on a local port"@)
    } else if key == "mirror.forward_failed"@ {
        Some("Failed to set up the ADB port forward"@)
    } else if key == "mirror.shell_failed"@ {
        Some("Failed to start the on-device process"@)
    } else if key == "mirror.server_start_timeout"@ {
        Some("The on-device server did not start in time"@)
    } else if key == "mirror.stream_failed"@ {
        Some("Video stream error"@)
    } else if key == "mirror.codec_mismatch"@ {
        Some("The video stream is not H.264"@)
    } else if key == "mirror.record_empty"@ {
        Some("No frames were captured"@)
    } else if key == "mirror.record_not_running"@ {
        Some("No active mirroring session"@)
    } else if key == "mirror.record_write_failed"@ {
        Some("Failed to write the recording"@)
    } else if key == "performance_live_hint"@ {
        Some("Samples continuously, keeps the last 60 seconds"@)
    } else if key == "performance_waiting"@ {
        Some("Collecting performance data…"@)
    } else if key == "no_processes"@ {
        Some("No processes returned"@)
    } else if key == "processes_search_hint"@ {
        Some("Search name, PID, or user"@)
    } else if key == "processes_no_match"@ {
        Some("No matching processes"@)
    } else {
        None
    }
}

/// Looks `key` up in block 7 of the english catalog.
fn lookup_en_block_7(key: &str) -> (found: Option<&'static str>)
    ensures
        match found {
            Some(t) => en_block_7(key@) == Some(t@),
            None => en_block_7(key@) is None,
        },
{
    if str_equal(key, "mirror") {
        return Some("Mirror");
    }
    if str_equal(key, "mirror_hint") {
        return Some("Mirrors the selected device's live screen into this window (video only, no touch injection).");
    }
    if str_equal(key, "mirror_start") {
        return Some("Start mirroring");
    }
    if str_equal(key, "mirror_stop") {
        return Some("Stop mirroring");
    }
    if str_equal(key, "mirror_starting") {
        return Some("Starting the on-device server…");
    }
    if str_equal(key, "mirror_running") {
        return Some("Mirroring");
    }
    if str_equal(key, "mirror_native") {
        return Some("Native resolution");
    }
    if str_equal(key, "mirror_need_device") {
        return Some("Select an online device first");
    }
    if str_equal(key, "mirror_waiting") {
        return Some("Waiting for the device video stream…");
    }
    if str_equal(key, "mirror_remote") {
        return Some("Remote");
    }
    if str_equal(key, "mirror_key_power") {
        return Some("Power");
    }
    if str_equal(key, "mirror_key_mute") {
        return Some("Mute");
    }
    if str_equal(key, "mirror_key_play") {
        return Some("Play");
    }
    if str_equal(key, "mirror_key_vol_up") {
        return Some("Vol+");
    }
    if str_equal(key, "mirror_key_vol_down") {
        return Some("Vol-");
    }
    if str_equal(key, "mirror_key_menu") {
        return Some("Menu");
    }
    if str_equal(key, "mirror_key_home") {
        return Some("Home");
    }
    if str_equal(key, "mirror_key_back") {
        return Some("Back");
    }
    if str_equal(key, "mirror_record") {
        return Some("Record");
    }
    if str_equal(key, "mirror_record_stop") {
        return Some("Stop recording");
    }
    if str_equal(key, "mirror_recording") {
        return Some("Recording");
    }
    if str_equal(key, "mirror_record_saved") {
        return Some("Recording saved");
    }
    if str_equal(key, "mirror_need_mirror") {
        return Some("Start mirroring first");
    }
    if str_equal(key, "mirror_record_frames") {
        return Some("frames");
    }
    if str_equal(key, "mirror.jar_write_failed") {
        return Some("Failed to write the mirror server temp file");
    }
    if str_equal(key, "mirror.push_failed") {
        return Some("Failed to push the mirror server to the device");
    }
    if str_equal(key, "mirror.listen_failed") {
        return Some("Failed to listen on a local port");
    }
    if str_equal(key, "mirror.forward_failed") {
        return Some("Failed to set up the ADB port forward");
    }
    if str_equal(key, "mirror.shell_failed") {
        return Some("Failed to start the on-device process");
    }
    if str_equal(key, "mirror.server_start_timeout") {
        return Some("The on-device server did not start in time");
    }
    if str_equal(key, "mirror.stream_failed") {
        return Some("Video stream error");
    }
    if str_equal(key, "mirror.codec_mismatch") {
        return Some("The video stream is not H.264");
    }
    if str_equal(key, "mirror.record_empty") {
        return Some("No frames were captured");
    }
    if str_equal(key, "mirror.record_not_running") {
        return Some("No active mirroring session");
    }
    if str_equal(key, "mirror.record_write_failed") {
        return Some("Failed to write the recording");
    }
    if str_equal(key, "performance_live_hint") {
        return Some("Samples continuously, keeps the last 60 seconds");
    }
    if str_equal(key, "performance_waiting") {
        return Some("Collecting performance data…");
    }
    if str_equal(key, "no_processes") {
        return Some("No processes returned");
    }
    if str_equal(key, "processes_search_hint") {
        return Some("Search name, PID, or user");
    }
    if str_equal(key, "processes_no_match") {
        return Some("No matching processes");
    }
    None
}

/// English catalog, entries 321 to 353 of the catalog, first match wins.
pub open spec fn en_block_8(key: Seq<char>) -> Option<Seq<char>> {
    if key == "processes_sort_hint"@ {
        Some("Click to sort descending, click again to reset"@)
    } else if key == "pid"@ {
        Some("PID"@)
    } else if key == "process_name"@ {
        Some("Process"@)
    } else if key == "user"@ {
        Some("User"@)
    } else if key == "cpu"@ {
        Some("CPU"@)
    } else if key == "memory"@ {
        Some("Memory"@)
    } else if key == "resident"@ {
        Some("Resident"@)
    } else if key == "load_1m"@ {
        Some("Load (1m)"@)
    } else if key == "battery"@ {
        Some("Battery"@)
    } else if key == "performance_history"@ {
        Some("Performance history"@)
    } else if key == "assistant_ready"@ {
        Some("Ready"@)
    } else if key == "assistant_not_configured"@ {
        Some("Not configured"@)
    } else if key == "assistant_configure"@ {
        Some("Configure…"@)
    } else if key == "assistant_privacy_note"@ {
        Some("No data leaves this machine until a provider is configured and a context grant is given. Streaming output is a planned milestone."@)
    } else if key == "assistant_empty_hint"@ {
        Some("Ask about the selected device, an ADB error, or a log line. The assistant has no access to device data until you grant it."@)
    } else if key == "assistant_you"@ {
        Some("You"@)
    } else if key == "assistant_label"@ {
        Some("Assistant"@)
    } else if key == "assistant_waiting"@ {
        Some("Waiting for the assistant…"@)
    } else if key == "assistant_input_hint"@ {
        Some("Ask the assistant…"@)
    } else if key == "assistant_send"@ {
        Some("Send"@)
    } else if key == "assistant_send_hint"@ {
        Some("Enter to send · Shift+Enter for a new line"@)
    } else if key == "ai_settings"@ {
        Some("AI Settings"@)
    } else if key == "ai_endpoint"@ {
        Some("Endpoint (base URL)"@)
    } else if key == "ai_model_name"@ {
        Some("Model name"@)
    } else if key == "ai_api_key"@ {
        Some("API key"@)
    } else if key == "ai_timeout_seconds"@ {
        Some("Timeout (seconds)"@)
    } else if key == "ai_save"@ {
        Some("Save & connect"@)
    } else if key == "ai_disable"@ {
        Some("Disable AI"@)
    } else if key == "ai_settings_hint"@ {
        Some("Any OpenAI-compatible API works: OpenAI, DeepSeek, Zhipu GLM, Ollama, … The key is stored locally only."@)
    } else if key == "win_minimize"@ {
        Some("Minimize"@)
    } else if key == "win_maximize"@ {
        Some("Maximize"@)
    } else if key == "win_restore"@ {
        Some("Restore"@)
    } else if key == "win_close"@ {
        Some("Close"@)
    } else {
        None
    }
}

/// Looks `key` up in block 8 of the english catalog.
fn lookup_en_block_8(key: &str) -> (found: Option<&'static str>)
    ensures
        match found {
            Some(t) => en_block_8(key@) == Some(t@),
            None => en_block_8(key@) is None,
        },
{
    if str_equal(key, "processes_sort_hint") {
        return Some("Click to sort descending, click again to reset");
    }
    if str_equal(key, "pid") {
        return Some("PID");
    }
    if str_equal(key, "process_name") {
        return Some("Process");
    }
    if str_equal(key, "user") {
        return Some("User");
    }
    if str_equal(key, "cpu") {
        return Some("CPU");
    }
    if str_equal(key, "memory") {
        return Some("Memory");
    }
    if str_equal(key, "resident") {
        return Some("Resident");
    }
    if str_equal(key, "load_1m") {
        return Some("Load (1m)");
    }
    if str_equal(key, "battery") {
        return Some("Battery");
    }
    if str_equal(key, "performance_history") {
        return Some("Performance history");
    }
    if str_equal(key, "assistant_ready") {
        return Some("Ready");
    }
    if str_equal(key, "assistant_not_configured") {
        return Some("Not configured");
    }
    if str_equal(key, "assistant_configure") {
        return Some("Configure…");
    }
    if str_equal(key, "assistant_privacy_note") {
        return Some("No data leaves this machine until a provider is configured and a context grant is given. Streaming output is a planned milestone.");
    }
    if str_equal(key, "assistant_empty_hint") {
        return Some("Ask about the selected device, an ADB error, or a log line. The assistant has no access to device data until you grant it.");
    }
    if str_equal(key, "assistant_you") {
        return Some("You");
    }
    if str_equal(key, "assistant_label") {
        return Some("Assistant");
    }
    if str_equal(key, "assistant_waiting") {
        return Some("Waiting for the assistant…");
    }
    if str_equal(key, "assistant_input_hint") {
        return Some("Ask the assistant…");
    }
    if str_equal(key, "assistant_send") {
        return Some("Send");
    }
    if str_equal(key, "assistant_send_hint") {
        return Some("Enter to send · Shift+Enter for a new line");
    }
    if str_equal(key, "ai_settings") {
        return Some("AI Settings");
    }
    if str_equal(key, "ai_endpoint") {
        return Some("Endpoint (base URL)");
    }
    if str_equal(key, "ai_model_name") {
        return Some("Model name");
    }
    if str_equal(key, "ai_api_key") {
        return Some("API key");
    }
    if str_equal(key, "ai_timeout_seconds") {
        return Some("Timeout (seconds)");
    }
    if str_equal(key, "ai_save") {
        return Some("Save & connect");
    }
    if str_equal(key, "ai_disable") {
        return Some("Disable AI");
    }
    if str_equal(key, "ai_settings_hint") {
        return Some("Any OpenAI-compatible API works: OpenAI, DeepSeek, Zhipu GLM, Ollama, … The key is stored locally only.");
    }
    if str_equal(key, "win_minimize") {
        return Some("Minimize");
    }
    if str_equal(key, "win_maximize") {
        return Some("Maximize");
    }
    if str_equal(key, "win_restore") {
        return Some("Restore");
    }
    if str_equal(key, "win_close") {
        return Some("Close");
    }
    None
}

/// The english catalog: the translation of `key`, if the catalog has one.
pub open spec fn en_catalog(key: Seq<char>) -> Option<Seq<char>> {
    if en_block_0(key) is Some {
        en_block_0(key)
    } else if en_block_1(key) is Some {
        en_block_1(key)
    } else if en_block_2(key) is Some {
        en_block_2(key)
    } else if en_block_3(key) is Some {
        en_block_3(key)
    } else if en_block_4(key) is Some {
        en_block_4(key)
    } else if en_block_5(key) is Some {
        en_block_5(key)
    } else if en_block_6(key) is Some {
        en_block_6(key)
    } else if en_block_7(key) is Some {
        en_block_7(key)
    } else if en_block_8(key) is Some {
        en_block_8(key)
    } else {
        None
    }
}

/// Looks `key` up in the english catalog.
pub fn lookup_en(key: &str) -> (found: Option<&'static str>)
    ensures
        match found {
            Some(t) => en_catalog(key@) == Some(t@),
            None => en_catalog(key@) is None,
        },
{
    let found = lookup_en_block_0(key);
    if found.is_some() {
        return found;
    }
    let found = lookup_en_block_1(key);
    if found.is_some() {
        return found;
    }
    let found = lookup_en_block_2(key);
    if found.is_some() {
        return found;
    }
    let found = lookup_en_block_3(key);
    if found.is_some() {
        return found;
    }
    let found = lookup_en_block_4(key);
    if found.is_some() {
        return found;
    }
    let found = lookup_en_block_5(key);
    if found.is_some() {
        return found;
    }
    let found = lookup_en_block_6(key);
    if found.is_some() {
        return found;
    }
    let found = lookup_en_block_7(key);
    if found.is_some() {
        return found;
    }
    let found = lookup_en_block_8(key);
    if found.is_some() {
        return found;
    }
    None
}

} // verus!
