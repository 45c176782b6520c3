//! The app-wide state the backend's events drive: whether adb is usable,
//! the network connect flow with its recently used endpoints, the device
//! list with the selection, and the update check.
use vstd::prelude::*;

use crate::desktop::{
    endpoint_from_inputs, endpoints_view, remember_endpoint, remembered, selected_index,
    selected_record, AdbEndpoint,
};
use crate::domain::{
    BackendCommand, BackendEvent, BridgeError, DeviceSerial, DeviceSnapshot, DeviceState,
    DeviceTarget,
};
use crate::i18n::{text_spec, Language};
use crate::strings::{decimal, decimal_string, parse_unsigned_spec, push_char, push_str, trim_spec};
use crate::update::{found_version, update_recorded, update_toast_text, UpdatePrefs, UpdateState};

verus! {

broadcast use vstd::string::group_string_axioms;

/// The detail of a failed connect: the backend's detail followed by the
/// endpoint in parentheses, `detail (host:port)`.
pub open spec fn connect_failure_detail(detail: Seq<char>, endpoint: (Seq<char>, u16)) -> Seq<
    char,
> {
    detail + " ("@ + endpoint.0 + seq![':'] + decimal(endpoint.1 as nat) + seq![')']
}

/// Whether two optional serials name the same device, or both nothing.
pub open spec fn same_selection(a: Option<DeviceSerial>, b: Option<DeviceSerial>) -> bool {
    match (a, b) {
        (None, None) => true,
        (Some(x), Some(y)) => x@ == y@,
        _ => false,
    }
}

/// Whether the dev hook picks the first device of a new list: it was asked
/// for, nothing is selected before or after, and the first device is online.
pub open spec fn auto_selects(
    requested: bool,
    before: DeviceSnapshot,
    after: DeviceSnapshot,
) -> bool {
    &&& requested
    &&& before.selected is None
    &&& after.selected is None
    &&& after.devices@.len() > 0
    &&& after.devices@[0].descriptor.state == DeviceState::Online
}

/// What the app does after an event besides the state change.
#[derive(Debug)]
pub enum AppReaction {
    Nothing,
    /// Show this text as a toast.
    Toast(String),
    /// The device list changed: the panels follow `target`, and the device
    /// overview is dropped when the selection changed.
    Retarget { reset_overview: bool, target: Option<DeviceTarget> },
    /// Ask the backend to select this device (the dev auto-select hook).
    Select { reset_overview: bool, serial: DeviceSerial },
}

/// The app-wide state.
#[derive(Debug)]
pub struct AppState {
    pub adb_path: Option<String>,
    pub adb_version: Option<String>,
    pub last_error: Option<BridgeError>,
    /// Text of the connect form.
    pub endpoint_host: String,
    pub endpoint_port: String,
    /// The endpoint a connect is running for.
    pub connecting_endpoint: Option<AdbEndpoint>,
    pub recent_endpoints: Vec<AdbEndpoint>,
    pub update_state: UpdateState,
    pub snapshot: DeviceSnapshot,
    /// Dev hook: select the first discovered device once.
    pub auto_select_requested: bool,
}

/// The adb fields are those of `before`.
pub open spec fn same_adb(after: AppState, before: AppState) -> bool {
    after.adb_path == before.adb_path && after.adb_version == before.adb_version
}

/// The connect form, connect flow and recent endpoints are those of
/// `before`.
pub open spec fn same_connect(after: AppState, before: AppState) -> bool {
    &&& after.endpoint_host == before.endpoint_host
    &&& after.endpoint_port == before.endpoint_port
    &&& after.connecting_endpoint == before.connecting_endpoint
    &&& after.recent_endpoints == before.recent_endpoints
}

/// The device list and its dev hook are those of `before`.
pub open spec fn same_devices(after: AppState, before: AppState) -> bool {
    after.snapshot == before.snapshot && after.auto_select_requested
        == before.auto_select_requested
}

/// `after` is `before` with only the error changed.
pub open spec fn only_error_changed(after: AppState, before: AppState) -> bool {
    &&& same_adb(after, before)
    &&& same_connect(after, before)
    &&& same_devices(after, before)
    &&& after.update_state == before.update_state
}

/// The toast announcing the update a check result found.
pub open spec fn update_toast(language: Language, version: Seq<char>) -> Seq<char> {
    text_spec(language, "update.available"@) + " v"@ + version
}

impl AppState {
    /// The state at launch: no adb information yet, an empty connect form
    /// with the default port, the remembered endpoints, the stored update
    /// preferences and no device.
    pub fn new(
        recent_endpoints: Vec<AdbEndpoint>,
        update_prefs: Option<UpdatePrefs>,
        auto_select_requested: bool,
    ) -> (state: Self)
        ensures
            state.adb_path is None && state.adb_version is None && state.last_error is None,
            state.endpoint_host@.len() == 0,
            state.endpoint_port@ == "5555"@,
            state.connecting_endpoint is None,
            state.recent_endpoints == recent_endpoints,
            state.update_state.status is Idle,
            !state.update_state.startup_check_sent,
            state.update_state.auto_check == match update_prefs {
                Some(p) => p.auto_check,
                None => true,
            },
            state.update_state.last_check_epoch == match update_prefs {
                Some(p) => p.last_check_epoch,
                None => None,
            },
            state.snapshot.devices@.len() == 0 && state.snapshot.selected is None,
            state.auto_select_requested == auto_select_requested,
    {
        AppState {
            adb_path: None,
            adb_version: None,
            last_error: None,
            endpoint_host: String::new(),
            endpoint_port: "5555".to_owned(),
            connecting_endpoint: None,
            recent_endpoints,
            update_state: UpdateState::from_prefs(update_prefs),
            snapshot: DeviceSnapshot::empty(),
            auto_select_requested,
        }
    }

    /// The endpoint typed in the connect form (see [`endpoint_from_inputs`]).
    pub fn endpoint_from_inputs(&self) -> (endpoint: Result<AdbEndpoint, BridgeError>)
        ensures
            match endpoint {
                Ok(e) => parse_unsigned_spec(trim_spec(self.endpoint_port@), u16::MAX as nat)
                    == Some(e@.1 as nat) && e@.0 == self.endpoint_host@,
                Err(error) => parse_unsigned_spec(trim_spec(self.endpoint_port@), u16::MAX as nat)
                    is None && error.message_key@ == "adb.endpoint.port_invalid"@,
            },
    {
        endpoint_from_inputs(self.endpoint_host.as_str(), self.endpoint_port.as_str())
    }

    /// Starts a connect to `endpoint`: the form shows it, the connect is
    /// marked running, and the command to send is returned.
    pub fn connect(&mut self, endpoint: AdbEndpoint) -> (command: BackendCommand)
        ensures
            final(self).endpoint_host@ == endpoint@.0,
            final(self).endpoint_port@ == decimal(endpoint@.1 as nat),
            final(self).connecting_endpoint matches Some(e) && e@ == endpoint@,
            command matches BackendCommand::ConnectDevice(e) && e@ == endpoint@,
            same_adb(*final(self), *old(self)),
            same_devices(*final(self), *old(self)),
            final(self).recent_endpoints == old(self).recent_endpoints,
            final(self).last_error == old(self).last_error,
            final(self).update_state == old(self).update_state,
    {
        self.endpoint_host = endpoint.host().to_owned();
        self.endpoint_port = decimal_string(endpoint.port() as u64);
        self.connecting_endpoint = Some(endpoint.duplicate());
        BackendCommand::ConnectDevice(endpoint)
    }

    /// Applies an app-wide backend event received at `now_epoch`:
    /// - `AdbReady` records the adb path and version and clears the error;
    /// - `AdbUnavailable` and `OperationFailed` show their error;
    /// - `AdbConnecting` marks the connect as running and clears the error;
    /// - `AdbConnected` ends it, remembers the endpoint (see [`remembered`])
    ///   and clears the error;
    /// - `AdbConnectFailed` ends it and shows the error with the endpoint
    ///   appended to its detail;
    /// - `UpdateChecked` records the result and toasts a found update;
    /// - `DevicesChanged` takes the new list: the dev hook may ask to select
    ///   its first device, otherwise the panels follow the selected record.
    /// Every other event changes nothing.
    pub fn apply_event(&mut self, event: BackendEvent, now_epoch: i64, language: Language) -> (reaction:
        AppReaction)
        ensures
            match event {
                BackendEvent::AdbReady { path, version } => {
                    &&& final(self).adb_path == Some(path)
                    &&& final(self).adb_version == Some(version)
                    &&& final(self).last_error is None
                    &&& same_connect(*final(self), *old(self))
                    &&& same_devices(*final(self), *old(self))
                    &&& final(self).update_state == old(self).update_state
                    &&& reaction is Nothing
                },
                BackendEvent::AdbUnavailable(error) => {
                    &&& final(self).last_error == Some(error)
                    &&& only_error_changed(*final(self), *old(self))
                    &&& reaction is Nothing
                },
                BackendEvent::OperationFailed(error) => {
                    &&& final(self).last_error == Some(error)
                    &&& only_error_changed(*final(self), *old(self))
                    &&& reaction is Nothing
                },
                BackendEvent::AdbConnecting(endpoint) => {
                    &&& final(self).connecting_endpoint == Some(endpoint)
                    &&& final(self).last_error is None
                    &&& same_adb(*final(self), *old(self))
                    &&& same_devices(*final(self), *old(self))
                    &&& final(self).recent_endpoints == old(self).recent_endpoints
                    &&& final(self).endpoint_host == old(self).endpoint_host
                    &&& final(self).endpoint_port == old(self).endpoint_port
                    &&& final(self).update_state == old(self).update_state
                    &&& reaction is Nothing
                },
                BackendEvent::AdbConnected(endpoint) => {
                    &&& final(self).connecting_endpoint is None
                    &&& endpoints_view(final(self).recent_endpoints@) == remembered(
                        endpoints_view(old(self).recent_endpoints@),
                        endpoint@,
                    )
                    &&& final(self).last_error is None
                    &&& same_adb(*final(self), *old(self))
                    &&& same_devices(*final(self), *old(self))
                    &&& final(self).endpoint_host == old(self).endpoint_host
                    &&& final(self).endpoint_port == old(self).endpoint_port
                    &&& final(self).update_state == old(self).update_state
                    &&& reaction is Nothing
                },
                BackendEvent::AdbConnectFailed { endpoint, error } => {
                    &&& final(self).connecting_endpoint is None
                    &&& final(self).last_error matches Some(shown) && shown.code == error.code
                        && shown.message_key@ == error.message_key@ && shown.detail@
                        == connect_failure_detail(error.detail@, endpoint@)
                    &&& same_adb(*final(self), *old(self))
                    &&& same_devices(*final(self), *old(self))
                    &&& final(self).recent_endpoints == old(self).recent_endpoints
                    &&& final(self).endpoint_host == old(self).endpoint_host
                    &&& final(self).endpoint_port == old(self).endpoint_port
                    &&& final(self).update_state == old(self).update_state
                    &&& reaction is Nothing
                },
                BackendEvent::UpdateChecked(result) => {
                    &&& update_recorded(
                        final(self).update_state,
                        old(self).update_state,
                        result,
                        now_epoch,
                    )
                    &&& match found_version(result) {
                        Some(version) => reaction matches AppReaction::Toast(t) && t@
                            == update_toast(language, version),
                        None => reaction is Nothing,
                    }
                    &&& same_adb(*final(self), *old(self))
                    &&& same_connect(*final(self), *old(self))
                    &&& same_devices(*final(self), *old(self))
                    &&& final(self).last_error == old(self).last_error
                },
                BackendEvent::DevicesChanged(snapshot) => {
                    &&& final(self).snapshot == snapshot
                    &&& same_adb(*final(self), *old(self))
                    &&& same_connect(*final(self), *old(self))
                    &&& final(self).last_error == old(self).last_error
                    &&& final(self).update_state == old(self).update_state
                    &&& if auto_selects(old(self).auto_select_requested, old(self).snapshot, snapshot) {
                        &&& !final(self).auto_select_requested
                        &&& reaction matches AppReaction::Select { reset_overview, serial }
                            && reset_overview == !same_selection(snapshot.selected, old(self).snapshot.selected)
                            && serial@ == snapshot.devices@[0].descriptor.serial@
                    } else {
                        &&& final(self).auto_select_requested == old(self).auto_select_requested
                        &&& reaction matches AppReaction::Retarget { reset_overview, target }
                            && reset_overview == !same_selection(snapshot.selected, old(self).snapshot.selected)
                            && match selected_index(snapshot) {
                            Some(i) => target matches Some(t) && t.serial@
                                == snapshot.devices@[i].descriptor.serial@ && t.generation
                                == snapshot.devices@[i].generation,
                            None => target is None,
                        }
                    }
                },
                _ => *final(self) == *old(self) && reaction is Nothing,
            },
    {
        match event {
            BackendEvent::AdbReady { path, version } => {
                self.adb_path = Some(path);
                self.adb_version = Some(version);
                self.last_error = None;
                AppReaction::Nothing
            },
            BackendEvent::AdbUnavailable(error) => {
                self.last_error = Some(error);
                AppReaction::Nothing
            },
            BackendEvent::OperationFailed(error) => {
                self.last_error = Some(error);
                AppReaction::Nothing
            },
            BackendEvent::AdbConnecting(endpoint) => {
                self.connecting_endpoint = Some(endpoint);
                self.last_error = None;
                AppReaction::Nothing
            },
            BackendEvent::AdbConnected(endpoint) => {
                self.connecting_endpoint = None;
                remember_endpoint(&mut self.recent_endpoints, endpoint);
                self.last_error = None;
                AppReaction::Nothing
            },
            BackendEvent::AdbConnectFailed { endpoint, error } => {
                self.connecting_endpoint = None;
                let detail = failure_detail(error.detail.as_str(), &endpoint);
                self.last_error = Some(
                    BridgeError::new(error.code, error.message_key.as_str(), detail.as_str()),
                );
                AppReaction::Nothing
            },
            BackendEvent::UpdateChecked(result) => {
                match self.update_state.record_result(result, now_epoch) {
                    Some(version) => {
                        let toast = update_toast_text(language, version.as_str());
                        AppReaction::Toast(toast)
                    },
                    None => AppReaction::Nothing,
                }
            },
            BackendEvent::DevicesChanged(snapshot) => {
                let reset_overview = !same_selected(&snapshot.selected, &self.snapshot.selected);
                let auto = self.auto_select_requested && self.snapshot.selected.is_none()
                    && snapshot.selected.is_none() && snapshot.devices.len() > 0
                    && snapshot.devices[0].descriptor.state.is_online();
                if auto {
                    let serial = snapshot.devices[0].descriptor.serial.duplicate();
                    self.snapshot = snapshot;
                    self.auto_select_requested = false;
                    AppReaction::Select { reset_overview, serial }
                } else {
                    self.snapshot = snapshot;
                    let target = match selected_record(&self.snapshot) {
                        Some(record) => Some(record.target()),
                        None => None,
                    };
                    AppReaction::Retarget { reset_overview, target }
                }
            },
            _ => AppReaction::Nothing,
        }
    }
}

/// Exec form of [`same_selection`].
fn same_selected(a: &Option<DeviceSerial>, b: &Option<DeviceSerial>) -> (same: bool)
    ensures
        same == same_selection(*a, *b),
{
    match (a, b) {
        (None, None) => true,
        (Some(x), Some(y)) => x.same_as(y),
        _ => false,
    }
}

/// `detail (host:port)`.
fn failure_detail(detail: &str, endpoint: &AdbEndpoint) -> (text: String)
    ensures
        text@ == connect_failure_detail(detail@, endpoint@),
{
    let mut text = detail.to_owned();
    push_str(&mut text, " (");
    push_str(&mut text, endpoint.host());
    push_char(&mut text, ':');
    let port = decimal_string(endpoint.port() as u64);
    push_str(&mut text, port.as_str());
    push_char(&mut text, ')');
    proof {
        reveal_strlit(" (");
    }
    text
}

} // verus!
