//! Decisions of the backend worker that need no device: whether the
//! deterministic development backend was asked for, where adb is taken from,
//! and which event ends a network connect.
use vstd::prelude::*;

use crate::desktop::AdbEndpoint;
use crate::domain::{BackendEvent, BridgeError, ErrorCode};
use crate::strings::chars_of;

verus! {

/// `c` is `lower`, or `lower` is a lowercase ASCII letter and `c` its
/// uppercase form.
pub open spec fn ascii_case_match(c: char, lower: char) -> bool {
    c == lower || ('a' <= lower && lower <= 'z' && (c as u32) + 32 == lower as u32)
}

/// `s` turns into `lower` under ASCII lowercasing, where `lower` holds only
/// lowercase letters and digits.
pub open spec fn ascii_lowercases_to(s: Seq<char>, lower: Seq<char>) -> bool {
    &&& s.len() == lower.len()
    &&& forall|i: int| 0 <= i < s.len() ==> ascii_case_match(#[trigger] s[i], lower[i])
}

/// The values of the development-backend switch that turn it on: `1`,
/// `true` or `yes`, in any ASCII case.
pub open spec fn fake_switch_on(value: Seq<char>) -> bool {
    ||| ascii_lowercases_to(value, "1"@)
    ||| ascii_lowercases_to(value, "true"@)
    ||| ascii_lowercases_to(value, "yes"@)
}

/// Whether `value` turns into `lower` under ASCII lowercasing.
fn lowercases_to(value: &Vec<char>, lower: &Vec<char>) -> (matched: bool)
    ensures
        matched == ascii_lowercases_to(value@, lower@),
{
    if value.len() != lower.len() {
        return false;
    }
    let mut i: usize = 0;
    while i < value.len()
        invariant
            value@.len() == lower@.len(),
            i <= value@.len(),
            forall|k: int| 0 <= k < i ==> ascii_case_match(#[trigger] value@[k], lower@[k]),
        decreases value@.len() - i,
    {
        let c = value[i];
        let l = lower[i];
        let upper_of_lower = 'a' <= l && l <= 'z' && c as u32 == (l as u32) - 32;
        if c != l && !upper_of_lower {
            assert(!ascii_case_match(value@[i as int], lower@[i as int]));
            return false;
        }
        i = i + 1;
    }
    true
}

/// Whether the development-backend switch is on, given its setting (`None`
/// when it is unset or not Unicode).
pub fn fake_backend_enabled(setting: Option<&str>) -> (on: bool)
    ensures
        on == (setting matches Some(value) && fake_switch_on(value@)),
{
    match setting {
        None => false,
        Some(value) => {
            let chars = chars_of(value);
            let one = chars_of("1");
            let true_word = chars_of("true");
            let yes = chars_of("yes");
            lowercases_to(&chars, &one) || lowercases_to(&chars, &true_word) || lowercases_to(
                &chars,
                &yes,
            )
        },
    }
}

/// Where adb is taken from, given the `FADB_ADB` override (its path as
/// shown to the user, when set) and whether that path names a file
/// (`is_file` is not read without an override):
/// - no override: the usual search (`Ok(None)`);
/// - an override that names a file: that path;
/// - an override that names nothing: `adb.fadb_adb_invalid` with the path as
///   its detail, rather than a silent fall back to the search.
pub fn explicit_adb(path: Option<String>, is_file: bool) -> (choice: Result<Option<String>, BridgeError>)
    ensures
        match path {
            None => choice matches Ok(None),
            Some(p) => if is_file {
                choice matches Ok(Some(chosen)) && chosen@ == p@
            } else {
                choice matches Err(error) && error.code == ErrorCode::AdbNotFound
                    && error.message_key@ == "adb.fadb_adb_invalid"@ && error.detail@ == p@
            },
        },
{
    match path {
        None => Ok(None),
        Some(p) => {
            if is_file {
                Ok(Some(p))
            } else {
                Err(BridgeError::new(ErrorCode::AdbNotFound, "adb.fadb_adb_invalid", p.as_str()))
            }
        },
    }
}

/// The event that ends a connect to `endpoint`: `connected` is what the
/// connect itself gave, `devices_refreshed` whether the device list that
/// follows a successful connect could be read.
/// - a failed connect reports its own error;
/// - a connect whose device list could not be read fails with
///   `adb.devices.refresh_failed`;
/// - otherwise the endpoint is connected.
pub fn connect_outcome(
    endpoint: AdbEndpoint,
    connected: Result<(), BridgeError>,
    devices_refreshed: bool,
) -> (event: BackendEvent)
    ensures
        match connected {
            Err(error) => event == (BackendEvent::AdbConnectFailed { endpoint, error }),
            Ok(()) => if devices_refreshed {
                event == BackendEvent::AdbConnected(endpoint)
            } else {
                event matches BackendEvent::AdbConnectFailed { endpoint: e, error }
                    && e == endpoint && error.code == ErrorCode::AdbFailed
                    && error.message_key@ == "adb.devices.refresh_failed"@
                    && error.detail@ == "ADB connected but device discovery failed"@
            },
        },
{
    match connected {
        Err(error) => BackendEvent::AdbConnectFailed { endpoint, error },
        Ok(()) => {
            if devices_refreshed {
                BackendEvent::AdbConnected(endpoint)
            } else {
                BackendEvent::AdbConnectFailed {
                    endpoint,
                    error: BridgeError::new(
                        ErrorCode::AdbFailed,
                        "adb.devices.refresh_failed",
                        "ADB connected but device discovery failed",
                    ),
                }
            }
        },
    }
}

/// `event` is the one that ends a connect to `endpoint` whose connect gave
/// `connected` and whose device list could (`refreshed`) or could not be
/// read afterwards (see [`connect_outcome`]).
pub open spec fn ends_connect(
    event: BackendEvent,
    endpoint: (Seq<char>, u16),
    connected: Result<(), BridgeError>,
    refreshed: bool,
) -> bool {
    match connected {
        Err(error) => event matches BackendEvent::AdbConnectFailed { endpoint: e, error: reported }
            && e@ == endpoint && reported == error,
        Ok(()) => if refreshed {
            event matches BackendEvent::AdbConnected(e) && e@ == endpoint
        } else {
            event matches BackendEvent::AdbConnectFailed { endpoint: e, error }
                && e@ == endpoint && error.code == ErrorCode::AdbFailed
                && error.message_key@ == "adb.devices.refresh_failed"@
                && error.detail@ == "ADB connected but device discovery failed"@
        },
    }
}

/// Where a network connect stands.
#[derive(Clone, Copy, Debug, PartialEq, Eq, Structural)]
pub enum ConnectPhase {
    /// `AdbConnecting` was reported; `adb connect` runs.
    Connecting,
    /// The connect succeeded; the device list is being read.
    Refreshing,
    /// The outcome was reported.
    Done,
}

/// One network connect, from its announcement to its single outcome: each
/// step is taken only in the phase it belongs to, so a connect reports
/// `AdbConnecting` first and then exactly one of `AdbConnected` and
/// `AdbConnectFailed`.
#[derive(Debug)]
pub struct ConnectFlow {
    pub endpoint: AdbEndpoint,
    pub phase: ConnectPhase,
}

impl ConnectFlow {
    /// Starts a connect to `endpoint`; the returned event is reported before
    /// the connect runs.
    pub fn begin(endpoint: AdbEndpoint) -> (started: (ConnectFlow, BackendEvent))
        ensures
            started.0.endpoint@ == endpoint@,
            started.0.phase == ConnectPhase::Connecting,
            started.1 matches BackendEvent::AdbConnecting(e) && e@ == endpoint@,
    {
        let announced = BackendEvent::AdbConnecting(endpoint.duplicate());
        (ConnectFlow { endpoint, phase: ConnectPhase::Connecting }, announced)
    }

    /// The connect gave `connected`: a failure ends the flow with its event,
    /// a success goes on to read the device list.
    pub fn connect_finished(&mut self, connected: Result<(), BridgeError>) -> (finished: Option<
        BackendEvent,
    >)
        requires
            old(self).phase == ConnectPhase::Connecting,
        ensures
            final(self).endpoint@ == old(self).endpoint@,
            match connected {
                Err(_) => {
                    &&& final(self).phase == ConnectPhase::Done
                    &&& finished matches Some(event) && ends_connect(
                        event,
                        old(self).endpoint@,
                        connected,
                        false,
                    )
                },
                Ok(()) => final(self).phase == ConnectPhase::Refreshing && finished is None,
            },
    {
        match connected {
            Err(error) => {
                self.phase = ConnectPhase::Done;
                Some(connect_outcome(self.endpoint.duplicate(), Err(error), false))
            },
            Ok(()) => {
                self.phase = ConnectPhase::Refreshing;
                None
            },
        }
    }

    /// The device list could (`refreshed`) or could not be read after a
    /// successful connect: the flow ends with the matching event.
    pub fn refresh_finished(&mut self, refreshed: bool) -> (event: BackendEvent)
        requires
            old(self).phase == ConnectPhase::Refreshing,
        ensures
            final(self).endpoint@ == old(self).endpoint@,
            final(self).phase == ConnectPhase::Done,
            ends_connect(event, old(self).endpoint@, Ok(()), refreshed),
    {
        self.phase = ConnectPhase::Done;
        connect_outcome(self.endpoint.duplicate(), Ok(()), refreshed)
    }
}

} // verus!
