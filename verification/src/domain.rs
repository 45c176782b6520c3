//! The plain domain values that flow between the panels and the backend:
//! errors, device identities, session identifiers, settings and the
//! command/event vocabulary the panel state machines speak.
use vstd::prelude::*;

use crate::desktop::AdbEndpoint;
use crate::strings::str_equal;

verus! {

/// Largest payload of one shell write.
pub const MAX_SHELL_INPUT_BYTES: usize = 4096;

/// Broad class of a [`BridgeError`].
#[derive(Clone, Copy, Debug, PartialEq, Eq, Structural)]
pub enum ErrorCode {
    InvalidInput,
    AdbNotFound,
    AdbFailed,
    DeviceUnavailable,
    OutputLimit,
    Cancelled,
    Internal,
}

/// A user-facing error: a translatable message key plus a raw detail.
#[derive(Debug)]
pub struct BridgeError {
    pub code: ErrorCode,
    pub message_key: String,
    pub detail: String,
}

impl BridgeError {
    pub fn new(code: ErrorCode, message_key: &str, detail: &str) -> (error: Self)
        ensures
            error.code == code,
            error.message_key@ == message_key@,
            error.detail@ == detail@,
    {
        BridgeError { code, message_key: message_key.to_owned(), detail: detail.to_owned() }
    }

    /// An invalid-input error with an empty detail.
    pub fn invalid_input(message_key: &str) -> (error: Self)
        ensures
            error.code == ErrorCode::InvalidInput,
            error.message_key@ == message_key@,
            error.detail@ == Seq::<char>::empty(),
    {
        BridgeError {
            code: ErrorCode::InvalidInput,
            message_key: message_key.to_owned(),
            detail: String::new(),
        }
    }

    /// A field-by-field copy.
    pub fn duplicate(&self) -> (copy: Self)
        ensures
            copy == *self,
    {
        BridgeError {
            code: self.code,
            message_key: self.message_key.clone(),
            detail: self.detail.clone(),
        }
    }
}

/// The serial number adb reports for a device (or `host:port` for network
/// devices). Never empty.
#[derive(Debug)]
pub struct DeviceSerial {
    value: String,
}

impl View for DeviceSerial {
    type V = Seq<char>;

    closed spec fn view(&self) -> Seq<char> {
        self.value@
    }
}

impl DeviceSerial {
    /// Accepts any non-empty serial; an empty one is refused with
    /// `device.serial_invalid`.
    pub fn new(value: &str) -> (result: Result<Self, BridgeError>)
        ensures
            match result {
                Ok(serial) => value@.len() > 0 && serial@ == value@,
                Err(error) => value@.len() == 0 && error.code == ErrorCode::InvalidInput
                    && error.message_key@ == "device.serial_invalid"@,
            },
    {
        if value.is_empty() {
            Err(BridgeError::invalid_input("device.serial_invalid"))
        } else {
            Ok(DeviceSerial { value: value.to_owned() })
        }
    }

    pub fn as_str(&self) -> (text: &str)
        ensures
            text@ == self@,
    {
        self.value.as_str()
    }

    pub fn duplicate(&self) -> (copy: Self)
        ensures
            copy@ == self@,
    {
        DeviceSerial { value: self.value.clone() }
    }

    pub fn same_as(&self, other: &DeviceSerial) -> (same: bool)
        ensures
            same == (self@ == other@),
    {
        str_equal(self.value.as_str(), other.value.as_str())
    }
}

/// adb connection state of a device.
#[derive(Clone, Copy, Debug, PartialEq, Eq, Structural)]
pub enum DeviceState {
    Online,
    Offline,
    Unauthorized,
    Unknown,
}

impl DeviceState {
    pub fn is_online(&self) -> (online: bool)
        ensures
            online == (*self == DeviceState::Online),
    {
        matches!(self, DeviceState::Online)
    }
}

/// What adb reports about one device.
#[derive(Debug)]
pub struct DeviceDescriptor {
    pub serial: DeviceSerial,
    pub state: DeviceState,
    pub product: Option<String>,
    pub model: Option<String>,
    pub device: Option<String>,
    pub transport_id: Option<u64>,
}

/// A device as tracked by the registry: the generation changes whenever the
/// same serial reappears, so stale requests can be recognised.
#[derive(Debug)]
pub struct DeviceRecord {
    pub descriptor: DeviceDescriptor,
    pub generation: u64,
}

/// The identity a request is bound to: one serial in one generation.
#[derive(Debug)]
pub struct DeviceTarget {
    pub serial: DeviceSerial,
    pub generation: u64,
}

/// Whether two targets name the same serial in the same generation.
pub open spec fn same_target(a: DeviceTarget, b: DeviceTarget) -> bool {
    a.serial@ == b.serial@ && a.generation == b.generation
}

/// Optional targets are equal when both are absent or both name the same
/// target.
pub open spec fn same_optional_target(a: Option<DeviceTarget>, b: Option<DeviceTarget>) -> bool {
    match (a, b) {
        (None, None) => true,
        (Some(x), Some(y)) => same_target(x, y),
        _ => false,
    }
}

impl DeviceTarget {
    pub fn new(serial: DeviceSerial, generation: u64) -> (target: Self)
        ensures
            target.serial@ == serial@,
            target.generation == generation,
    {
        DeviceTarget { serial, generation }
    }

    pub fn duplicate(&self) -> (copy: Self)
        ensures
            same_target(copy, *self),
    {
        DeviceTarget { serial: self.serial.duplicate(), generation: self.generation }
    }

    pub fn same_as(&self, other: &DeviceTarget) -> (same: bool)
        ensures
            same == same_target(*self, *other),
    {
        self.generation == other.generation && self.serial.same_as(&other.serial)
    }
}

/// Exec form of [`same_optional_target`].
pub fn same_optional(a: &Option<DeviceTarget>, b: &Option<DeviceTarget>) -> (same: bool)
    ensures
        same == same_optional_target(*a, *b),
{
    match (a, b) {
        (None, None) => true,
        (Some(x), Some(y)) => x.same_as(y),
        _ => false,
    }
}

/// A copy of an optional target.
pub fn duplicate_optional(target: &Option<DeviceTarget>) -> (copy: Option<DeviceTarget>)
    ensures
        same_optional_target(copy, *target),
{
    match target {
        Some(t) => Some(t.duplicate()),
        None => None,
    }
}

impl DeviceRecord {
    /// The target that addresses this record.
    pub fn target(&self) -> (target: DeviceTarget)
        ensures
            target.serial@ == self.descriptor.serial@,
            target.generation == self.generation,
    {
        DeviceTarget { serial: self.descriptor.serial.duplicate(), generation: self.generation }
    }
}

/// The device list with the user's explicit selection; nothing is ever
/// selected implicitly.
#[derive(Debug)]
pub struct DeviceSnapshot {
    pub devices: Vec<DeviceRecord>,
    pub selected: Option<DeviceSerial>,
}

impl DeviceSnapshot {
    /// An empty snapshot with no selection.
    pub fn empty() -> (snapshot: Self)
        ensures
            snapshot.devices@.len() == 0,
            snapshot.selected is None,
    {
        DeviceSnapshot { devices: Vec::new(), selected: None }
    }
}

impl Default for DeviceSnapshot {
    fn default() -> (snapshot: Self)
        ensures
            snapshot.devices@.len() == 0,
            snapshot.selected is None,
    {
        DeviceSnapshot::empty()
    }
}

/// Whether `id` carries the fixed bits of a random (version 4, RFC 4122
/// variant) UUID read as a big-endian `u128`: the version nibble is `4` and
/// the two variant bits are `10`; the other 122 bits are free.
pub open spec fn random_uuid_bits(id: u128) -> bool {
    id & 0xF000_C000_0000_0000_0000u128 == 0x4000_8000_0000_0000_0000u128
}

/// A fresh random 128-bit identifier: `uuid::Uuid::new_v4().as_u128()`,
/// which masks random bits with the version-4 and variant bits set. Which
/// of those values comes out rests on chance.
#[verifier::external_body]
fn random_id() -> (id: u128)
    ensures
        random_uuid_bits(id),
{
    uuid::Uuid::new_v4().as_u128()
}

/// Identifies one logcat stream.
#[derive(Clone, Copy, Debug, PartialEq, Eq, Structural)]
pub struct LogcatSessionId(pub u128);

/// Identifies one interactive shell session.
#[derive(Clone, Copy, Debug, PartialEq, Eq, Structural)]
pub struct ShellSessionId(pub u128);

/// Identifies one request/reply operation.
#[derive(Clone, Copy, Debug, PartialEq, Eq, Structural)]
pub struct OperationId(pub u128);

impl LogcatSessionId {
    /// A fresh random identifier: a version-4 UUID.
    pub fn new() -> (id: Self)
        ensures
            random_uuid_bits(id.0),
    {
        LogcatSessionId(random_id())
    }
}

impl ShellSessionId {
    /// A fresh random identifier: a version-4 UUID.
    pub fn new() -> (id: Self)
        ensures
            random_uuid_bits(id.0),
    {
        ShellSessionId(random_id())
    }
}

impl OperationId {
    /// A fresh random identifier: a version-4 UUID.
    pub fn new() -> (id: Self)
        ensures
            random_uuid_bits(id.0),
    {
        OperationId(random_id())
    }
}

/// Terminal size of a shell session; both dimensions are positive.
#[derive(Clone, Copy, Debug, PartialEq, Eq, Structural)]
pub struct ShellSize {
    pub columns: u16,
    pub rows: u16,
}

impl ShellSize {
    pub fn new(columns: u16, rows: u16) -> (result: Result<Self, BridgeError>)
        ensures
            match result {
                Ok(size) => columns > 0 && rows > 0 && size.columns == columns && size.rows
                    == rows,
                Err(error) => (columns == 0 || rows == 0) && error.message_key@
                    == "shell.size.invalid"@,
            },
    {
        if columns == 0 || rows == 0 {
            Err(BridgeError::invalid_input("shell.size.invalid"))
        } else {
            Ok(ShellSize { columns, rows })
        }
    }
}

/// One shell write: between 1 and [`MAX_SHELL_INPUT_BYTES`] bytes.
#[derive(Debug)]
pub struct ShellInput {
    bytes: Vec<u8>,
}

impl View for ShellInput {
    type V = Seq<u8>;

    closed spec fn view(&self) -> Seq<u8> {
        self.bytes@
    }
}

impl ShellInput {
    pub fn new(bytes: Vec<u8>) -> (result: Result<Self, BridgeError>)
        ensures
            match result {
                Ok(input) => 0 < bytes@.len() <= MAX_SHELL_INPUT_BYTES && input@ == bytes@,
                Err(error) => {
                    &&& bytes@.len() == 0 ==> error.message_key@ == "shell.input.empty"@
                    &&& bytes@.len() > MAX_SHELL_INPUT_BYTES ==> error.message_key@
                        == "shell.input.too_large"@
                    &&& (bytes@.len() == 0 || bytes@.len() > MAX_SHELL_INPUT_BYTES)
                },
            },
    {
        if bytes.len() == 0 {
            Err(BridgeError::invalid_input("shell.input.empty"))
        } else if bytes.len() > MAX_SHELL_INPUT_BYTES {
            Err(BridgeError::invalid_input("shell.input.too_large"))
        } else {
            Ok(ShellInput { bytes })
        }
    }

    pub fn into_bytes(self) -> (bytes: Vec<u8>)
        ensures
            bytes@ == self@,
    {
        self.bytes
    }
}

/// Connection settings of an OpenAI-compatible provider.
#[derive(Clone, Debug, PartialEq, Eq)]
pub struct AiSettings {
    pub endpoint: String,
    pub model: String,
    pub api_key: String,
    pub timeout_seconds: u64,
}

/// A published release newer than the running build.
#[derive(Clone, Debug, PartialEq, Eq)]
pub struct UpdateInfo {
    pub version: String,
    pub url: String,
}

/// Result of comparing the latest release against the running build.
#[derive(Clone, Debug, PartialEq, Eq)]
pub enum UpdateCheckOutcome {
    UpToDate,
    Available(UpdateInfo),
}

/// Commands the panels send to the backend.
#[derive(Debug)]
#[allow(inconsistent_fields)]
pub enum BackendCommand {
    StartLogcat { target: DeviceTarget, session_id: LogcatSessionId },
    StopLogcat(LogcatSessionId),
    OpenShell { target: DeviceTarget, session_id: ShellSessionId, size: ShellSize },
    WriteShell { session_id: ShellSessionId, input: ShellInput },
    CloseShell(ShellSessionId),
    SendAiChat { request_id: OperationId, prompt: String },
    ConfigureAi(Option<AiSettings>),
    CheckForUpdates,
    ConnectDevice(AdbEndpoint),
    /// Select a device, or clear the selection.
    SelectDevice(Option<DeviceSerial>),
}

/// Events the backend reports to the panels.
#[derive(Debug)]
#[allow(inconsistent_fields)]
pub enum BackendEvent {
    LogcatStarted { target: DeviceTarget, session_id: LogcatSessionId },
    LogcatOutput { session_id: LogcatSessionId, bytes: Vec<u8> },
    LogcatClosed { session_id: LogcatSessionId },
    LogcatFailed { session_id: LogcatSessionId, error: BridgeError },
    ShellOpened { target: DeviceTarget, session_id: ShellSessionId },
    ShellOutput { session_id: ShellSessionId, bytes: Vec<u8> },
    ShellClosed { session_id: ShellSessionId, exit_code: Option<i32> },
    ShellFailed { session_id: ShellSessionId, error: BridgeError },
    AiReady { kind: String, model: String },
    AiUnavailable { reason: String },
    AiChatCompleted { request_id: OperationId, reply: String },
    AiChatFailed { request_id: OperationId, error: BridgeError },
    UpdateChecked(Result<UpdateCheckOutcome, BridgeError>),
    AdbReady { path: String, version: String },
    AdbUnavailable(BridgeError),
    AdbConnecting(AdbEndpoint),
    AdbConnected(AdbEndpoint),
    AdbConnectFailed { endpoint: AdbEndpoint, error: BridgeError },
    DevicesChanged(DeviceSnapshot),
    OperationFailed(BridgeError),
}

} // verus!
