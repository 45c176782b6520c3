//! The checks a remote file change passes before it is sent to the device.
use vstd::prelude::*;

use crate::domain::{BridgeError, ErrorCode};

verus! {

/// The kinds of change made to the device's file system.
#[derive(Clone, Copy, Debug, PartialEq, Eq, Structural)]
pub enum RemoteFileMutationKind {
    CreateDirectory,
    Rename,
    DeleteFile,
}

/// Whether a change may start: the target must still be online
/// (`device.target_stale` otherwise), and a deletion must be confirmed
/// (`file.delete_confirmation_required` otherwise); the device check comes
/// first.
pub fn mutation_precheck(
    kind: RemoteFileMutationKind,
    target_online: bool,
    confirmed: bool,
) -> (result: Result<(), BridgeError>)
    ensures
        !target_online ==> (result matches Err(error) && error.code == ErrorCode::DeviceUnavailable
            && error.message_key@ == "device.target_stale"@ && error.detail@
            == "device is no longer online"@),
        target_online && kind == RemoteFileMutationKind::DeleteFile && !confirmed ==> (
        result matches Err(error) && error.code == ErrorCode::InvalidInput && error.message_key@
            == "file.delete_confirmation_required"@),
        target_online && (kind != RemoteFileMutationKind::DeleteFile || confirmed) ==> result
            is Ok,
{
    if !target_online {
        Err(
            BridgeError::new(
                ErrorCode::DeviceUnavailable,
                "device.target_stale",
                "device is no longer online",
            ),
        )
    } else if kind == RemoteFileMutationKind::DeleteFile && !confirmed {
        Err(BridgeError::invalid_input("file.delete_confirmation_required"))
    } else {
        Ok(())
    }
}

} // verus!
