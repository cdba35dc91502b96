use vstd::prelude::*;
use crate::error::{Error, ErrorView, result_view};

verus! {

/// The outcome of a GATT operation as the native stack reports it.
#[derive(Debug, Clone, Copy, PartialEq, Eq, Structural)]
pub enum GattCommunicationStatus {
    Success,
    Unreachable,
    ProtocolError,
    AccessDenied,
    /// A code that this layer does not recognise, kept as it came.
    Unknown(i32),
}

/// The native code of each recognised status.
pub open spec fn status_of_code(code: i32) -> GattCommunicationStatus {
    if code == 0 {
        GattCommunicationStatus::Success
    } else if code == 1 {
        GattCommunicationStatus::Unreachable
    } else if code == 2 {
        GattCommunicationStatus::ProtocolError
    } else if code == 3 {
        GattCommunicationStatus::AccessDenied
    } else {
        GattCommunicationStatus::Unknown(code)
    }
}

impl GattCommunicationStatus {
    /// Reads a raw native status code.
    pub fn from_raw(code: i32) -> (r: GattCommunicationStatus)
        ensures
            r == status_of_code(code),
    {
        match code {
            0 => GattCommunicationStatus::Success,
            1 => GattCommunicationStatus::Unreachable,
            2 => GattCommunicationStatus::ProtocolError,
            3 => GattCommunicationStatus::AccessDenied,
            _ => GattCommunicationStatus::Unknown(code),
        }
    }
}

/// The result that each native status is relabelled into.
pub open spec fn status_outcome(status: GattCommunicationStatus) -> Result<(), ErrorView> {
    match status {
        GattCommunicationStatus::Success => Ok(()),
        GattCommunicationStatus::AccessDenied => Err(ErrorView::PermissionDenied),
        GattCommunicationStatus::Unreachable => Err(ErrorView::NotConnected),
        GattCommunicationStatus::ProtocolError => Err(ErrorView::NotSupported("ProtocolError"@)),
        GattCommunicationStatus::Unknown(_) => Err(ErrorView::Other("Communication Error"@)),
    }
}

/// Turns a native communication status into success or a categorised failure.
pub fn to_error(status: GattCommunicationStatus) -> (r: Result<(), Error>)
    ensures
        result_view(r) == status_outcome(status),
{
    match status {
        GattCommunicationStatus::Success => Ok(()),
        GattCommunicationStatus::AccessDenied => Err(Error::PermissionDenied),
        GattCommunicationStatus::Unreachable => Err(Error::NotConnected),
        GattCommunicationStatus::ProtocolError => Err(Error::NotSupported("ProtocolError".to_owned())),
        GattCommunicationStatus::Unknown(_) => Err(Error::Other("Communication Error".to_owned())),
    }
}

} // verus!
