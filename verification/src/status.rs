//! Status codes of the operating system.
use vstd::prelude::*;

verus! {

/// Success. `0x00000000`.
pub const STATUS_SUCCESS: i32 = 0;

/// An argument is invalid. `0xC000000D`.
pub const STATUS_INVALID_PARAMETER: i32 = -1073741811;

/// There is no such device. `0xC000000E`.
pub const STATUS_NO_SUCH_DEVICE: i32 = -1073741810;

/// The device does not serve the request. `0xC0000010`.
pub const STATUS_INVALID_DEVICE_REQUEST: i32 = -1073741808;

/// A buffer is too small. `0xC0000023`.
pub const STATUS_BUFFER_TOO_SMALL: i32 = -1073741789;

/// The device is not ready. `0xC00000A3`.
pub const STATUS_DEVICE_NOT_READY: i32 = -1073741661;

/// The request is not supported. `0xC00000BB`.
pub const STATUS_NOT_SUPPORTED: i32 = -1073741637;

/// The device is in the wrong state. `0xC0000184`.
pub const STATUS_INVALID_DEVICE_STATE: i32 = -1073741436;

/// The WMI block is not known. `0xC0000295`.
pub const STATUS_WMI_GUID_NOT_FOUND: i32 = -1073741163;

/// The operation failed. `0xC0000001`.
pub const STATUS_UNSUCCESSFUL: i32 = -1073741823;

/// The wait ended on an abandoned lock. `0x00000080`.
pub const STATUS_ABANDONED: i32 = 128;

/// Whether a status is a success.
#[verifier::allow_in_spec]
pub fn nt_ok(status: i32) -> (ok: bool)
    returns
        status >= 0,
{
    status >= 0
}

/// Success is any status that is not negative, and the failures here are none.
pub proof fn law_failures_are_negative(status: i32)
    ensures
        nt_ok(status) <==> status >= 0,
        nt_ok(STATUS_SUCCESS) && nt_ok(STATUS_ABANDONED),
        STATUS_INVALID_PARAMETER == 0xC000000D - 0x1_0000_0000,
        STATUS_NO_SUCH_DEVICE == 0xC000000E - 0x1_0000_0000,
        STATUS_INVALID_DEVICE_REQUEST == 0xC0000010 - 0x1_0000_0000,
        STATUS_BUFFER_TOO_SMALL == 0xC0000023 - 0x1_0000_0000,
        STATUS_DEVICE_NOT_READY == 0xC00000A3 - 0x1_0000_0000,
        STATUS_NOT_SUPPORTED == 0xC00000BB - 0x1_0000_0000,
        STATUS_INVALID_DEVICE_STATE == 0xC0000184 - 0x1_0000_0000,
        STATUS_WMI_GUID_NOT_FOUND == 0xC0000295 - 0x1_0000_0000,
        STATUS_UNSUCCESSFUL == 0xC0000001 - 0x1_0000_0000,
{
}

} // verus!
