//! Binary interface of the serial bus controller and of the PMIC's superuser
//! node.
use vstd::prelude::*;

verus! {

/// Device type of the controller's codes.
pub const FILE_DEVICE_CONTROLLER: u32 = 0x0000_0004;

/// Execute a transfer sequence.
pub const IOCTL_SPB_EXECUTE_SEQUENCE: u32 = 0x0004_1808;

/// Lock the connection.
pub const IOCTL_SPB_LOCK_CONNECTION: u32 = 0x0004_180C;

/// Unlock the connection.
pub const IOCTL_SPB_UNLOCK_CONNECTION: u32 = 0x0004_1810;

/// No transfer.
pub const SPB_DIRECTION_NONE: u32 = 0;

/// Lock the controller.
pub const IOCTL_SPB_LOCK_CONTROLLER: u32 = 0x0004_1800;

/// Unlock the controller.
pub const IOCTL_SPB_UNLOCK_CONTROLLER: u32 = 0x0004_1804;

/// Full duplex transfer.
pub const IOCTL_SPB_FULL_DUPLEX: u32 = 0x0004_1814;

/// Transfer over several lines.
pub const IOCTL_SPB_MULTI_SPI_TRANSFER: u32 = 0x0004_1818;

/// Attach to the bus extension.
pub const IOCTL_ATTACH: u32 = 0x0032_C004;

/// Superuser register read.
pub const IOCTL_SPMI_SUPERUSER_READ: u32 = 0x85B5_240C;

/// Superuser register write.
pub const IOCTL_SPMI_SUPERUSER_WRITE: u32 = 0x85B5_2410;

/// Superuser bit operation.
pub const IOCTL_SPMI_SUPERUSER_BITOP: u32 = 0x85B5_2414;

/// Superuser claim of a peripheral.
pub const IOCTL_SPMI_SUPERUSER_GRANT: u32 = 0x85B5_2418;

/// Length of the superuser request header.
pub const SPMI_SUPERUSER_HEADER_LEN: usize = 12;

/// Signature of the attach request.
pub const ATTACH_MAGIC: u32 = 0x4269_6541;

/// Length of the attach answer.
pub const ATTACH_REPLY_LEN: usize = 1024;

/// From the device.
pub const SPB_DIRECTION_FROM_DEVICE: u32 = 1;

/// To the device.
pub const SPB_DIRECTION_TO_DEVICE: u32 = 2;

/// One plain buffer.
pub const SPB_FORMAT_SIMPLE: u32 = 1;

/// A list of buffers.
pub const SPB_FORMAT_LIST: u32 = 2;

/// A chain of memory descriptors.
pub const SPB_FORMAT_MDL: u32 = 4;

/// A buffer of a transfer: an offset into the line's data area, and a length.
#[derive(Debug, Clone, Copy, PartialEq, Eq, Structural)]
pub struct SpbTransferBufferListEntry {
    /// Where the buffer starts in the data area; nothing for a null buffer.
    pub buffer: Option<usize>,
    /// Its length.
    pub buffer_cb: u32,
}

/// How a transfer describes its buffer.
#[derive(Debug, Clone, Copy, PartialEq, Eq, Structural)]
pub struct SpbTransferBuffer {
    /// Format.
    pub format: u32,
    /// The buffer.
    pub simple: SpbTransferBufferListEntry,
}

/// One transfer.
#[derive(Debug, Clone, Copy, PartialEq, Eq, Structural)]
pub struct SpbTransferListEntry {
    /// Direction.
    pub direction: u32,
    /// Delay before it (µs).
    pub delay_in_us: u32,
    /// Buffer.
    pub buffer: SpbTransferBuffer,
}

/// Header of a transfer list, with its first transfer.
#[derive(Debug, Clone, Copy)]
pub struct SpbTransferList {
    /// Size of the header.
    pub size: u32,
    /// Always 0.
    pub reserved: u32,
    /// Number of transfers.
    pub transfer_count: u32,
    /// First transfer; the others follow it in memory.
    pub transfers: [SpbTransferListEntry; 1],
}

impl SpbTransferList {
    /// Size of the header with its first transfer.
    #[verifier::allow_in_spec]
    pub fn header_size() -> (size: usize)
        returns
            48usize,
    {
        48
    }

    /// Size of one transfer.
    #[verifier::allow_in_spec]
    pub fn entry_size() -> (size: usize)
        returns
            32usize,
    {
        32
    }

    /// Size of a list with so many transfers, or the largest size where that does
    /// not fit.
    #[verifier::allow_in_spec]
    pub fn area_size(count: usize) -> (size: usize)
        returns
            (if count <= 1 {
                48usize
            } else if 48 + 32 * (count - 1) > usize::MAX {
                usize::MAX
            } else {
                (48 + 32 * (count - 1)) as usize
            }),
    {
        if count <= 1 {
            return Self::header_size();
        }
        match (count - 1).checked_mul(32) {
            Some(rest) => Self::header_size().saturating_add(rest),
            None => usize::MAX,
        }
    }
}

/// A transfer of one plain buffer, without delay.
#[verifier::allow_in_spec]
pub fn entry_init(direction: u32, buffer: Option<usize>, buffer_cb: u32) -> (entry: SpbTransferListEntry)
    returns
        (SpbTransferListEntry {
            direction,
            delay_in_us: 0,
            buffer: SpbTransferBuffer {
                format: SPB_FORMAT_SIMPLE,
                simple: SpbTransferBufferListEntry { buffer, buffer_cb },
            },
        }),
{
    SpbTransferListEntry {
        direction,
        delay_in_us: 0,
        buffer: SpbTransferBuffer {
            format: SPB_FORMAT_SIMPLE,
            simple: SpbTransferBufferListEntry { buffer, buffer_cb },
        },
    }
}

/// The sizes that the controller expects for one, two and three transfers; more
/// transfers never take less room.
pub proof fn law_area_sizes(a: usize, b: usize)
    ensures
        SpbTransferList::area_size(1) == 48,
        SpbTransferList::area_size(2) == 80,
        SpbTransferList::area_size(3) == 112,
        a <= b ==> SpbTransferList::area_size(a) <= SpbTransferList::area_size(b),
{
}

} // verus!
