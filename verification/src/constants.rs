//! Protocol constants of the FTDI vendor-request layout and the session's
//! buffer sizing defaults.
use vstd::prelude::*;

verus! {

/// Request type of a host-to-device vendor control transfer
/// (vendor request, device recipient, OUT direction).
pub const FTDI_DEVICE_OUT_REQTYPE: u8 = 0x40;

/// Request type of a device-to-host vendor control transfer
/// (vendor request, device recipient, IN direction).
pub const FTDI_DEVICE_IN_REQTYPE: u8 = 0xC0;

/// Vendor request that resets the chip or purges one of its FIFOs;
/// the value word selects which.
pub const SIO_RESET_REQUEST: u8 = 0;

/// Vendor request that programs the baud-rate clock divisor.
pub const SIO_SET_BAUDRATE_REQUEST: u8 = 3;

/// Vendor request that reads one 16-bit word of the chip's EEPROM.
pub const SIO_READ_EEPROM_REQUEST: u8 = 0x90;

/// Value word of `SIO_RESET_REQUEST`: full reset.
pub const SIO_RESET_SIO: u16 = 0;

/// Value word of `SIO_RESET_REQUEST`: purge the chip's RX FIFO
/// (legacy request code; see the flush family on the session).
pub const SIO_RESET_PURGE_RX: u16 = 1;

/// Value word of `SIO_RESET_REQUEST`: purge the chip's TX FIFO
/// (legacy request code; see the flush family on the session).
pub const SIO_RESET_PURGE_TX: u16 = 2;

/// Value word of `SIO_RESET_REQUEST`: flush the chip's input (read) FIFO.
pub const SIO_TCIFLUSH: u16 = 2;

/// Value word of `SIO_RESET_REQUEST`: flush the chip's output (write) FIFO.
pub const SIO_TCOFLUSH: u16 = 1;

/// Fixed chunk size for splitting bulk writes.
pub const WRITE_BUFFER_CHUNKSIZE: u32 = 4096;

/// Default read-buffer chunk size.
pub const READ_BUFFER_CHUNKSIZE: u32 = 4096;

/// Read-buffer chunk size used on Linux kernels old enough that larger bulk
/// reads would be split into multiple URBs.
pub const READ_BUFFER_CHUNKSIZE_LINUX_LOW_KERNEL: u32 = 16384;

/// Size of the session's internal read buffer.
pub const FTDI_MAX_EEPROM_SIZE: usize = 256;

/// Base clock of the high-speed chip families, in Hz.
pub const H_CLK: u32 = 120000000;

/// Base clock of the classic chip families, in Hz.
pub const C_CLK: u32 = 48000000;

/// The transport's transfer-status value for a cancelled transfer.
pub const LIBUSB_TRANSFER_CANCELLED: i32 = 3;

/// Errno value that marks a kernel-driver detach refused for lack of
/// permission; it selects the distinct permission-denied error when the
/// subsequent configuration-set step fails.
pub const EPERM: i32 = 1;

} // verus!
