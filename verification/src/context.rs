//! The device session: the state of one FTDI device attachment and the
//! state machine that orchestrates open, configure, read, write and flush.
//!
//! The raw USB transport is an external collaborator. A session function
//! that needs a control transfer comes in two halves: a request builder
//! (`..._request`) that says exactly which transfer to issue, and a
//! completion function under the operation's own name that takes the
//! transport's reported status and performs the session's state transition.
use vstd::prelude::*;
use crate::constants::EPERM;
use crate::constants::FTDI_DEVICE_IN_REQTYPE;
use crate::constants::FTDI_DEVICE_OUT_REQTYPE;
use crate::constants::READ_BUFFER_CHUNKSIZE;
use crate::constants::SIO_RESET_PURGE_RX;
use crate::constants::SIO_RESET_PURGE_TX;
use crate::constants::SIO_RESET_SIO;
use crate::constants::SIO_TCIFLUSH;
use crate::constants::SIO_TCOFLUSH;
use crate::constants::READ_BUFFER_CHUNKSIZE_LINUX_LOW_KERNEL;
use crate::constants::SIO_RESET_REQUEST;
use crate::constants::WRITE_BUFFER_CHUNKSIZE;
use crate::error::FtdiError;
use crate::error::FtdiErrorKind;
use crate::types::ftdi_chip_type;
use crate::types::ftdi_interface;
use crate::types::ftdi_module_detach_mode;

verus! {

/// How far the transport side of the session has come: the open-requires-
/// context invariant is carried by the type.
#[derive(Clone, Copy, PartialEq, Eq, Structural, Debug)]
pub enum UsbState {
    /// No transport context yet.
    Uninitialized,
    /// The transport context is acquired; no device is open.
    ContextOnly,
    /// A device is open on the acquired context.
    Open,
}

/// One control transfer for the transport to issue: the raw request words
/// and the timeout to enforce.
#[derive(Clone, Copy, PartialEq, Eq, Structural, Debug)]
pub struct ControlRequest {
    pub request_type: u8,
    pub request: u8,
    pub value: u16,
    pub index: u16,
    pub length: u16,
    pub timeout: u32,
}

/// A Linux kernel version, as reported by the running system.
#[derive(Clone, Copy, PartialEq, Eq, Structural, Debug)]
pub struct KernelVersion {
    pub major: u32,
    pub minor: u32,
    pub patch: u32,
}

/// The read-buffer chunk size for a host kernel: kernels old enough that
/// large bulk reads would be split into multiple URBs get the larger legacy
/// chunk size, everything else (a newer kernel, or no kernel version at
/// all) the default.
pub open spec fn spec_buffer_chunksize(kernel_version: Option<KernelVersion>) -> u32 {
    match kernel_version {
        Some(v) => if v.major <= 2 && v.minor <= 6 && v.patch <= 32 {
            READ_BUFFER_CHUNKSIZE_LINUX_LOW_KERNEL
        } else {
            READ_BUFFER_CHUNKSIZE
        },
        None => READ_BUFFER_CHUNKSIZE,
    }
}

/// Picks the read-buffer chunk size from the host's kernel version (`None`
/// where the host has none to report).
pub fn check_and_calculate_buffer_size(kernel_version: Option<KernelVersion>) -> (r: u32)
    ensures
        r == spec_buffer_chunksize(kernel_version),
{
    match kernel_version {
        Some(v) => {
            if v.major <= 2 && v.minor <= 6 && v.patch <= 32 {
                READ_BUFFER_CHUNKSIZE_LINUX_LOW_KERNEL
            } else {
                READ_BUFFER_CHUNKSIZE
            }
        },
        None => READ_BUFFER_CHUNKSIZE,
    }
}

/// The session state of one FTDI device attachment.
pub struct ftdi_context {
    /// How far the transport side has come.
    pub usb_state: UsbState,
    /// USB read timeout, milliseconds.
    pub usb_read_timeout: u32,
    /// USB write timeout, milliseconds.
    pub usb_write_timeout: u32,
    /// The chip family, inferred from the device descriptor on open.
    pub chip_type: ftdi_chip_type,
    /// The configured baud rate; -1 until a rate was programmed.
    pub baudrate: i32,
    /// Whether bitbang mode is active.
    pub bitbang_enabled: bool,
    /// The internal read buffer.
    pub readbuffer: Vec<u8>,
    /// Offset of the first unread byte of the internal read buffer.
    pub readbuffer_offset: u32,
    /// Number of unread bytes in the internal read buffer.
    pub readbuffer_remaining: u32,
    /// Read-buffer chunk size.
    pub readbuffer_chunksize: u32,
    /// Write-buffer chunk size.
    pub writebuffer_chunksize: u32,
    /// Maximum USB packet size, needed to strip the status bytes of every
    /// packet (64 or 512, probed on open).
    pub max_packet_size: u32,
    /// Interface number of the selected port.
    pub interface: u8,
    /// Index word of the selected port.
    pub index: u8,
    /// Bulk endpoint address used for writes.
    pub in_ep: u8,
    /// Bulk endpoint address used for reads.
    pub out_ep: u8,
    /// Bitbang sub-mode.
    pub bitbang_mode: u8,
    /// What to do about a kernel driver already bound to the device.
    pub module_detach_mode: ftdi_module_detach_mode,
}

impl ftdi_context {
    /// The fields that no flush or reset may touch: everything but the
    /// read-buffer counters.
    pub open spec fn spec_same_but_read_counters(&self, other: &ftdi_context) -> bool {
        &&& self.usb_state == other.usb_state
        &&& self.usb_read_timeout == other.usb_read_timeout
        &&& self.usb_write_timeout == other.usb_write_timeout
        &&& self.chip_type == other.chip_type
        &&& self.baudrate == other.baudrate
        &&& self.bitbang_enabled == other.bitbang_enabled
        &&& self.readbuffer@ == other.readbuffer@
        &&& self.readbuffer_chunksize == other.readbuffer_chunksize
        &&& self.writebuffer_chunksize == other.writebuffer_chunksize
        &&& self.max_packet_size == other.max_packet_size
        &&& self.interface == other.interface
        &&& self.index == other.index
        &&& self.in_ep == other.in_ep
        &&& self.out_ep == other.out_ep
        &&& self.bitbang_mode == other.bitbang_mode
        &&& self.module_detach_mode == other.module_detach_mode
    }

    /// An optional transfer status that is present and successful.
    pub open spec fn spec_status_ok(status: Option<i32>) -> bool {
        status matches Some(st) && st >= 0
    }

    /// Both read-buffer counters are zero: no stale buffered data.
    pub open spec fn spec_read_counters_zero(&self) -> bool {
        self.readbuffer_offset == 0 && self.readbuffer_remaining == 0
    }

    /// The read-buffer counters are what they were.
    pub open spec fn spec_read_counters_unchanged(&self, other: &ftdi_context) -> bool {
        self.readbuffer_offset == other.readbuffer_offset && self.readbuffer_remaining
            == other.readbuffer_remaining
    }

    /// A fresh session around an acquired transport context: the defaults
    /// of a new attachment, with the read-buffer chunk size the host
    /// calculated.
    pub fn new(readbuffer_chunksize: u32) -> (r: ftdi_context)
        ensures
            r.usb_state == UsbState::ContextOnly,
            r.usb_read_timeout == 5000,
            r.usb_write_timeout == 5000,
            r.chip_type == ftdi_chip_type::TYPE_BM,
            r.baudrate == -1,
            !r.bitbang_enabled,
            r.readbuffer@.len() == 0,
            r.spec_read_counters_zero(),
            r.readbuffer_chunksize == readbuffer_chunksize,
            r.writebuffer_chunksize == WRITE_BUFFER_CHUNKSIZE,
            r.max_packet_size == 0,
            r.interface == 0,
            r.index == 0,
            r.in_ep == 0,
            r.out_ep == 0,
            r.bitbang_mode == 0,
            r.module_detach_mode == ftdi_module_detach_mode::AUTO_DETACH_SIO_MODULE,
    {
        ftdi_context {
            usb_state: UsbState::ContextOnly,
            usb_read_timeout: 5000,
            usb_write_timeout: 5000,
            chip_type: ftdi_chip_type::TYPE_BM,
            baudrate: -1,
            bitbang_enabled: false,
            readbuffer: Vec::new(),
            readbuffer_offset: 0,
            readbuffer_remaining: 0,
            readbuffer_chunksize,
            writebuffer_chunksize: WRITE_BUFFER_CHUNKSIZE,
            max_packet_size: 0,
            interface: 0,
            index: 0,
            in_ep: 0,
            out_ep: 0,
            bitbang_mode: 0,
            module_detach_mode: ftdi_module_detach_mode::AUTO_DETACH_SIO_MODULE,
        }
    }

    /// Selects the port of a multi-interface chip. The interface number,
    /// the index word and both endpoint addresses are re-derived together;
    /// they never change separately.
    pub fn set_interface_type(&mut self, interface_type: ftdi_interface)
        ensures
            match interface_type {
                ftdi_interface::INTERFACE_ANY | ftdi_interface::INTERFACE_A => {
                    &&& final(self).interface == 0
                    &&& final(self).index == 1
                    &&& final(self).in_ep == 0x02
                    &&& final(self).out_ep == 0x81
                },
                ftdi_interface::INTERFACE_B => {
                    &&& final(self).interface == 1
                    &&& final(self).index == 2
                    &&& final(self).in_ep == 0x04
                    &&& final(self).out_ep == 0x83
                },
                ftdi_interface::INTERFACE_C => {
                    &&& final(self).interface == 2
                    &&& final(self).index == 3
                    &&& final(self).in_ep == 0x06
                    &&& final(self).out_ep == 0x85
                },
                ftdi_interface::INTERFACE_D => {
                    &&& final(self).interface == 3
                    &&& final(self).index == 4
                    &&& final(self).in_ep == 0x08
                    &&& final(self).out_ep == 0x87
                },
            },
            final(self).bitbang_mode == 1,
            final(self).usb_state == old(self).usb_state,
            final(self).usb_read_timeout == old(self).usb_read_timeout,
            final(self).usb_write_timeout == old(self).usb_write_timeout,
            final(self).chip_type == old(self).chip_type,
            final(self).baudrate == old(self).baudrate,
            final(self).bitbang_enabled == old(self).bitbang_enabled,
            final(self).readbuffer@ == old(self).readbuffer@,
            final(self).spec_read_counters_unchanged(old(self)),
            final(self).readbuffer_chunksize == old(self).readbuffer_chunksize,
            final(self).writebuffer_chunksize == old(self).writebuffer_chunksize,
            final(self).max_packet_size == old(self).max_packet_size,
            final(self).module_detach_mode == old(self).module_detach_mode,
    {
        match interface_type {
            ftdi_interface::INTERFACE_ANY | ftdi_interface::INTERFACE_A => {
                self.interface = 0;
                self.index = 1;
                self.in_ep = 0x02;
                self.out_ep = 0x81;
            },
            ftdi_interface::INTERFACE_B => {
                self.interface = 1;
                self.index = 2;
                self.in_ep = 0x04;
                self.out_ep = 0x83;
            },
            ftdi_interface::INTERFACE_C => {
                self.interface = 2;
                self.index = 3;
                self.in_ep = 0x06;
                self.out_ep = 0x85;
            },
            ftdi_interface::INTERFACE_D => {
                self.interface = 3;
                self.index = 4;
                self.in_ep = 0x08;
                self.out_ep = 0x87;
            },
        }
        // When bitbang is enabled this holds the number of the mode.
        self.bitbang_mode = 1;
    }

    /// Fails unless the transport context was acquired.
    pub fn check_usb_context_initialized(&self) -> (r: Result<(), FtdiError>)
        ensures
            r is Ok <==> self.usb_state != UsbState::Uninitialized,
            r is Err ==> r == Err::<(), FtdiError>(
                FtdiError { kind: FtdiErrorKind::UsbInit, code: -8i32 },
            ),
    {
        match self.usb_state {
            UsbState::Uninitialized => Err(FtdiError::usb_init(-8)),
            _ => Ok(()),
        }
    }

    /// Fails unless a device is open.
    pub fn check_usb_device(&self) -> (r: Result<(), FtdiError>)
        ensures
            r is Ok <==> self.usb_state == UsbState::Open,
            r is Err ==> r == Err::<(), FtdiError>(
                FtdiError { kind: FtdiErrorKind::UsbInit, code: -2i32 },
            ),
    {
        match self.usb_state {
            UsbState::Open => Ok(()),
            _ => Err(FtdiError::usb_init(-2)),
        }
    }

    /// The reset-family control request with a given value word.
    pub open spec fn spec_sio_reset_request(&self, value: u16) -> ControlRequest {
        ControlRequest {
            request_type: FTDI_DEVICE_OUT_REQTYPE,
            request: SIO_RESET_REQUEST,
            value,
            index: self.index as u16,
            length: 0,
            timeout: self.usb_write_timeout,
        }
    }

    /// The control transfer of one reset-family command (chip reset or FIFO
    /// flush), selected by its value word. Fails when no device is open.
    fn sio_reset_request(&self, value: u16) -> (r: Result<ControlRequest, FtdiError>)
        ensures
            self.usb_state == UsbState::Open ==> r == Ok::<ControlRequest, FtdiError>(
                self.spec_sio_reset_request(value),
            ),
            self.usb_state != UsbState::Open ==> r == Err::<ControlRequest, FtdiError>(
                FtdiError { kind: FtdiErrorKind::UsbInit, code: -2i32 },
            ),
    {
        if let Err(e) = self.check_usb_device() {
            return Err(e);
        }
        Ok(
            ControlRequest {
                request_type: FTDI_DEVICE_OUT_REQTYPE,
                request: SIO_RESET_REQUEST,
                value,
                index: self.index as u16,
                length: 0,
                timeout: self.usb_write_timeout,
            },
        )
    }

    /// The control transfer of a chip reset (value `SIO_RESET_SIO`); its
    /// completion is `ftdi_usb_reset`.
    pub fn ftdi_usb_reset_request(&self) -> (r: Result<ControlRequest, FtdiError>)
        ensures
            self.usb_state == UsbState::Open ==> r == Ok::<ControlRequest, FtdiError>(
                self.spec_sio_reset_request(SIO_RESET_SIO),
            ),
            self.usb_state != UsbState::Open ==> r == Err::<ControlRequest, FtdiError>(
                FtdiError { kind: FtdiErrorKind::UsbInit, code: -2i32 },
            ),
    {
        self.sio_reset_request(SIO_RESET_SIO)
    }

    /// The control transfer of an RX flush (value `SIO_TCIFLUSH`); its
    /// completion is `ftdi_tciflush`.
    pub fn ftdi_tciflush_request(&self) -> (r: Result<ControlRequest, FtdiError>)
        ensures
            self.usb_state == UsbState::Open ==> r == Ok::<ControlRequest, FtdiError>(
                self.spec_sio_reset_request(SIO_TCIFLUSH),
            ),
            self.usb_state != UsbState::Open ==> r == Err::<ControlRequest, FtdiError>(
                FtdiError { kind: FtdiErrorKind::UsbInit, code: -2i32 },
            ),
    {
        self.sio_reset_request(SIO_TCIFLUSH)
    }

    /// The control transfer of a TX flush (value `SIO_TCOFLUSH`); its
    /// completion is `ftdi_tcoflush`.
    pub fn ftdi_tcoflush_request(&self) -> (r: Result<ControlRequest, FtdiError>)
        ensures
            self.usb_state == UsbState::Open ==> r == Ok::<ControlRequest, FtdiError>(
                self.spec_sio_reset_request(SIO_TCOFLUSH),
            ),
            self.usb_state != UsbState::Open ==> r == Err::<ControlRequest, FtdiError>(
                FtdiError { kind: FtdiErrorKind::UsbInit, code: -2i32 },
            ),
    {
        self.sio_reset_request(SIO_TCOFLUSH)
    }

    /// The control transfer of the legacy RX purge (value
    /// `SIO_RESET_PURGE_RX`); its completion is `ftdi_usb_purge_rx_buffer`.
    pub fn ftdi_usb_purge_rx_buffer_request(&self) -> (r: Result<ControlRequest, FtdiError>)
        ensures
            self.usb_state == UsbState::Open ==> r == Ok::<ControlRequest, FtdiError>(
                self.spec_sio_reset_request(SIO_RESET_PURGE_RX),
            ),
            self.usb_state != UsbState::Open ==> r == Err::<ControlRequest, FtdiError>(
                FtdiError { kind: FtdiErrorKind::UsbInit, code: -2i32 },
            ),
    {
        self.sio_reset_request(SIO_RESET_PURGE_RX)
    }

    /// The control transfer of the legacy TX purge (value
    /// `SIO_RESET_PURGE_TX`); its completion is `ftdi_usb_purge_tx_buffer`.
    pub fn ftdi_usb_purge_tx_buffer_request(&self) -> (r: Result<ControlRequest, FtdiError>)
        ensures
            self.usb_state == UsbState::Open ==> r == Ok::<ControlRequest, FtdiError>(
                self.spec_sio_reset_request(SIO_RESET_PURGE_TX),
            ),
            self.usb_state != UsbState::Open ==> r == Err::<ControlRequest, FtdiError>(
                FtdiError { kind: FtdiErrorKind::UsbInit, code: -2i32 },
            ),
    {
        self.sio_reset_request(SIO_RESET_PURGE_TX)
    }

    /// Completes a chip reset, whose transfer uses value `SIO_RESET_SIO`:
    /// on success any buffered unread data is discarded.
    pub fn ftdi_usb_reset(&mut self, transfer_status: i32) -> (r: Result<(), FtdiError>)
        ensures
            r is Ok <==> (old(self).usb_state == UsbState::Open && transfer_status >= 0),
            final(self).spec_same_but_read_counters(old(self)),
            r is Ok ==> final(self).spec_read_counters_zero(),
            r is Err ==> final(self).spec_read_counters_unchanged(old(self)),
            old(self).usb_state != UsbState::Open ==> r == Err::<(), FtdiError>(
                FtdiError { kind: FtdiErrorKind::UsbInit, code: -2i32 },
            ),
            old(self).usb_state == UsbState::Open && transfer_status < 0 ==> r == Err::<
                (),
                FtdiError,
            >(FtdiError { kind: FtdiErrorKind::UsbCommandError, code: -1i32 }),
    {
        if let Err(e) = self.check_usb_device() {
            return Err(e);
        }
        if transfer_status < 0 {
            return Err(FtdiError::usb_command(-1));
        }
        // Invalidate the data in the read buffer.
        self.readbuffer_offset = 0;
        self.readbuffer_remaining = 0;
        Ok(())
    }

    /// Completes an RX flush (value `SIO_TCIFLUSH`): the chip's read FIFO
    /// was cleared, so on success the local read-buffer counters are reset
    /// too. This is the correct behavior for an RX flush.
    pub fn ftdi_tciflush(&mut self, transfer_status: i32) -> (r: Result<(), FtdiError>)
        ensures
            r is Ok <==> (old(self).usb_state == UsbState::Open && transfer_status >= 0),
            final(self).spec_same_but_read_counters(old(self)),
            r is Ok ==> final(self).spec_read_counters_zero(),
            r is Err ==> final(self).spec_read_counters_unchanged(old(self)),
            old(self).usb_state != UsbState::Open ==> r == Err::<(), FtdiError>(
                FtdiError { kind: FtdiErrorKind::UsbInit, code: -2i32 },
            ),
            old(self).usb_state == UsbState::Open && transfer_status < 0 ==> r == Err::<
                (),
                FtdiError,
            >(FtdiError { kind: FtdiErrorKind::UsbCommandError, code: -1i32 }),
    {
        if let Err(e) = self.check_usb_device() {
            return Err(e);
        }
        if transfer_status < 0 {
            return Err(FtdiError::usb_command(-1));
        }
        // Invalidate the data in the read buffer.
        self.readbuffer_offset = 0;
        self.readbuffer_remaining = 0;
        Ok(())
    }

    /// Completes the legacy RX purge (value `SIO_RESET_PURGE_RX`). The
    /// request code it uses actually clears the chip's write FIFO — kept
    /// for compatibility — but like the RX flush it resets the local
    /// read-buffer counters on success.
    pub fn ftdi_usb_purge_rx_buffer(&mut self, transfer_status: i32) -> (r: Result<(), FtdiError>)
        ensures
            r is Ok <==> (old(self).usb_state == UsbState::Open && transfer_status >= 0),
            final(self).spec_same_but_read_counters(old(self)),
            r is Ok ==> final(self).spec_read_counters_zero(),
            r is Err ==> final(self).spec_read_counters_unchanged(old(self)),
            old(self).usb_state != UsbState::Open ==> r == Err::<(), FtdiError>(
                FtdiError { kind: FtdiErrorKind::UsbInit, code: -2i32 },
            ),
            old(self).usb_state == UsbState::Open && transfer_status < 0 ==> r == Err::<
                (),
                FtdiError,
            >(FtdiError { kind: FtdiErrorKind::UsbCommandError, code: -1i32 }),
    {
        if let Err(e) = self.check_usb_device() {
            return Err(e);
        }
        if transfer_status < 0 {
            return Err(FtdiError::usb_command(-1));
        }
        // Invalidate the data in the read buffer.
        self.readbuffer_offset = 0;
        self.readbuffer_remaining = 0;
        Ok(())
    }

    /// Completes a TX flush (value `SIO_TCOFLUSH`): only the chip's write
    /// FIFO is cleared. The local read-buffer counters are not touched —
    /// buffered read data stays available.
    pub fn ftdi_tcoflush(&mut self, transfer_status: i32) -> (r: Result<(), FtdiError>)
        ensures
            r is Ok <==> (old(self).usb_state == UsbState::Open && transfer_status >= 0),
            final(self).spec_same_but_read_counters(old(self)),
            final(self).spec_read_counters_unchanged(old(self)),
            old(self).usb_state != UsbState::Open ==> r == Err::<(), FtdiError>(
                FtdiError { kind: FtdiErrorKind::UsbInit, code: -2i32 },
            ),
            old(self).usb_state == UsbState::Open && transfer_status < 0 ==> r == Err::<
                (),
                FtdiError,
            >(FtdiError { kind: FtdiErrorKind::UsbCommandError, code: -1i32 }),
    {
        if let Err(e) = self.check_usb_device() {
            return Err(e);
        }
        if transfer_status < 0 {
            return Err(FtdiError::usb_command(-1));
        }
        Ok(())
    }

    /// Completes the legacy TX purge (value `SIO_RESET_PURGE_TX`). The
    /// request code it uses actually clears the chip's read FIFO — kept for
    /// compatibility — and it leaves the local read-buffer counters alone.
    pub fn ftdi_usb_purge_tx_buffer(&mut self, transfer_status: i32) -> (r: Result<(), FtdiError>)
        ensures
            r is Ok <==> (old(self).usb_state == UsbState::Open && transfer_status >= 0),
            final(self).spec_same_but_read_counters(old(self)),
            final(self).spec_read_counters_unchanged(old(self)),
            old(self).usb_state != UsbState::Open ==> r == Err::<(), FtdiError>(
                FtdiError { kind: FtdiErrorKind::UsbInit, code: -2i32 },
            ),
            old(self).usb_state == UsbState::Open && transfer_status < 0 ==> r == Err::<
                (),
                FtdiError,
            >(FtdiError { kind: FtdiErrorKind::UsbCommandError, code: -1i32 }),
    {
        if let Err(e) = self.check_usb_device() {
            return Err(e);
        }
        if transfer_status < 0 {
            return Err(FtdiError::usb_command(-1));
        }
        Ok(())
    }

    /// Completes a flush of both FIFOs, issued as a TX flush followed by an
    /// RX flush. `rx_status` is the second transfer's status, `None` where
    /// the first transfer already failed and the second was never issued.
    pub fn ftdi_tcioflush(&mut self, tx_status: i32, rx_status: Option<i32>) -> (r: Result<
        (),
        FtdiError,
    >)
        ensures
            r is Ok <==> (old(self).usb_state == UsbState::Open && tx_status >= 0 && Self::spec_status_ok(rx_status)),
            final(self).spec_same_but_read_counters(old(self)),
            r is Ok ==> final(self).spec_read_counters_zero(),
            r is Err ==> final(self).spec_read_counters_unchanged(old(self)),
            old(self).usb_state != UsbState::Open ==> r == Err::<(), FtdiError>(
                FtdiError { kind: FtdiErrorKind::UsbInit, code: -2i32 },
            ),
            old(self).usb_state == UsbState::Open && !(tx_status >= 0 && Self::spec_status_ok(rx_status)) ==> r == Err::<(), FtdiError>(
                FtdiError { kind: FtdiErrorKind::UsbCommandError, code: -1i32 },
            ),
    {
        if let Err(e) = self.check_usb_device() {
            return Err(e);
        }
        if let Err(e) = self.ftdi_tcoflush(tx_status) {
            return Err(e);
        }
        match rx_status {
            Some(st) => self.ftdi_tciflush(st),
            None => Err(FtdiError::usb_command(-1)),
        }
    }

    /// Completes the legacy purge of both FIFOs, issued as an RX purge
    /// followed by a TX purge. `tx_status` is the second transfer's status,
    /// `None` where the first already failed. A successful RX purge resets
    /// the local read-buffer counters even when the TX purge then fails.
    pub fn ftdi_usb_purge_buffers(&mut self, rx_status: i32, tx_status: Option<i32>) -> (r: Result<
        (),
        FtdiError,
    >)
        ensures
            r is Ok <==> (old(self).usb_state == UsbState::Open && rx_status >= 0 && Self::spec_status_ok(tx_status)),
            final(self).spec_same_but_read_counters(old(self)),
            old(self).usb_state == UsbState::Open && rx_status >= 0 ==> final(self).spec_read_counters_zero(),
            !(old(self).usb_state == UsbState::Open && rx_status >= 0) ==> final(self).spec_read_counters_unchanged(old(self)),
            old(self).usb_state != UsbState::Open ==> r == Err::<(), FtdiError>(
                FtdiError { kind: FtdiErrorKind::UsbInit, code: -2i32 },
            ),
            old(self).usb_state == UsbState::Open && !(rx_status >= 0 && Self::spec_status_ok(tx_status)) ==> r == Err::<(), FtdiError>(
                FtdiError { kind: FtdiErrorKind::UsbCommandError, code: -1i32 },
            ),
    {
        if let Err(e) = self.check_usb_device() {
            return Err(e);
        }
        if let Err(e) = self.ftdi_usb_purge_rx_buffer(rx_status) {
            return Err(e);
        }
        match tx_status {
            Some(st) => self.ftdi_usb_purge_tx_buffer(st),
            None => Err(FtdiError::usb_command(-1)),
        }
    }

    /// The set-line-property control request for the given frame format.
    pub open spec fn spec_line_property_request(
        &self,
        bits: crate::types::ftdi_bits_type,
        sbit: crate::types::ftdi_stopbits_type,
        parity: crate::types::ftdi_parity_type,
        break_type: crate::types::ftdi_break_type,
    ) -> ControlRequest {
        ControlRequest {
            request_type: FTDI_DEVICE_OUT_REQTYPE,
            request: crate::constants::SIO_SET_BAUDRATE_REQUEST,
            value: crate::line::spec_line_property_value(bits, sbit, parity, break_type),
            index: self.index as u16,
            length: 0,
            timeout: self.usb_write_timeout,
        }
    }

    /// The control transfer that programs the line characteristics, break
    /// state included. Fails when no device is open.
    pub fn ftdi_set_line_property2_request(
        &self,
        bits: crate::types::ftdi_bits_type,
        sbit: crate::types::ftdi_stopbits_type,
        parity: crate::types::ftdi_parity_type,
        break_type: crate::types::ftdi_break_type,
    ) -> (r: Result<ControlRequest, FtdiError>)
        ensures
            self.usb_state == UsbState::Open ==> r == Ok::<ControlRequest, FtdiError>(
                self.spec_line_property_request(bits, sbit, parity, break_type),
            ),
            self.usb_state != UsbState::Open ==> r == Err::<ControlRequest, FtdiError>(
                FtdiError { kind: FtdiErrorKind::UsbInit, code: -2i32 },
            ),
    {
        if let Err(e) = self.check_usb_device() {
            return Err(e);
        }
        let value = crate::line::encode_line_property(bits, sbit, parity, break_type);
        Ok(
            ControlRequest {
                request_type: FTDI_DEVICE_OUT_REQTYPE,
                request: crate::constants::SIO_SET_BAUDRATE_REQUEST,
                value,
                index: self.index as u16,
                length: 0,
                timeout: self.usb_write_timeout,
            },
        )
    }

    /// The control transfer that programs the line characteristics with the
    /// break state defaulted to off.
    pub fn ftdi_set_line_property_request(
        &self,
        bits: crate::types::ftdi_bits_type,
        sbit: crate::types::ftdi_stopbits_type,
        parity: crate::types::ftdi_parity_type,
    ) -> (r: Result<ControlRequest, FtdiError>)
        ensures
            self.usb_state == UsbState::Open ==> r == Ok::<ControlRequest, FtdiError>(
                self.spec_line_property_request(
                    bits,
                    sbit,
                    parity,
                    crate::types::ftdi_break_type::BREAK_OFF,
                ),
            ),
            self.usb_state != UsbState::Open ==> r == Err::<ControlRequest, FtdiError>(
                FtdiError { kind: FtdiErrorKind::UsbInit, code: -2i32 },
            ),
    {
        self.ftdi_set_line_property2_request(
            bits,
            sbit,
            parity,
            crate::types::ftdi_break_type::BREAK_OFF,
        )
    }

    /// Completes a set-line-property transfer: the session state does not
    /// change, a failed transfer surfaces as a command failure.
    pub fn ftdi_set_line_property2(&self, transfer_status: i32) -> (r: Result<(), FtdiError>)
        ensures
            r is Ok <==> (self.usb_state == UsbState::Open && transfer_status >= 0),
            self.usb_state != UsbState::Open ==> r == Err::<(), FtdiError>(
                FtdiError { kind: FtdiErrorKind::UsbInit, code: -2i32 },
            ),
            self.usb_state == UsbState::Open && transfer_status < 0 ==> r == Err::<(), FtdiError>(
                FtdiError { kind: FtdiErrorKind::UsbCommandError, code: -1i32 },
            ),
    {
        if let Err(e) = self.check_usb_device() {
            return Err(e);
        }
        if transfer_status < 0 {
            return Err(FtdiError::usb_command(-1));
        }
        Ok(())
    }

    /// The requested rate after the bitbang adjustment: bitbang mode
    /// quadruples the effective baud multiplier.
    pub open spec fn spec_adjusted_baudrate(&self, baudrate: i32) -> int {
        if self.bitbang_enabled {
            4 * baudrate
        } else {
            baudrate as int
        }
    }

    /// Whether `ftdi_set_baudrate` accepts the request: a device is open,
    /// the adjusted rate is positive, and the achievable rate lies within
    /// tolerance of it.
    pub open spec fn spec_set_baudrate_accepts(&self, baudrate: i32) -> bool {
        let adjusted = self.spec_adjusted_baudrate(baudrate);
        &&& self.usb_state == UsbState::Open
        &&& adjusted > 0
        &&& {
            let words = crate::baudrate::spec_convert_baudrate(self.chip_type, self.index, adjusted);
            words.best_baud > 0 && crate::baudrate::spec_baud_within_tolerance(
                words.best_baud as int,
                adjusted,
            )
        }
    }

    /// The set-baudrate control request that programs the adjusted rate.
    pub open spec fn spec_set_baudrate_request(&self, baudrate: i32) -> ControlRequest {
        let words = crate::baudrate::spec_convert_baudrate(
            self.chip_type,
            self.index,
            self.spec_adjusted_baudrate(baudrate),
        );
        ControlRequest {
            request_type: FTDI_DEVICE_OUT_REQTYPE,
            request: crate::constants::SIO_SET_BAUDRATE_REQUEST,
            value: words.value,
            index: words.index,
            length: 0,
            timeout: self.usb_write_timeout,
        }
    }

    /// The error a rejected set-baudrate request carries: missing device,
    /// or an unsupported rate.
    pub open spec fn spec_set_baudrate_error(&self) -> FtdiError {
        if self.usb_state != UsbState::Open {
            FtdiError { kind: FtdiErrorKind::UsbInit, code: -2i32 }
        } else {
            FtdiError { kind: FtdiErrorKind::UsbCommonError, code: -1i32 }
        }
    }

    /// The control transfer that programs a baud rate. The rate is
    /// quadrupled in bitbang mode, encoded by the chip family's clock
    /// algorithm, and rejected as unsupported when the achievable rate
    /// deviates from the request by more than the tolerance.
    pub fn ftdi_set_baudrate_request(&self, baudrate: i32) -> (r: Result<ControlRequest, FtdiError>)
        requires
            21 * self.spec_adjusted_baudrate(baudrate) <= i32::MAX,
            self.bitbang_enabled ==> i32::MIN <= 4 * baudrate,
        ensures
            r is Ok <==> self.spec_set_baudrate_accepts(baudrate),
            r is Ok ==> r == Ok::<ControlRequest, FtdiError>(
                self.spec_set_baudrate_request(baudrate),
            ),
            r is Err ==> r == Err::<ControlRequest, FtdiError>(
                self.spec_set_baudrate_error(),
            ),
    {
        if let Err(e) = self.check_usb_device() {
            return Err(e);
        }
        let adjusted: i32 = if self.bitbang_enabled {
            baudrate * 4
        } else {
            baudrate
        };
        let words = match crate::baudrate::ftdi_convert_baudrate(
            self.chip_type,
            self.index,
            adjusted,
        ) {
            Ok(w) => w,
            Err(_) => {
                return Err(FtdiError::usb_common(-1));
            },
        };
        let actual: i32 = words.best_baud as i32;
        if actual <= 0 {
            return Err(FtdiError::usb_common(-1));
        }
        // Check the achievable rate against the request, within about five
        // percent, with a guard against gross undershoot.
        let out_of_tolerance = if actual < adjusted {
            actual * 21 < adjusted * 20
        } else {
            adjusted * 21 < actual * 20
        };
        if actual * 2 < adjusted || out_of_tolerance {
            return Err(FtdiError::usb_common(-1));
        }
        Ok(
            ControlRequest {
                request_type: FTDI_DEVICE_OUT_REQTYPE,
                request: crate::constants::SIO_SET_BAUDRATE_REQUEST,
                value: words.value,
                index: words.index,
                length: 0,
                timeout: self.usb_write_timeout,
            },
        )
    }

    /// Completes a set-baudrate transfer: on success the requested
    /// (unadjusted) rate is recorded in the session. All rejection cases of
    /// the request builder fail here identically; a failed transfer is a
    /// command failure and leaves the session unchanged.
    pub fn ftdi_set_baudrate(&mut self, baudrate: i32, transfer_status: i32) -> (r: Result<
        (),
        FtdiError,
    >)
        requires
            21 * old(self).spec_adjusted_baudrate(baudrate) <= i32::MAX,
            old(self).bitbang_enabled ==> i32::MIN <= 4 * baudrate,
        ensures
            r is Ok <==> (old(self).spec_set_baudrate_accepts(baudrate) && transfer_status >= 0),
            r is Ok ==> *final(self) == (ftdi_context { baudrate, ..*old(self) }),
            r is Err ==> *final(self) == *old(self),
            !old(self).spec_set_baudrate_accepts(baudrate) ==> r == Err::<(), FtdiError>(
                old(self).spec_set_baudrate_error(),
            ),
            old(self).spec_set_baudrate_accepts(baudrate) && transfer_status < 0 ==> r == Err::<
                (),
                FtdiError,
            >(FtdiError { kind: FtdiErrorKind::UsbCommandError, code: -2i32 }),
    {
        if let Err(e) = self.ftdi_set_baudrate_request(baudrate) {
            return Err(e);
        }
        if transfer_status < 0 {
            return Err(FtdiError::usb_command(-2));
        }
        self.baudrate = baudrate;
        Ok(())
    }

    /// The control transfer that reads one 16-bit EEPROM word, as the
    /// chip-id sequence issues at its two fixed addresses.
    pub fn ftdi_read_chipid_request(&self, eeprom_addr: u16) -> (r: Result<
        ControlRequest,
        FtdiError,
    >)
        ensures
            self.usb_state == UsbState::Open ==> r == Ok::<ControlRequest, FtdiError>(
                ControlRequest {
                    request_type: FTDI_DEVICE_IN_REQTYPE,
                    request: crate::constants::SIO_READ_EEPROM_REQUEST,
                    value: 0,
                    index: eeprom_addr,
                    length: 2,
                    timeout: self.usb_read_timeout,
                },
            ),
            self.usb_state != UsbState::Open ==> r == Err::<ControlRequest, FtdiError>(
                FtdiError { kind: FtdiErrorKind::UsbInit, code: -2i32 },
            ),
    {
        if let Err(e) = self.check_usb_device() {
            return Err(e);
        }
        Ok(
            ControlRequest {
                request_type: FTDI_DEVICE_IN_REQTYPE,
                request: crate::constants::SIO_READ_EEPROM_REQUEST,
                value: 0,
                index: eeprom_addr,
                length: 2,
                timeout: self.usb_read_timeout,
            },
        )
    }

    /// Computes the FTDIChip-ID from the two EEPROM words read at the fixed
    /// addresses 0x43 and 0x44. A word is `None` where its transfer did not
    /// return exactly two bytes; either missing word is a command failure.
    pub fn ftdi_read_chipid(&self, word_a: Option<u16>, word_b: Option<u16>) -> (r: Result<
        u32,
        FtdiError,
    >)
        ensures
            self.usb_state != UsbState::Open ==> r == Err::<u32, FtdiError>(
                FtdiError { kind: FtdiErrorKind::UsbInit, code: -2i32 },
            ),
            self.usb_state == UsbState::Open ==> match (word_a, word_b) {
                (Some(a), Some(b)) => r == Ok::<u32, FtdiError>(crate::chipid::spec_chipid(a, b)),
                _ => r == Err::<u32, FtdiError>(
                    FtdiError { kind: FtdiErrorKind::UsbCommandError, code: -1i32 },
                ),
            },
    {
        if let Err(e) = self.check_usb_device() {
            return Err(e);
        }
        match (word_a, word_b) {
            (Some(a), Some(b)) => Ok(crate::chipid::ftdi_chipid_combine(a, b)),
            _ => Err(FtdiError::usb_command(-1)),
        }
    }
}

/// The chip family a device descriptor announces, by its device-release
/// number: the BM revision reports 0x400, or 0x200 with no serial-number
/// string (a known BM quirk); 0x200 with a serial string is the AM
/// revision; the later families each have their own value.
pub open spec fn spec_chip_type_guess(bcd_device: u16, i_serial_number: u8) -> Option<
    ftdi_chip_type,
> {
    if bcd_device == 0x400 || (bcd_device == 0x200 && i_serial_number == 0) {
        Some(ftdi_chip_type::TYPE_BM)
    } else if bcd_device == 0x200 {
        Some(ftdi_chip_type::TYPE_AM)
    } else if bcd_device == 0x500 {
        Some(ftdi_chip_type::TYPE_2232C)
    } else if bcd_device == 0x600 {
        Some(ftdi_chip_type::TYPE_R)
    } else if bcd_device == 0x700 {
        Some(ftdi_chip_type::TYPE_2232H)
    } else if bcd_device == 0x800 {
        Some(ftdi_chip_type::TYPE_4232H)
    } else if bcd_device == 0x900 {
        Some(ftdi_chip_type::TYPE_232H)
    } else if bcd_device == 0x1000 {
        Some(ftdi_chip_type::TYPE_230X)
    } else {
        None::<ftdi_chip_type>
    }
}

/// Infers the chip family from the descriptor's device-release number and
/// serial-string index; an unrecognized value fails as an unknown chip.
pub fn chip_type_guess(bcd_device: u16, i_serial_number: u8) -> (r: Result<
    ftdi_chip_type,
    FtdiError,
>)
    ensures
        match spec_chip_type_guess(bcd_device, i_serial_number) {
            Some(t) => r == Ok::<ftdi_chip_type, FtdiError>(t),
            None => r == Err::<ftdi_chip_type, FtdiError>(
                FtdiError { kind: FtdiErrorKind::UsbInit, code: -8i32 },
            ),
        },
{
    if bcd_device == 0x400 || (bcd_device == 0x200 && i_serial_number == 0) {
        Ok(ftdi_chip_type::TYPE_BM)
    } else if bcd_device == 0x200 {
        Ok(ftdi_chip_type::TYPE_AM)
    } else if bcd_device == 0x500 {
        Ok(ftdi_chip_type::TYPE_2232C)
    } else if bcd_device == 0x600 {
        Ok(ftdi_chip_type::TYPE_R)
    } else if bcd_device == 0x700 {
        Ok(ftdi_chip_type::TYPE_2232H)
    } else if bcd_device == 0x800 {
        Ok(ftdi_chip_type::TYPE_4232H)
    } else if bcd_device == 0x900 {
        Ok(ftdi_chip_type::TYPE_232H)
    } else if bcd_device == 0x1000 {
        Ok(ftdi_chip_type::TYPE_230X)
    } else {
        Err(FtdiError::usb_init(-8))
    }
}

/// What the transport reported of the active configuration's first
/// interface, first alt-setting and first endpoint, for the maximum-packet-
/// size probe.
#[derive(Clone, Copy, PartialEq, Eq, Structural, Debug)]
pub struct ConfigSummary {
    /// Number of configurations of the device descriptor.
    pub num_configurations: u8,
    /// Number of interfaces of the active configuration.
    pub num_interfaces: u8,
    /// Number of alt-settings of the probed interface.
    pub num_altsetting: u32,
    /// Number of endpoints of the first alt-setting.
    pub num_endpoints: u8,
    /// Maximum packet size of the first endpoint.
    pub max_packet_size: u16,
}

/// The maximum packet size of a session: the chip family's default (512 for
/// the high-speed families, 64 otherwise), overridden by the first
/// endpoint's descriptor where the probed configuration reaches one.
pub open spec fn spec_max_packet_size(
    chip_type: ftdi_chip_type,
    interface: u8,
    probe: Option<ConfigSummary>,
) -> u32 {
    let dflt: u32 = if chip_type.spec_is_h_type() {
        512
    } else {
        64
    };
    match probe {
        Some(c) => if c.num_configurations > 0 && (interface as u32) < c.num_interfaces as u32
            && c.num_altsetting > 0 && c.num_endpoints > 0 {
            c.max_packet_size as u32
        } else {
            dflt
        },
        None => dflt,
    }
}

impl ftdi_context {
    /// Determines the session's maximum packet size from the descriptor
    /// probe (`None` where the descriptor queries failed, which falls back
    /// to the chip family's default). Fails when no device is open.
    pub fn ftdi_determine_max_packet_size(&self, probe: Option<ConfigSummary>) -> (r: Result<
        u32,
        FtdiError,
    >)
        ensures
            self.usb_state == UsbState::Open ==> r == Ok::<u32, FtdiError>(
                spec_max_packet_size(self.chip_type, self.interface, probe),
            ),
            self.usb_state != UsbState::Open ==> r == Err::<u32, FtdiError>(
                FtdiError { kind: FtdiErrorKind::UsbInit, code: -2i32 },
            ),
    {
        if let Err(e) = self.check_usb_device() {
            return Err(e);
        }
        // High-speed devices use 512-byte packets, but may sit behind a
        // normal-speed hub and then use 64-byte packets.
        let dflt: u32 = if self.chip_type.is_h_type() {
            512
        } else {
            64
        };
        match probe {
            Some(c) => {
                if c.num_configurations > 0 && (self.interface as u32) < c.num_interfaces as u32
                    && c.num_altsetting > 0 && c.num_endpoints > 0 {
                    Ok(c.max_packet_size as u32)
                } else {
                    Ok(dflt)
                }
            },
            None => Ok(dflt),
        }
    }
}


/// What the device descriptor reported during an open, as far as the open
/// sequence reads it.
#[derive(Clone, Copy, PartialEq, Eq, Structural, Debug)]
pub struct DescriptorSummary {
    /// The device-release number, which announces the chip family.
    pub bcd_device: u16,
    /// Index of the serial-number string descriptor (0 when absent).
    pub i_serial_number: u8,
    /// Number of configurations.
    pub num_configurations: u8,
}

/// Everything the transport reported while one device was opened: the
/// caller performs the handshake transfers in order and hands their plain
/// results back; a `None` stands for a query or transfer that failed or was
/// never reached.
#[derive(Clone, Copy, PartialEq, Eq, Structural, Debug)]
pub struct OpenDevTranscript {
    /// Whether the device itself could be opened.
    pub opened: bool,
    /// The device descriptor.
    pub descriptor: Option<DescriptorSummary>,
    /// The configuration value of the first configuration descriptor.
    pub config0: Option<i32>,
    /// The error code a kernel-driver detach left behind (0 where it
    /// succeeded or was skipped). Consulted only if the configuration step
    /// fails.
    pub detach_errno: i32,
    /// The device's currently active configuration.
    pub current_config: Option<i32>,
    /// Status of the set-configuration transfer; `Some` exactly where one
    /// was issued.
    pub set_config_status: Option<i32>,
    /// Status of the reset control transfer.
    pub reset_status: Option<i32>,
    /// The descriptor probe for the maximum packet size.
    pub packet_size_probe: Option<ConfigSummary>,
    /// Status of the control transfer that programs the default baud rate.
    pub baud_status: Option<i32>,
}

/// Whether the open sequence must program the device's default
/// configuration: it has configurations and another one is active.
pub open spec fn spec_needs_set_configuration(
    num_configurations: u8,
    current_config: i32,
    config0: i32,
) -> bool {
    num_configurations > 0 && current_config != config0
}

/// Whether the open sequence must program the device's default
/// configuration.
pub fn needs_set_configuration(num_configurations: u8, current_config: i32, config0: i32) -> (r:
    bool)
    ensures
        r == spec_needs_set_configuration(num_configurations, current_config, config0),
{
    num_configurations > 0 && current_config != config0
}

/// The error that ends an open sequence with the given transcript, or
/// `None` where the sequence runs to completion. The checks happen in the
/// order the handshake performs them.
pub open spec fn spec_open_dev_error(ctx: &ftdi_context, t: &OpenDevTranscript) -> Option<
    FtdiError,
> {
    if ctx.usb_state == UsbState::Uninitialized {
        Some(FtdiError { kind: FtdiErrorKind::UsbInit, code: -8i32 })
    } else if !t.opened {
        Some(FtdiError { kind: FtdiErrorKind::UsbInit, code: -4i32 })
    } else if t.descriptor is None {
        Some(FtdiError { kind: FtdiErrorKind::UsbCommandError, code: -9i32 })
    } else if t.config0 is None {
        Some(FtdiError { kind: FtdiErrorKind::UsbCommandError, code: -10i32 })
    } else if t.current_config is None {
        Some(FtdiError { kind: FtdiErrorKind::UsbInit, code: -12i32 })
    } else if spec_needs_set_configuration(
        t.descriptor->Some_0.num_configurations,
        t.current_config->Some_0,
        t.config0->Some_0,
    ) && !ftdi_context::spec_status_ok(t.set_config_status) {
        if t.detach_errno == EPERM {
            Some(FtdiError { kind: FtdiErrorKind::UsbPermissionError, code: -8i32 })
        } else {
            Some(FtdiError { kind: FtdiErrorKind::UsbCommandError, code: -8i32 })
        }
    } else if !ftdi_context::spec_status_ok(t.reset_status) {
        Some(FtdiError { kind: FtdiErrorKind::UsbCommandError, code: -1i32 })
    } else if spec_chip_type_guess(
        t.descriptor->Some_0.bcd_device,
        t.descriptor->Some_0.i_serial_number,
    ) is None {
        Some(FtdiError { kind: FtdiErrorKind::UsbInit, code: -8i32 })
    } else {
        let staged = spec_open_dev_staged(ctx, t);
        if !staged.spec_set_baudrate_accepts(9600) {
            Some(FtdiError { kind: FtdiErrorKind::UsbCommonError, code: -1i32 })
        } else if !ftdi_context::spec_status_ok(t.baud_status) {
            Some(FtdiError { kind: FtdiErrorKind::UsbCommandError, code: -2i32 })
        } else {
            None::<FtdiError>
        }
    }
}

/// The session after the open sequence's state transitions, before the
/// default baud rate is recorded: the device attached, the read buffer
/// invalidated, the chip family inferred and the packet size probed.
pub open spec fn spec_open_dev_staged(ctx: &ftdi_context, t: &OpenDevTranscript) -> ftdi_context {
    let chip = spec_chip_type_guess(
        t.descriptor->Some_0.bcd_device,
        t.descriptor->Some_0.i_serial_number,
    )->Some_0;
    ftdi_context {
        usb_state: UsbState::Open,
        chip_type: chip,
        readbuffer_offset: 0,
        readbuffer_remaining: 0,
        max_packet_size: spec_max_packet_size(chip, ctx.interface, t.packet_size_probe),
        ..*ctx
    }
}

/// The session state each outcome of the open sequence leaves behind. The
/// handshake mutates nothing until the device attaches; each later failure
/// keeps exactly the transitions made before it: the reset may fail with
/// the device attached, the chip guess with the read buffer already
/// invalidated, and the baud-rate step with the packet size already probed.
pub open spec fn spec_open_dev_final(ctx: &ftdi_context, t: &OpenDevTranscript) -> ftdi_context {
    if ctx.usb_state == UsbState::Uninitialized || !t.opened || t.descriptor is None
        || t.config0 is None || t.current_config is None || (spec_needs_set_configuration(
        t.descriptor->Some_0.num_configurations,
        t.current_config->Some_0,
        t.config0->Some_0,
    ) && !ftdi_context::spec_status_ok(t.set_config_status)) {
        *ctx
    } else if !ftdi_context::spec_status_ok(t.reset_status) {
        ftdi_context { usb_state: UsbState::Open, ..*ctx }
    } else if spec_chip_type_guess(
        t.descriptor->Some_0.bcd_device,
        t.descriptor->Some_0.i_serial_number,
    ) is None {
        ftdi_context {
            usb_state: UsbState::Open,
            readbuffer_offset: 0,
            readbuffer_remaining: 0,
            ..*ctx
        }
    } else {
        let staged = spec_open_dev_staged(ctx, t);
        if !staged.spec_set_baudrate_accepts(9600) || !ftdi_context::spec_status_ok(
            t.baud_status,
        ) {
            staged
        } else {
            ftdi_context { baudrate: 9600, ..staged }
        }
    }
}

impl ftdi_context {
    /// Runs the open sequence's decisions and state transitions over the
    /// transcript of one device-open handshake: the configuration step —
    /// whose failure is a permission-denied report when the kernel-driver
    /// detach before it was refused with `EPERM`, and a configuration
    /// failure otherwise (a refused detach alone never fails an open) —
    /// then attaching the device, the reset that discards any buffered
    /// unread data, chip-family inference, the maximum-packet-size probe
    /// and the default baud rate of 9600.
    ///
    /// After any successful open the read-buffer counters are zero; on an
    /// error the session holds exactly the transitions made before the
    /// failing step.
    pub fn ftdi_usb_open_dev(&mut self, t: &OpenDevTranscript) -> (r: Result<(), FtdiError>)
        ensures
            match spec_open_dev_error(old(self), t) {
                Some(e) => r == Err::<(), FtdiError>(e),
                None => r is Ok,
            },
            *final(self) == spec_open_dev_final(old(self), t),
            r is Ok ==> final(self).usb_state == UsbState::Open && final(self).spec_read_counters_zero(),
    {
        if let Err(e) = self.check_usb_context_initialized() {
            return Err(e);
        }
        if !t.opened {
            return Err(FtdiError::usb_init(-4));
        }
        let descriptor = match t.descriptor {
            Some(d) => d,
            None => {
                return Err(FtdiError::usb_command(-9));
            },
        };
        let config0 = match t.config0 {
            Some(c) => c,
            None => {
                return Err(FtdiError::usb_command(-10));
            },
        };
        let current_config = match t.current_config {
            Some(c) => c,
            None => {
                return Err(FtdiError::usb_init(-12));
            },
        };
        // Apply the device's default configuration if another is active.
        // The kernel-driver detach that ran before may have been denied and
        // everything still works; its errno matters only when this step
        // fails (a denied detach makes it a permission problem rather than
        // a configuration problem).
        if descriptor.num_configurations > 0 && current_config != config0 {
            let set_ok = match t.set_config_status {
                Some(st) => st >= 0,
                None => false,
            };
            if !set_ok {
                if t.detach_errno == EPERM {
                    return Err(FtdiError::usb_permission(-8));
                }
                return Err(FtdiError::usb_command(-8));
            }
        }
        self.usb_state = UsbState::Open;
        // Reset the device and discard any buffered unread data.
        let reset_ok = match t.reset_status {
            Some(st) => st >= 0,
            None => false,
        };
        if !reset_ok {
            return Err(FtdiError::usb_command(-1));
        }
        self.readbuffer_offset = 0;
        self.readbuffer_remaining = 0;
        // Infer the chip family from the descriptor.
        let chip = match chip_type_guess(descriptor.bcd_device, descriptor.i_serial_number) {
            Ok(c) => c,
            Err(e) => {
                return Err(e);
            },
        };
        self.chip_type = chip;
        // Determine the maximum packet size.
        let mps = match self.ftdi_determine_max_packet_size(t.packet_size_probe) {
            Ok(m) => m,
            Err(e) => {
                return Err(e);
            },
        };
        self.max_packet_size = mps;
        // Program the session's default baud rate; a transfer that was
        // never issued counts as failed.
        let baud_status: i32 = match t.baud_status {
            Some(st) => st,
            None => -1,
        };
        match self.ftdi_set_baudrate(9600, baud_status) {
            Ok(_) => Ok(()),
            Err(e) => Err(e),
        }
    }
}


/// Whether a sequence of per-chunk transfer results carries a write of
/// `len` bytes to completion from `offset` on: every chunk's result is
/// non-negative, progress follows the reported lengths, and the results do
/// not run out early.
pub open spec fn spec_write_completes(len: int, results: Seq<i32>, offset: int) -> bool
    decreases results.len(),
{
    if offset >= len {
        true
    } else if results.len() == 0 {
        false
    } else if results[0] < 0 {
        false
    } else {
        spec_write_completes(len, results.skip(1), offset + results[0])
    }
}

impl ftdi_context {
    /// The size of the bulk-write chunk that starts at `offset` of a
    /// `buffer_len`-byte buffer: the write-buffer chunk size, or what is
    /// left of the buffer, whichever is smaller.
    pub fn write_chunk_size(&self, buffer_len: usize, offset: usize) -> (r: usize)
        requires
            offset < buffer_len,
        ensures
            r == vstd::math::min(
                self.writebuffer_chunksize as int,
                buffer_len - offset,
            ),
            r >= 1 || self.writebuffer_chunksize == 0,
    {
        let remaining = buffer_len - offset;
        if (self.writebuffer_chunksize as usize) < remaining {
            self.writebuffer_chunksize as usize
        } else {
            remaining
        }
    }

    /// Replays a bulk write of `buffer_len` bytes over the transport's
    /// per-chunk results, in order: each sequential transfer advances by
    /// the actual length the transport reported. Succeeds with the total
    /// byte count exactly when the chunks carried the write to completion;
    /// an empty buffer succeeds at once with zero. A negative result — or a
    /// transfer that was never issued — aborts the remaining chunks as a
    /// command failure.
    pub fn ftdi_write_data(&self, buffer_len: usize, chunk_results: &Vec<i32>) -> (r: Result<
        usize,
        FtdiError,
    >)
        ensures
            self.usb_state != UsbState::Open ==> r == Err::<usize, FtdiError>(
                FtdiError { kind: FtdiErrorKind::UsbInit, code: -2i32 },
            ),
            self.usb_state == UsbState::Open ==> r == (if spec_write_completes(
                buffer_len as int,
                chunk_results@,
                0,
            ) {
                Ok::<usize, FtdiError>(buffer_len)
            } else {
                Err::<usize, FtdiError>(
                    FtdiError { kind: FtdiErrorKind::UsbCommandError, code: -1i32 },
                )
            }),
    {
        if let Err(e) = self.check_usb_device() {
            return Err(e);
        }
        if buffer_len == 0 {
            // Nothing to write is not an error.
            return Ok(0);
        }
        let mut offset: usize = 0;
        let mut k: usize = 0;
        proof {
            assert(chunk_results@.skip(0) =~= chunk_results@);
        }
        while offset < buffer_len
            invariant
                self.usb_state == UsbState::Open,
                buffer_len > 0,
                k <= chunk_results@.len(),
                offset <= buffer_len,
                spec_write_completes(buffer_len as int, chunk_results@, 0)
                    == spec_write_completes(
                    buffer_len as int,
                    chunk_results@.skip(k as int),
                    offset as int,
                ),
            decreases chunk_results@.len() - k,
        {
            if k == chunk_results.len() {
                proof {
                    assert(chunk_results@.skip(k as int).len() == 0);
                }
                return Err(FtdiError::usb_command(-1));
            }
            let st = chunk_results[k];
            proof {
                assert(chunk_results@.skip(k as int)[0] == chunk_results@[k as int]);
                assert(chunk_results@.skip(k as int).skip(1) =~= chunk_results@.skip(k + 1));
            }
            if st < 0 {
                return Err(FtdiError::usb_command(-1));
            }
            // Advance by the actual written length the transport reported,
            // capped at the end of the buffer.
            let remaining = buffer_len - offset;
            let advance: usize = if (st as usize) < remaining {
                st as usize
            } else {
                remaining
            };
            proof {
                let rest = chunk_results@.skip(k as int);
                assert(spec_write_completes(buffer_len as int, rest, offset as int)
                    == spec_write_completes(
                    buffer_len as int,
                    chunk_results@.skip(k + 1),
                    offset + st,
                ));
            }
            offset = offset + advance;
            k = k + 1;
        }
        Ok(buffer_len)
    }
}


impl Default for ftdi_context {
    /// An uninitialized session: no transport context, the defaults of a
    /// new attachment, and no read-buffer chunk size calculated yet.
    fn default() -> (r: ftdi_context)
        ensures
            r.usb_state == UsbState::Uninitialized,
            r.usb_read_timeout == 5000,
            r.usb_write_timeout == 5000,
            r.chip_type == ftdi_chip_type::TYPE_BM,
            r.baudrate == -1,
            !r.bitbang_enabled,
            r.readbuffer@.len() == 0,
            r.spec_read_counters_zero(),
            r.readbuffer_chunksize == 0,
            r.writebuffer_chunksize == WRITE_BUFFER_CHUNKSIZE,
            r.max_packet_size == 0,
            r.interface == 0,
            r.index == 0,
            r.in_ep == 0,
            r.out_ep == 0,
            r.bitbang_mode == 0,
            r.module_detach_mode == ftdi_module_detach_mode::AUTO_DETACH_SIO_MODULE,
    {
        ftdi_context {
            usb_state: UsbState::Uninitialized,
            usb_read_timeout: 5000,
            usb_write_timeout: 5000,
            chip_type: ftdi_chip_type::TYPE_BM,
            baudrate: -1,
            bitbang_enabled: false,
            readbuffer: Vec::new(),
            readbuffer_offset: 0,
            readbuffer_remaining: 0,
            readbuffer_chunksize: 0,
            writebuffer_chunksize: WRITE_BUFFER_CHUNKSIZE,
            max_packet_size: 0,
            interface: 0,
            index: 0,
            in_ep: 0,
            out_ep: 0,
            bitbang_mode: 0,
            module_detach_mode: ftdi_module_detach_mode::AUTO_DETACH_SIO_MODULE,
        }
    }
}

/// What the open sequence asks of the transport about a conflicting kernel
/// driver, per the session's detach policy.
#[derive(Clone, Copy, PartialEq, Eq, Structural, Debug)]
pub enum DetachAction {
    /// Leave an attached kernel driver alone.
    LeaveAttached,
    /// Detach the kernel driver now; record a failure without aborting.
    DetachDriver,
    /// Turn on the transport's reattach-on-close behavior.
    EnableAutoDetach,
}

impl ftdi_context {
    /// The kernel-driver action the open sequence performs for this
    /// session's detach policy.
    pub fn detach_action(&self) -> (r: DetachAction)
        ensures
            r == (match self.module_detach_mode {
                ftdi_module_detach_mode::AUTO_DETACH_SIO_MODULE => DetachAction::DetachDriver,
                ftdi_module_detach_mode::DONT_DETACH_SIO_MODULE => DetachAction::LeaveAttached,
                ftdi_module_detach_mode::AUTO_DETACH_REATACH_SIO_MODULE => (
                DetachAction::EnableAutoDetach),
            }),
    {
        match self.module_detach_mode {
            ftdi_module_detach_mode::AUTO_DETACH_SIO_MODULE => DetachAction::DetachDriver,
            ftdi_module_detach_mode::DONT_DETACH_SIO_MODULE => DetachAction::LeaveAttached,
            ftdi_module_detach_mode::AUTO_DETACH_REATACH_SIO_MODULE => (
            DetachAction::EnableAutoDetach),
        }
    }

    /// Law: every baud rate the session accepts is within five percent of
    /// the (bitbang-adjusted) request — the achievable rate the clock
    /// encoder reports deviates from the adjusted request by at most one
    /// twentieth of it.
    pub proof fn lemma_accepted_baudrate_within_tolerance(&self, baudrate: i32)
        requires
            self.spec_set_baudrate_accepts(baudrate),
        ensures
            20 * crate::baudrate::spec_diff(
                crate::baudrate::spec_convert_baudrate(
                    self.chip_type,
                    self.index,
                    self.spec_adjusted_baudrate(baudrate),
                ).best_baud as int,
                self.spec_adjusted_baudrate(baudrate),
            ) <= self.spec_adjusted_baudrate(baudrate),
    {
        let adjusted = self.spec_adjusted_baudrate(baudrate);
        let words = crate::baudrate::spec_convert_baudrate(self.chip_type, self.index, adjusted);
        crate::baudrate::lemma_tolerance_bounds_deviation(words.best_baud as int, adjusted);
    }
}

} // verus!
