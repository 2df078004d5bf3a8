//! The error taxonomy of the driver. Every fallible operation returns an
//! `FtdiError` carrying the failure kind and a numeric code preserved from
//! the legacy error-code space; `message` renders a human-readable text.
use vstd::prelude::*;

verus! {

/// The kind of a failure.
#[derive(Clone, Copy, PartialEq, Eq, Structural, Debug)]
pub enum FtdiErrorKind {
    /// Transport-init failure: USB context setup or device open failed.
    UsbInit,
    /// Command failure: a control or bulk transfer returned an error result.
    UsbCommandError,
    /// Permission-denied: applying the device's configuration failed after
    /// a kernel-driver detach was refused for lack of permission. Kept
    /// distinct from the generic configuration failure.
    UsbPermissionError,
    /// Protocol or validation failure: malformed selector string,
    /// out-of-tolerance baud rate, unrecognized chip identity.
    UsbCommonError,
}

/// A structured failure: its kind and a numeric code of the legacy
/// error-code space.
#[derive(Clone, Copy, PartialEq, Eq, Structural, Debug)]
pub struct FtdiError {
    pub kind: FtdiErrorKind,
    pub code: i32,
}

impl FtdiError {
    /// A transport-init failure with the given code.
    pub fn usb_init(code: i32) -> (r: FtdiError)
        ensures
            r == (FtdiError { kind: FtdiErrorKind::UsbInit, code }),
    {
        FtdiError { kind: FtdiErrorKind::UsbInit, code }
    }

    /// A command failure with the given code.
    pub fn usb_command(code: i32) -> (r: FtdiError)
        ensures
            r == (FtdiError { kind: FtdiErrorKind::UsbCommandError, code }),
    {
        FtdiError { kind: FtdiErrorKind::UsbCommandError, code }
    }

    /// A permission-denied failure with the given code.
    pub fn usb_permission(code: i32) -> (r: FtdiError)
        ensures
            r == (FtdiError { kind: FtdiErrorKind::UsbPermissionError, code }),
    {
        FtdiError { kind: FtdiErrorKind::UsbPermissionError, code }
    }

    /// A protocol or validation failure with the given code.
    pub fn usb_common(code: i32) -> (r: FtdiError)
        ensures
            r == (FtdiError { kind: FtdiErrorKind::UsbCommonError, code }),
    {
        FtdiError { kind: FtdiErrorKind::UsbCommonError, code }
    }

    /// A human-readable description of the failure, by kind and code. A few
    /// legacy codes are shared by more than one condition of the same kind;
    /// those render one text naming both.
    pub fn message(&self) -> String {
        let text: &str = match self.kind {
            FtdiErrorKind::UsbInit => {
                if self.code == 0 {
                    "success"
                } else if self.code == -1 {
                    "I/O error"
                } else if self.code == -2 {
                    "invalid parameter or USB device unavailable"
                } else if self.code == -3 {
                    "access denied"
                } else if self.code == -4 {
                    "no such device or device open failed"
                } else if self.code == -5 {
                    "entity not found"
                } else if self.code == -6 {
                    "resource busy"
                } else if self.code == -7 {
                    "operation timed out"
                } else if self.code == -8 {
                    "overflow error, context not initialized, or unrecognized chip type"
                } else if self.code == -9 {
                    "pipe error"
                } else if self.code == -10 {
                    "system call interrupted"
                } else if self.code == -11 {
                    "insufficient memory"
                } else if self.code == -12 {
                    "operation not supported or reading the configuration failed"
                } else if self.code == -99 {
                    "other error"
                } else if self.code == -1000 {
                    "unknown error"
                } else {
                    "usb init failed"
                }
            },
            FtdiErrorKind::UsbCommandError => {
                if self.code == -1 {
                    "control or bulk transfer failed"
                } else if self.code == -2 {
                    "setting new baudrate failed"
                } else if self.code == -8 {
                    "unable to set usb configuration; make sure the default FTDI driver is not in use"
                } else if self.code == -9 {
                    "reading the device descriptor failed"
                } else if self.code == -10 {
                    "reading the configuration descriptor failed"
                } else {
                    "usb command failed"
                }
            },
            FtdiErrorKind::UsbPermissionError => "inappropriate permissions on device",
            FtdiErrorKind::UsbCommonError => {
                if self.code == -1 {
                    "unsupported baudrate; note that bitbang baudrates are automatically multiplied by 4"
                } else if self.code == -2 {
                    "incorrect baudrate"
                } else if self.code == -3 {
                    "device not found by supplied description"
                } else if self.code == -11 {
                    "illegal description format"
                } else if self.code == -12 {
                    "incorrect description format, vendor and product is minimal set"
                } else if self.code == -14 {
                    "incorrect description format, too long"
                } else if self.code == -15 {
                    "hex value parse error"
                } else if self.code == -16 {
                    "octal value parse error"
                } else if self.code == -17 {
                    "decimal value parse error"
                } else {
                    "usb common error"
                }
            },
        };
        text.to_owned()
    }
}

/// The code that `get_usb_sys_init_error` assigns to a USB system error
/// code: the transport's own negative codes map to themselves, success to 0,
/// and anything unknown to -1000.
pub open spec fn spec_usb_sys_error_code(err: i32) -> i32 {
    if err == 0 {
        0i32
    } else if -12 <= err && err <= -1 {
        err
    } else if err == -99 {
        -99i32
    } else {
        -1000i32
    }
}

/// Converts a USB system error code (the transport's return value) into a
/// transport-init failure.
pub fn get_usb_sys_init_error(err: i32) -> (r: FtdiError)
    ensures
        r.kind == FtdiErrorKind::UsbInit,
        r.code == spec_usb_sys_error_code(err),
{
    let code: i32 = if err == 0 {
        0
    } else if -12 <= err && err <= -1 {
        err
    } else if err == -99 {
        -99
    } else {
        -1000
    };
    FtdiError { kind: FtdiErrorKind::UsbInit, code }
}

} // verus!
