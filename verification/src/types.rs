//! The chip-facing enumerations of the driver: chip family, interface
//! selection, line-framing options and the kernel-driver detach policy.
use vstd::prelude::*;

verus! {

/// FTDI chip family (silicon revision). It determines which clock algorithm
/// encodes a baud rate and the default maximum packet size.
#[derive(Clone, Copy, PartialEq, Eq, Structural, Debug)]
pub enum ftdi_chip_type {
    TYPE_AM,
    TYPE_BM,
    TYPE_2232C,
    TYPE_R,
    TYPE_2232H,
    TYPE_4232H,
    TYPE_232H,
    TYPE_230X,
}

impl ftdi_chip_type {
    /// The high-speed families use the 120 MHz base clock and default to
    /// 512-byte packets.
    pub open spec fn spec_is_h_type(self) -> bool {
        self == ftdi_chip_type::TYPE_2232H || self == ftdi_chip_type::TYPE_4232H
            || self == ftdi_chip_type::TYPE_232H
    }

    /// Whether this family is one of the high-speed (H) families.
    pub fn is_h_type(self) -> (r: bool)
        ensures
            r == self.spec_is_h_type(),
    {
        match self {
            ftdi_chip_type::TYPE_2232H => true,
            ftdi_chip_type::TYPE_4232H => true,
            ftdi_chip_type::TYPE_232H => true,
            _ => false,
        }
    }
}

/// Port selection on multi-interface chips. Each selection fixes the
/// interface number, the index word and both bulk endpoint addresses.
#[derive(Clone, Copy, PartialEq, Eq, Structural, Debug)]
pub enum ftdi_interface {
    INTERFACE_ANY,
    INTERFACE_A,
    INTERFACE_B,
    INTERFACE_C,
    INTERFACE_D,
}

/// Number of data bits of one frame.
#[derive(Clone, Copy, PartialEq, Eq, Structural, Debug)]
pub enum ftdi_bits_type {
    BITS_7,
    BITS_8,
}

impl ftdi_bits_type {
    /// The data-bits count as it is sent in the low byte of the
    /// line-property value word.
    pub open spec fn spec_value(self) -> u16 {
        match self {
            ftdi_bits_type::BITS_7 => 7,
            ftdi_bits_type::BITS_8 => 8,
        }
    }

    /// Numeric value of the data-bits selection.
    pub fn value(self) -> (r: u16)
        ensures
            r == self.spec_value(),
    {
        match self {
            ftdi_bits_type::BITS_7 => 7,
            ftdi_bits_type::BITS_8 => 8,
        }
    }
}

/// Number of stop bits of one frame.
#[derive(Clone, Copy, PartialEq, Eq, Structural, Debug)]
pub enum ftdi_stopbits_type {
    STOP_BIT_1,
    STOP_BIT_15,
    STOP_BIT_2,
}

impl ftdi_stopbits_type {
    /// The stop-bits code of the line-property value word (bits 11 to 13).
    pub open spec fn spec_value(self) -> u16 {
        match self {
            ftdi_stopbits_type::STOP_BIT_1 => 0,
            ftdi_stopbits_type::STOP_BIT_15 => 1,
            ftdi_stopbits_type::STOP_BIT_2 => 2,
        }
    }

    /// Numeric code of the stop-bits selection.
    pub fn value(self) -> (r: u16)
        ensures
            r == self.spec_value(),
    {
        match self {
            ftdi_stopbits_type::STOP_BIT_1 => 0,
            ftdi_stopbits_type::STOP_BIT_15 => 1,
            ftdi_stopbits_type::STOP_BIT_2 => 2,
        }
    }
}

/// Parity mode of one frame.
#[derive(Clone, Copy, PartialEq, Eq, Structural, Debug)]
pub enum ftdi_parity_type {
    NONE,
    ODD,
    EVEN,
    MARK,
    SPACE,
}

impl ftdi_parity_type {
    /// The parity code of the line-property value word (bits 8 to 10).
    pub open spec fn spec_value(self) -> u16 {
        match self {
            ftdi_parity_type::NONE => 0,
            ftdi_parity_type::ODD => 1,
            ftdi_parity_type::EVEN => 2,
            ftdi_parity_type::MARK => 3,
            ftdi_parity_type::SPACE => 4,
        }
    }

    /// Numeric code of the parity selection.
    pub fn value(self) -> (r: u16)
        ensures
            r == self.spec_value(),
    {
        match self {
            ftdi_parity_type::NONE => 0,
            ftdi_parity_type::ODD => 1,
            ftdi_parity_type::EVEN => 2,
            ftdi_parity_type::MARK => 3,
            ftdi_parity_type::SPACE => 4,
        }
    }
}

/// Break state of the line.
#[derive(Clone, Copy, PartialEq, Eq, Structural, Debug)]
pub enum ftdi_break_type {
    BREAK_OFF,
    BREAK_ON,
}

impl ftdi_break_type {
    /// The break bit of the line-property value word (bit 14).
    pub open spec fn spec_value(self) -> u16 {
        match self {
            ftdi_break_type::BREAK_OFF => 0,
            ftdi_break_type::BREAK_ON => 1,
        }
    }

    /// Numeric code of the break selection.
    pub fn value(self) -> (r: u16)
        ensures
            r == self.spec_value(),
    {
        match self {
            ftdi_break_type::BREAK_OFF => 0,
            ftdi_break_type::BREAK_ON => 1,
        }
    }
}

/// What to do when a kernel driver is already bound to the device.
#[derive(Clone, Copy, PartialEq, Eq, Structural, Debug)]
pub enum ftdi_module_detach_mode {
    AUTO_DETACH_SIO_MODULE,
    DONT_DETACH_SIO_MODULE,
    AUTO_DETACH_REATACH_SIO_MODULE,
}

} // verus!
