//! The line encoder: packing of frame-format options (data bits, stop bits,
//! parity, break) into the value word of the set-line-property control
//! transfer.
use vstd::prelude::*;
use crate::types::ftdi_bits_type;
use crate::types::ftdi_break_type;
use crate::types::ftdi_parity_type;
use crate::types::ftdi_stopbits_type;

verus! {

/// The line-property value word: bits 0 to 7 hold the data-bits count,
/// bits 8 to 10 the parity code, bits 11 to 13 the stop-bits code and
/// bit 14 the break state.
pub open spec fn spec_line_property_value(
    bits: ftdi_bits_type,
    sbit: ftdi_stopbits_type,
    parity: ftdi_parity_type,
    break_type: ftdi_break_type,
) -> u16 {
    bits.spec_value() | (parity.spec_value() << 8) | (sbit.spec_value() << 11) | (
    break_type.spec_value() << 14)
}

/// Packs frame-format options into the value word of the
/// set-line-property control transfer.
pub fn encode_line_property(
    bits: ftdi_bits_type,
    sbit: ftdi_stopbits_type,
    parity: ftdi_parity_type,
    break_type: ftdi_break_type,
) -> (value: u16)
    ensures
        value == spec_line_property_value(bits, sbit, parity, break_type),
{
    let mut value: u16 = bits.value();
    value = value | (parity.value() << 8);
    value = value | (sbit.value() << 11);
    value = value | (break_type.value() << 14);
    value
}

} // verus!
