//! The clock encoder: conversion of a requested baud rate into the chip's
//! 16+-bit encoded clock divisor and the baud rate the chip will actually
//! produce. Two algorithms exist, selected by chip family: the AM-family
//! fractional-step search, and the fixed-point divisor of the later families.
use vstd::prelude::*;
use crate::constants::C_CLK;
use crate::constants::H_CLK;
use crate::error::FtdiError;
use crate::error::FtdiErrorKind;
use crate::types::ftdi_chip_type;

verus! {

/// An encoded divisor with the baud rate it achieves.
#[derive(Clone, Copy, PartialEq, Eq, Structural, Debug)]
pub struct BaudrateEncoding {
    /// The baud rate the chip will actually produce.
    pub best_baud: u32,
    /// The divisor in the chip's encoding, fractional code included.
    pub encoded_divisor: u32,
}

/// The value and index words of the set-baudrate control transfer, with the
/// achievable baud rate.
#[derive(Clone, Copy, PartialEq, Eq, Structural, Debug)]
pub struct BaudrateWords {
    /// The baud rate the chip will actually produce.
    pub best_baud: u32,
    /// The value word of the control transfer.
    pub value: u16,
    /// The index word of the control transfer.
    pub index: u16,
}

/// The chip's 3-bit code for each eighth of a divisor step.
pub open spec fn spec_frac_code(i: int) -> u16 {
    if i == 0 {
        0u16
    } else if i == 1 {
        3u16
    } else if i == 2 {
        2u16
    } else if i == 3 {
        4u16
    } else if i == 4 {
        1u16
    } else if i == 5 {
        5u16
    } else if i == 6 {
        6u16
    } else {
        7u16
    }
}

fn frac_code(i: u32) -> (r: u16)
    requires
        i < 8,
    ensures
        r == spec_frac_code(i as int),
{
    match i {
        0 => 0,
        1 => 3,
        2 => 2,
        3 => 4,
        4 => 1,
        5 => 5,
        6 => 6,
        _ => 7,
    }
}

/// How far the AM family rounds a divisor down to the nearest supported
/// fractional step, by the divisor's low three bits.
pub open spec fn spec_am_adjust_dn(i: int) -> int {
    if i == 3 {
        1
    } else if i == 5 {
        1
    } else if i == 6 {
        2
    } else if i == 7 {
        3
    } else {
        0
    }
}

fn am_adjust_dn(i: u32) -> (r: u32)
    requires
        i < 8,
    ensures
        r == spec_am_adjust_dn(i as int),
        r <= i,
{
    match i {
        3 => 1,
        5 => 1,
        6 => 2,
        7 => 3,
        _ => 0,
    }
}

/// How far the AM family rounds a divisor up to the nearest supported
/// fractional step, by the divisor's low three bits.
pub open spec fn spec_am_adjust_up(i: int) -> int {
    if i == 3 {
        1
    } else if i == 5 {
        3
    } else if i == 6 {
        2
    } else if i == 7 {
        1
    } else {
        0
    }
}

fn am_adjust_up(i: u32) -> (r: u32)
    requires
        i < 8,
    ensures
        r == spec_am_adjust_up(i as int),
        r <= 3,
{
    match i {
        3 => 1,
        5 => 3,
        6 => 2,
        7 => 1,
        _ => 0,
    }
}

/// The divisor encoding shared by both algorithms: the integer part in the
/// low bits, the 3-bit fractional code in bits 14 to 16.
pub open spec fn spec_raw_encode(divisor: u32) -> u32 {
    (divisor >> 3) | ((spec_frac_code((divisor % 8) as int) as u32) << 14)
}

/// The AM base divisor: 24 MHz over the rate, rounded down to a supported
/// fractional step.
pub open spec fn spec_am_base_divisor(baudrate: int) -> int {
    let d = 24000000int / baudrate;
    d - spec_am_adjust_dn(d % 8)
}

/// One AM candidate divisor: the base divisor plus `i`, rounded up to a
/// supported value. Divisors below 8 round up to 8; the AM family has no
/// divisors 9 through 15, so a base below 16 rounds up to 16; otherwise the
/// candidate rounds up to a supported fraction and clamps at `0x1FFF8`.
pub open spec fn spec_am_try_divisor(divisor: int, i: int) -> int {
    let t = divisor + i;
    if t <= 8 {
        8
    } else if divisor < 16 {
        16
    } else {
        let t2 = t + spec_am_adjust_up(t % 8);
        if t2 > 0x1FFF8 {
            0x1FFF8
        } else {
            t2
        }
    }
}

/// The baud rate a divisor achieves on the 24 MHz AM clock, rounded to the
/// nearest integer.
pub open spec fn spec_am_baud_estimate(try_divisor: int) -> int {
    (24000000 + try_divisor / 2) / try_divisor
}

/// Absolute difference.
pub open spec fn spec_diff(a: int, b: int) -> int {
    if a < b {
        b - a
    } else {
        a - b
    }
}

/// The AM divisor chosen among the two candidates (the base divisor and the
/// one above it, because integer division truncates): the one whose
/// achievable baud deviates least from the request, ties toward the first.
pub open spec fn spec_am_best_divisor(baudrate: int) -> int {
    let d = spec_am_base_divisor(baudrate);
    let t0 = spec_am_try_divisor(d, 0);
    let t1 = spec_am_try_divisor(d, 1);
    let diff0 = spec_diff(spec_am_baud_estimate(t0), baudrate);
    let diff1 = spec_diff(spec_am_baud_estimate(t1), baudrate);
    if diff0 == 0 {
        t0
    } else if diff1 < diff0 {
        t1
    } else {
        t0
    }
}

/// The two silicon special cases of the AM/BM encoding: encoded value 1
/// means 3,000,000 baud and is sent as 0; encoded value `0x4001` means
/// 2,000,000 baud and is sent as 1.
pub open spec fn spec_am_special_case(e: u32) -> u32 {
    if e == 1 {
        0u32
    } else if e == 0x4001 {
        1u32
    } else {
        e
    }
}

/// The encoded divisor `ftdi_to_clkbits_am` produces for a rate.
pub open spec fn spec_am_encoded_divisor(baudrate: int) -> u32 {
    spec_am_special_case(spec_raw_encode(spec_am_best_divisor(baudrate) as u32))
}

/// The achievable baud `ftdi_to_clkbits_am` reports for a rate.
pub open spec fn spec_am_best_baud(baudrate: int) -> int {
    spec_am_baud_estimate(spec_am_best_divisor(baudrate))
}

/// Evaluates one AM candidate divisor: its rounded-up divisor, the baud it
/// achieves and the absolute deviation from the request.
fn am_candidate(divisor: u32, i: u32, baudrate: u32) -> (r: (u32, u32, u32))
    requires
        divisor <= 24000000,
        i <= 1,
        1 <= baudrate,
    ensures
        r.0 == spec_am_try_divisor(divisor as int, i as int),
        r.1 == spec_am_baud_estimate(r.0 as int),
        r.2 == spec_diff(r.1 as int, baudrate as int),
        8 <= r.0 <= 0x1FFF8,
{
    let mut try_divisor: u32 = divisor + i;
    if try_divisor <= 8 {
        // Round up to the minimum supported divisor.
        try_divisor = 8;
    } else if divisor < 16 {
        // The AM family does not support divisors 9 through 15.
        try_divisor = 16;
    } else {
        // Round up to a supported fraction, clamping at the maximum.
        try_divisor = try_divisor + am_adjust_up(try_divisor % 8);
        if try_divisor > 0x1FFF8 {
            try_divisor = 0x1FFF8;
        }
    }
    let baud_estimate: u32 = (24000000 + try_divisor / 2) / try_divisor;
    let baud_diff: u32 = if baud_estimate < baudrate {
        baudrate - baud_estimate
    } else {
        baud_estimate - baudrate
    };
    (try_divisor, baud_estimate, baud_diff)
}

/// AM-family conversion of a requested baud rate to an encoded divisor and
/// the baud rate the chip will actually produce. The base clock is 24 MHz;
/// a divisor's low three bits select a fractional step.
pub fn ftdi_to_clkbits_am(baudrate: u32) -> (r: BaudrateEncoding)
    requires
        1 <= baudrate,
    ensures
        r.best_baud == spec_am_best_baud(baudrate as int),
        r.encoded_divisor == spec_am_encoded_divisor(baudrate as int),
        r.encoded_divisor <= 0x1FFFF,
{
    let raw: u32 = 24000000 / baudrate;
    assert(raw <= 24000000) by {
        vstd::arithmetic::div_mod::lemma_div_nonincreasing(24000000int, baudrate as int);
    };
    let divisor: u32 = raw - am_adjust_dn(raw % 8);

    // Try the base divisor and the one above it (division rounds down),
    // keeping whichever achieves a baud rate closer to the request.
    let (try0, baud0, diff0) = am_candidate(divisor, 0, baudrate);
    let (try1, baud1, diff1) = am_candidate(divisor, 1, baudrate);
    let (best_divisor, best_baud): (u32, u32) = if diff0 == 0 {
        (try0, baud0)
    } else if diff1 < diff0 {
        (try1, baud1)
    } else {
        (try0, baud0)
    };
    assert(best_divisor == spec_am_best_divisor(baudrate as int));

    // Encode the winning divisor.
    let frac: u16 = frac_code(best_divisor % 8);
    let mut encoded_divisor: u32 = (best_divisor >> 3) | ((frac as u32) << 14);
    assert(best_divisor <= 0x1FFF8 && frac <= 7 ==> (best_divisor >> 3) | ((frac as u32) << 14)
        <= 0x1FFFF) by (bit_vector);
    // Special cases of the encoding.
    if encoded_divisor == 1 {
        // 3,000,000 baud
        encoded_divisor = 0;
    } else if encoded_divisor == 0x4001 {
        // 2,000,000 baud (BM family only)
        encoded_divisor = 1;
    }
    BaudrateEncoding { best_baud, encoded_divisor }
}

/// Rounding to the nearest integer of a value carried with one extra bit:
/// halve, rounding a tie up.
pub open spec fn spec_round_half_up(x: int) -> int {
    if x % 2 == 1 {
        x / 2 + 1
    } else {
        x / 2
    }
}

/// The fractional divisor the non-AM algorithm chooses when no fixed divisor
/// fits: the rate divided out at three fractional bits, rounded to nearest
/// (ties up) and clamped to 17 bits.
pub open spec fn spec_clkbits_divisor(baudrate: int, clk: int, clk_div: int) -> int {
    let divisor = clk * 16 / clk_div / baudrate;
    let rounded = spec_round_half_up(divisor);
    if rounded > 0x1FFFF {
        0x1FFFF
    } else {
        rounded
    }
}

/// Whether the requested rate is served by one of the three fixed divisors
/// (clk/1, clk/1.5, clk/2), and the general case otherwise.
pub open spec fn spec_clkbits_encoded(baudrate: int, clk: int, clk_div: int) -> u32 {
    if baudrate >= clk / clk_div {
        0u32
    } else if baudrate >= clk / (clk_div + clk_div / 2) {
        1u32
    } else if baudrate >= clk / (2 * clk_div) {
        2u32
    } else {
        spec_raw_encode(spec_clkbits_divisor(baudrate, clk, clk_div) as u32)
    }
}

/// The achievable baud `ftdi_to_clkbits` reports.
pub open spec fn spec_clkbits_best_baud(baudrate: int, clk: int, clk_div: int) -> int {
    if baudrate >= clk / clk_div {
        clk / clk_div
    } else if baudrate >= clk / (clk_div + clk_div / 2) {
        clk / (clk_div + clk_div / 2)
    } else if baudrate >= clk / (2 * clk_div) {
        clk / (2 * clk_div)
    } else {
        spec_round_half_up(clk * 16 / clk_div / spec_clkbits_divisor(baudrate, clk, clk_div))
    }
}

/// Conversion of a requested baud rate against a base clock and a clock
/// pre-divider (120 MHz/10 in high-speed mode, 48 MHz/16 otherwise) into an
/// encoded divisor and the baud rate the chip will actually produce.
pub fn ftdi_to_clkbits(baudrate: u32, clk: u32, clk_div: u32) -> (r: BaudrateEncoding)
    requires
        1 <= baudrate,
        1 <= clk_div <= clk,
        clk * 16 <= u32::MAX,
    ensures
        r.best_baud == spec_clkbits_best_baud(baudrate as int, clk as int, clk_div as int),
        r.encoded_divisor == spec_clkbits_encoded(baudrate as int, clk as int, clk_div as int),
        r.encoded_divisor <= 0x1FFFF,
        r.best_baud <= clk / clk_div,
{
    broadcast use vstd::arithmetic::div_mod::lemma_div_is_ordered_by_denominator;
    broadcast use vstd::arithmetic::div_mod::lemma_div_is_ordered;
    broadcast use vstd::arithmetic::div_mod::lemma_div_nonincreasing;
    broadcast use vstd::arithmetic::div_mod::lemma_div_pos_is_pos;

    if baudrate >= clk / clk_div {
        BaudrateEncoding { best_baud: clk / clk_div, encoded_divisor: 0 }
    } else if baudrate >= clk / (clk_div + clk_div / 2) {
        BaudrateEncoding { best_baud: clk / (clk_div + clk_div / 2), encoded_divisor: 1 }
    } else if baudrate >= clk / (2 * clk_div) {
        BaudrateEncoding { best_baud: clk / (2 * clk_div), encoded_divisor: 2 }
    } else {
        // Divide by 16 to keep three fractional bits and one rounding bit.
        let q: u32 = clk * 16 / clk_div;
        let divisor: u32 = q / baudrate;
        proof {
            lemma_clkbits_divisor_lower_bound(
                baudrate as int,
                clk as int,
                clk_div as int,
            );
        }
        let mut best_divisor: u32 = if divisor % 2 == 1 {
            divisor / 2 + 1
        } else {
            divisor / 2
        };
        if best_divisor > 0x1FFFF {
            best_divisor = 0x1FFFF;
        }
        let estimate: u32 = q / best_divisor;
        let best_baud: u32 = if estimate % 2 == 1 {
            estimate / 2 + 1
        } else {
            estimate / 2
        };
        assert(best_baud <= clk / clk_div) by {
            lemma_nested_div_by_16(clk as int, clk_div as int);
            assert(estimate <= q / 16);
        };
        let frac: u16 = frac_code(best_divisor % 8);
        let encoded_divisor: u32 = (best_divisor >> 3) | ((frac as u32) << 14);
        assert(best_divisor <= 0x1FFFF && frac <= 7 ==> (best_divisor >> 3) | ((frac as u32)
            << 14) <= 0x1FFFF) by (bit_vector);
        BaudrateEncoding { best_baud, encoded_divisor }
    }
}

/// When the requested rate lies below clk/(2 clk_div), the fractional
/// divisor before rounding is at least 32, so the rounded divisor is at
/// least 16.
proof fn lemma_clkbits_divisor_lower_bound(baudrate: int, clk: int, clk_div: int)
    requires
        1 <= baudrate,
        1 <= clk_div <= clk,
        baudrate < clk / (2 * clk_div),
    ensures
        clk * 16 / clk_div / baudrate >= 32,
{
    let m = clk / (2 * clk_div);
    vstd::arithmetic::div_mod::lemma_fundamental_div_mod(clk, 2 * clk_div);
    assert(clk >= 2 * clk_div * m);
    assert(baudrate + 1 <= m);
    assert(2 * clk_div * m >= 2 * clk_div * (baudrate + 1)) by (nonlinear_arith)
        requires
            1 <= clk_div,
            baudrate + 1 <= m,
    ;
    assert(clk * 16 >= clk_div * (32 * (baudrate + 1))) by (nonlinear_arith)
        requires
            clk >= 2 * clk_div * (baudrate + 1),
    ;
    vstd::arithmetic::div_mod::lemma_div_multiples_vanish(32 * (baudrate + 1), clk_div);
    vstd::arithmetic::div_mod::lemma_div_is_ordered(
        clk_div * (32 * (baudrate + 1)),
        clk * 16,
        clk_div,
    );
    assert(clk * 16 / clk_div >= 32 * (baudrate + 1));
    vstd::arithmetic::div_mod::lemma_div_multiples_vanish(32, baudrate);
    vstd::arithmetic::div_mod::lemma_div_is_ordered(
        baudrate * 32,
        clk * 16 / clk_div,
        baudrate,
    );
}

/// Whether a rate on an H-family chip is high enough for the 120 MHz clock
/// with the divide-by-10 pre-divider; below it the 48 MHz clock with
/// divide-by-16 is used.
pub open spec fn spec_h_speed_path(baudrate: int) -> bool {
    baudrate * 10 > H_CLK as int / 0x3FFF
}

/// The encoded divisor `ftdi_convert_baudrate` produces: the clock algorithm
/// is selected by chip family, and the high-speed path sets bit `0x20000` to
/// switch the chip to the 12 MHz base rate.
pub open spec fn spec_convert_encoded(chip_type: ftdi_chip_type, baudrate: int) -> u32 {
    if chip_type.spec_is_h_type() {
        if spec_h_speed_path(baudrate) {
            spec_clkbits_encoded(baudrate, H_CLK as int, 10) | 0x20000
        } else {
            spec_clkbits_encoded(baudrate, C_CLK as int, 16)
        }
    } else {
        spec_am_encoded_divisor(baudrate)
    }
}

/// The achievable baud `ftdi_convert_baudrate` reports.
pub open spec fn spec_convert_best_baud(chip_type: ftdi_chip_type, baudrate: int) -> int {
    if chip_type.spec_is_h_type() {
        if spec_h_speed_path(baudrate) {
            spec_clkbits_best_baud(baudrate, H_CLK as int, 10)
        } else {
            spec_clkbits_best_baud(baudrate, C_CLK as int, 16)
        }
    } else {
        spec_am_best_baud(baudrate)
    }
}

/// The value and index words of the set-baudrate transfer: the low 16 bits
/// of the encoded divisor become the value word; on H-family chips the index
/// word holds the divisor's high bits in its high byte and the session's
/// interface index in its low byte, on the others it holds the divisor's
/// bits 16 and up.
pub open spec fn spec_convert_baudrate(
    chip_type: ftdi_chip_type,
    interface_index: u8,
    baudrate: int,
) -> BaudrateWords {
    let e = spec_convert_encoded(chip_type, baudrate);
    BaudrateWords {
        best_baud: spec_convert_best_baud(chip_type, baudrate) as u32,
        value: (e & 0xFFFF) as u16,
        index: if chip_type.spec_is_h_type() {
            (((e >> 8) as u16) & 0xFF00) | (interface_index as u16)
        } else {
            (e >> 16) as u16
        },
    }
}

/// Returns the nearest supported baud rate to the one requested, with the
/// value and index words that program it. A non-positive rate is rejected as
/// an invalid parameter.
pub fn ftdi_convert_baudrate(chip_type: ftdi_chip_type, interface_index: u8, baudrate: i32) -> (r:
    Result<BaudrateWords, FtdiError>)
    requires
        10 * baudrate <= i32::MAX,
    ensures
        r is Ok <==> baudrate > 0,
        baudrate <= 0 ==> r == Err::<BaudrateWords, FtdiError>(
            FtdiError { kind: FtdiErrorKind::UsbCommonError, code: -2i32 },
        ),
        baudrate > 0 ==> r == Ok::<BaudrateWords, FtdiError>(
            spec_convert_baudrate(chip_type, interface_index, baudrate as int),
        ),
        baudrate > 0 ==> r->Ok_0.best_baud <= 12000000,
{
    if baudrate <= 0 {
        return Err(FtdiError::usb_common(-2));
    }
    let rate: u32 = baudrate as u32;
    let encoding: BaudrateEncoding;
    if chip_type.is_h_type() {
        if baudrate * 10 > (H_CLK / 0x3FFF) as i32 {
            // On H-family devices use the 12 MHz base rate when possible:
            // a 14-bit divisor, three fractional bits and a 120 MHz clock.
            let e = ftdi_to_clkbits(rate, H_CLK, 10);
            // Switch on the clk/10 pre-divider.
            encoding = BaudrateEncoding {
                best_baud: e.best_baud,
                encoded_divisor: e.encoded_divisor | 0x20000,
            };
        } else {
            encoding = ftdi_to_clkbits(rate, C_CLK, 16);
        }
    } else {
        encoding = ftdi_to_clkbits_am(rate);
        proof {
            lemma_am_best_baud_le_3000000(rate as int);
        }
    }
    // Split the encoded divisor into the value and index words.
    let e = encoding.encoded_divisor;
    #[verifier::truncate]
    let value: u16 = (e & 0xFFFF) as u16;
    let index: u16 = if chip_type.is_h_type() {
        #[verifier::truncate]
        let high: u16 = (e >> 8) as u16;
        (high & 0xFF00) | (interface_index as u16)
    } else {
        #[verifier::truncate]
        let high: u16 = (e >> 16) as u16;
        high
    };
    Ok(BaudrateWords { best_baud: encoding.best_baud, value, index })
}

/// The AM algorithm never reports more than 3,000,000 baud: its divisor is
/// at least 8 against the 24 MHz clock.
proof fn lemma_am_best_baud_le_3000000(baudrate: int)
    requires
        1 <= baudrate,
    ensures
        spec_am_best_baud(baudrate) <= 3000000,
{
    let d = spec_am_best_divisor(baudrate);
    assert(8 <= d <= 0x1FFF8);
    assert((24000000 + d / 2) / d <= 3000000) by (nonlinear_arith)
        requires
            8 <= d,
    ;
}

/// The tolerance check of `ftdi_set_baudrate`: the achievable rate must lie
/// within about five percent of the request, with an extra guard that
/// catches gross undershoot.
pub open spec fn spec_baud_within_tolerance(actual: int, requested: int) -> bool {
    &&& 2 * actual >= requested
    &&& if actual < requested {
        21 * actual >= 20 * requested
    } else {
        21 * requested >= 20 * actual
    }
}

/// Law: every baud rate accepted by the tolerance check deviates from the
/// request by at most one twentieth (five percent) of the request, in either
/// direction.
pub proof fn lemma_tolerance_bounds_deviation(actual: int, requested: int)
    requires
        1 <= requested,
        0 <= actual,
        spec_baud_within_tolerance(actual, requested),
    ensures
        20 * spec_diff(actual, requested) <= requested,
{
    if actual < requested {
        assert(21 * actual >= 20 * requested);
        assert(20 * (requested - actual) <= requested);
    } else {
        assert(21 * requested >= 20 * actual);
        assert(20 * (actual - requested) <= requested);
    }
}

/// Dividing `clk * 16 / clk_div` by 16 gives back `clk / clk_div`.
proof fn lemma_nested_div_by_16(clk: int, clk_div: int)
    requires
        1 <= clk_div,
        0 <= clk,
    ensures
        clk * 16 / clk_div / 16 == clk / clk_div,
{
    vstd::arithmetic::div_mod::lemma_div_denominator(clk * 16, clk_div, 16);
    assert(clk * 16 / clk_div / 16 == clk * 16 / (clk_div * 16));
    vstd::arithmetic::div_mod::lemma_div_multiples_vanish_quotient(16, clk, clk_div);
    assert(clk / clk_div == (16 * clk) / (16 * clk_div));
    assert(clk * 16 / (clk_div * 16) == clk / clk_div) by {
        assert(16 * clk == clk * 16) by (nonlinear_arith);
        assert(16 * clk_div == clk_div * 16) by (nonlinear_arith);
    };
}

} // verus!
