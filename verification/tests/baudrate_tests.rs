use ftdi_library::baudrate::ftdi_convert_baudrate;
use ftdi_library::baudrate::ftdi_to_clkbits;
use ftdi_library::baudrate::ftdi_to_clkbits_am;
use ftdi_library::error::FtdiErrorKind;
use ftdi_library::types::ftdi_chip_type;

#[test]
fn am_3000000_encodes_to_zero_after_special_case() {
    // The raw divisor 8 encodes to 1, which the silicon special-cases to 0.
    let r = ftdi_to_clkbits_am(3_000_000);
    assert_eq!(r.best_baud, 3_000_000);
    assert_eq!(r.encoded_divisor, 0);
}

#[test]
fn am_9600_exact_divisor() {
    let r = ftdi_to_clkbits_am(9600);
    assert_eq!(r.best_baud, 9600);
    assert_eq!(r.encoded_divisor, 0x4138);
}

#[test]
fn am_2000000_rounds_to_divisor_sixteen() {
    // The AM family has no divisors 9 through 15: a 2 MHz request rounds to
    // divisor 16 and achieves 1.5 MHz.
    let r = ftdi_to_clkbits_am(2_000_000);
    assert_eq!(r.best_baud, 1_500_000);
    assert_eq!(r.encoded_divisor, 2);
}

#[test]
fn am_unaligned_rate_stays_within_tolerance() {
    let r = ftdi_to_clkbits_am(1_234_567);
    assert_eq!(r.best_baud, 1_200_000);
    assert_eq!(r.encoded_divisor, 16386);
    let diff = 1_234_567 - r.best_baud as i64;
    assert!(20 * diff <= 1_234_567);
}

#[test]
fn clkbits_9600_on_high_speed_clock() {
    let r = ftdi_to_clkbits(9600, 120_000_000, 10);
    assert_eq!(r.best_baud, 9600);
    assert_eq!(r.encoded_divisor, 1250);
}

#[test]
fn clkbits_fixed_divisors() {
    let r = ftdi_to_clkbits(12_000_000, 120_000_000, 10);
    assert_eq!(r.best_baud, 12_000_000);
    assert_eq!(r.encoded_divisor, 0);
    let r = ftdi_to_clkbits(8_000_000, 120_000_000, 10);
    assert_eq!(r.best_baud, 8_000_000);
    assert_eq!(r.encoded_divisor, 1);
    let r = ftdi_to_clkbits(6_000_000, 120_000_000, 10);
    assert_eq!(r.best_baud, 6_000_000);
    assert_eq!(r.encoded_divisor, 2);
}

#[test]
fn convert_232h_at_12_mbaud_selects_high_speed_path() {
    // On the 232H family a 12 MBaud request takes the divide-by-10 path
    // against the 120 MHz clock; the encoded divisor is 0 with bit 0x20000
    // set, so the index word's high byte reads 0x02 and its low byte holds
    // the interface index.
    let words = ftdi_convert_baudrate(ftdi_chip_type::TYPE_232H, 1, 12_000_000).unwrap();
    assert_eq!(words.best_baud, 12_000_000);
    assert_eq!(words.value, 0);
    assert_eq!(words.index, 0x0201);
}

#[test]
fn convert_non_h_chip_uses_am_algorithm() {
    let words = ftdi_convert_baudrate(ftdi_chip_type::TYPE_BM, 1, 9600).unwrap();
    assert_eq!(words.best_baud, 9600);
    assert_eq!(words.value, 0x4138);
    assert_eq!(words.index, 0);
}

#[test]
fn convert_232h_ordinary_rate_takes_high_speed_path() {
    // Any rate above H_CLK/0x3FFF/10 (about 732 baud) takes the 120 MHz
    // path: divisor = 120e6*16/10/9600 = 20000, rounded to 10000, encoded
    // as 10000>>3 = 1250, with bit 0x20000 showing in the index word.
    let words = ftdi_convert_baudrate(ftdi_chip_type::TYPE_232H, 1, 9600).unwrap();
    assert_eq!(words.best_baud, 9600);
    assert_eq!(words.value, 1250);
    assert_eq!(words.index, 0x0201);
}

#[test]
fn convert_232h_very_low_rate_uses_48mhz_clock() {
    // 600 baud lies below the high-speed threshold: the 48 MHz clock with
    // the divide-by-16 pre-divider serves it. divisor = 48e6*16/16/600 =
    // 80000, rounded to 40000, encoded as 40000>>3 = 5000, and no 0x20000
    // bit in the index word.
    let words = ftdi_convert_baudrate(ftdi_chip_type::TYPE_232H, 1, 600).unwrap();
    assert_eq!(words.best_baud, 600);
    assert_eq!(words.value, 5000);
    assert_eq!(words.index, 0x0001);
}

#[test]
fn convert_rejects_non_positive_rate() {
    let e = ftdi_convert_baudrate(ftdi_chip_type::TYPE_BM, 0, 0).unwrap_err();
    assert_eq!(e.kind, FtdiErrorKind::UsbCommonError);
    assert_eq!(e.code, -2);
    let e = ftdi_convert_baudrate(ftdi_chip_type::TYPE_232H, 0, -9600).unwrap_err();
    assert_eq!(e.code, -2);
}

#[test]
fn am_rate_one_clamps_at_largest_divisor() {
    // The slowest request clamps at the largest supported divisor 0x1FFF8
    // and achieves 183 baud; the encoding is its integer part alone.
    let r = ftdi_to_clkbits_am(1);
    assert_eq!(r.best_baud, 183);
    assert_eq!(r.encoded_divisor, 0x3FFF);
}
