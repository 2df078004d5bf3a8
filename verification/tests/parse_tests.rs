use ftdi_library::error::FtdiErrorKind;
use ftdi_library::parse::parse_device_selector;
use ftdi_library::parse::parse_field_u16;
use ftdi_library::parse::parse_vendor_product_index;
use ftdi_library::parse::DeviceSelector;

#[test]
fn vendor_product_hex_selector() {
    let sel = parse_device_selector("i:0x0403:0x6001").unwrap();
    match sel {
        DeviceSelector::VendorProduct { vendor, product, index } => {
            assert_eq!(vendor, 0x0403);
            assert_eq!(product, 0x6001);
            assert_eq!(index, 0);
        },
        _ => panic!("expected a vendor/product selector"),
    }
}

#[test]
fn vendor_product_selector_with_index() {
    let sel = parse_device_selector("i:0x0403:0x6001:2").unwrap();
    match sel {
        DeviceSelector::VendorProduct { vendor, product, index } => {
            assert_eq!(vendor, 0x0403);
            assert_eq!(product, 0x6001);
            assert_eq!(index, 2);
        },
        _ => panic!("expected a vendor/product selector"),
    }
}

#[test]
fn serial_selector_with_decimal_ids() {
    let sel = parse_device_selector("s:1027:24577:ABC123").unwrap();
    match sel {
        DeviceSelector::VendorProductSerial { vendor, product, serial } => {
            assert_eq!(vendor, 1027);
            assert_eq!(product, 24577);
            assert_eq!(serial, "ABC123".to_string());
        },
        _ => panic!("expected a serial selector"),
    }
}

#[test]
fn bus_address_selector() {
    let sel = parse_device_selector("d:0x03/0o17").unwrap();
    match sel {
        DeviceSelector::BusAddress { bus, address } => {
            assert_eq!(bus, 3);
            assert_eq!(address, 15);
        },
        _ => panic!("expected a bus/address selector"),
    }
}

#[test]
fn empty_and_colonless_selectors_fail() {
    let e = parse_device_selector("").unwrap_err();
    assert_eq!(e.kind, FtdiErrorKind::UsbCommonError);
    assert_eq!(e.code, -11);
    let e = parse_device_selector("i/0403").unwrap_err();
    assert_eq!(e.code, -11);
}

#[test]
fn unknown_selector_letter_fails() {
    let e = parse_device_selector("x:1:2").unwrap_err();
    assert_eq!(e.code, -11);
}

#[test]
fn five_or_more_fields_fail_as_too_long() {
    let e = parse_device_selector("i:1:2:3:4").unwrap_err();
    assert_eq!(e.kind, FtdiErrorKind::UsbCommonError);
    assert_eq!(e.code, -14);
    let e = parse_device_selector("s:1:2:abc:extra").unwrap_err();
    assert_eq!(e.code, -14);
}

#[test]
fn too_few_fields_fail() {
    let e = parse_device_selector("i:0x0403").unwrap_err();
    assert_eq!(e.code, -12);
    let e = parse_device_selector("s:1027:24577").unwrap_err();
    assert_eq!(e.code, -12);
}

#[test]
fn malformed_numbers_fail_with_radix_codes() {
    // A bad hex digit.
    let e = parse_device_selector("i:0xZZ:1").unwrap_err();
    assert_eq!(e.code, -15);
    // 8 is no octal digit.
    let e = parse_device_selector("i:0o18:1").unwrap_err();
    assert_eq!(e.code, -16);
    // A letter in a decimal field.
    let e = parse_device_selector("i:12a:1").unwrap_err();
    assert_eq!(e.code, -17);
    // A value that does not fit 16 bits.
    let e = parse_device_selector("i:99999:1").unwrap_err();
    assert_eq!(e.code, -17);
}

#[test]
fn vendor_product_index_collects_numeric_fields() {
    let v = parse_vendor_product_index("i:0x0403:0x6001:2").unwrap();
    assert_eq!(v, vec![0x0403u16, 0x6001, 2]);
    let v = parse_vendor_product_index("i:1027:24577").unwrap();
    assert_eq!(v, vec![1027u16, 24577]);
}

#[test]
fn vendor_product_index_field_counts() {
    let e = parse_vendor_product_index("i:1").unwrap_err();
    assert_eq!(e.code, -12);
    let e = parse_vendor_product_index("i:1:2:3:4").unwrap_err();
    assert_eq!(e.code, -14);
    let e = parse_vendor_product_index("").unwrap_err();
    assert_eq!(e.code, -11);
    let e = parse_vendor_product_index("i0403").unwrap_err();
    assert_eq!(e.code, -11);
}

#[test]
fn field_parser_radixes() {
    assert_eq!(parse_field_u16("0x0403").unwrap(), 0x0403);
    assert_eq!(parse_field_u16("0o17").unwrap(), 15);
    assert_eq!(parse_field_u16("1027").unwrap(), 1027);
    assert_eq!(parse_field_u16("0").unwrap(), 0);
    assert_eq!(parse_field_u16("65535").unwrap(), 65535);
    assert_eq!(parse_field_u16("65536").unwrap_err().code, -17);
    assert_eq!(parse_field_u16("0x10000").unwrap_err().code, -15);
    assert_eq!(parse_field_u16("").unwrap_err().code, -17);
    assert_eq!(parse_field_u16("0x").unwrap_err().code, -15);
    assert_eq!(parse_field_u16("0xAbCd").unwrap(), 0xABCD);
}

#[test]
fn empty_middle_field_fails_as_decimal() {
    let e = parse_device_selector("i::1").unwrap_err();
    assert_eq!(e.code, -17);
}

#[test]
fn only_the_selector_field_is_skipped() {
    // A non-numeric field after the selector letter must fail, even where
    // it starts with a selector letter itself.
    let e = parse_vendor_product_index("i:s:2").unwrap_err();
    assert_eq!(e.code, -17);
    let e = parse_device_selector("i:1:i7:3").unwrap_err();
    assert_eq!(e.code, -17);
}

#[test]
fn one_value_per_field_after_the_selector() {
    let v = parse_vendor_product_index("i:7:9").unwrap();
    assert_eq!(v.len(), 2);
    let v = parse_vendor_product_index("s:7:9:11").unwrap();
    assert_eq!(v.len(), 3);
}
