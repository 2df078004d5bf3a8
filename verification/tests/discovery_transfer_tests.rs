use ftdi_library::discovery::CandidateDevice;
use ftdi_library::discovery::DeviceLocation;
use ftdi_library::discovery::candidate_matches;
use ftdi_library::discovery::ftdi_usb_open_bus_addr_select;
use ftdi_library::discovery::ftdi_usb_open_desc_index_select;
use ftdi_library::transfer::ftdi_read_data_callback;

fn device(vendor: u16, product: u16, desc: Option<&str>, serial: Option<&str>) -> CandidateDevice {
    CandidateDevice {
        id_vendor: vendor,
        id_product: product,
        product_description: desc.map(|s| s.to_string()),
        serial: serial.map(|s| s.to_string()),
    }
}

#[test]
fn select_by_vendor_product_and_index() {
    let candidates = vec![
        device(0x0403, 0x6001, None, None),
        device(0x1234, 0x5678, None, None),
        device(0x0403, 0x6001, None, None),
        device(0x0403, 0x6001, None, None),
    ];
    let r = ftdi_usb_open_desc_index_select(&candidates, 0x0403, 0x6001, &None, &None, 0);
    assert_eq!(r, Some(0));
    // Skip the first N matching devices: index 1 lands on the third entry.
    let r = ftdi_usb_open_desc_index_select(&candidates, 0x0403, 0x6001, &None, &None, 1);
    assert_eq!(r, Some(2));
    let r = ftdi_usb_open_desc_index_select(&candidates, 0x0403, 0x6001, &None, &None, 2);
    assert_eq!(r, Some(3));
    // Fewer matches than the index asks for.
    let r = ftdi_usb_open_desc_index_select(&candidates, 0x0403, 0x6001, &None, &None, 3);
    assert_eq!(r, None);
}

#[test]
fn select_filters_by_description_and_serial() {
    let candidates = vec![
        device(0x0403, 0x6001, Some("FT232R"), Some("A1")),
        device(0x0403, 0x6001, Some("FT2232H"), Some("B2")),
    ];
    let want_desc = Some("FT2232H".to_string());
    let r = ftdi_usb_open_desc_index_select(&candidates, 0x0403, 0x6001, &want_desc, &None, 0);
    assert_eq!(r, Some(1));
    let want_serial = Some("A1".to_string());
    let r = ftdi_usb_open_desc_index_select(&candidates, 0x0403, 0x6001, &None, &want_serial, 0);
    assert_eq!(r, Some(0));
    let no_such = Some("C3".to_string());
    let r = ftdi_usb_open_desc_index_select(&candidates, 0x0403, 0x6001, &None, &no_such, 0);
    assert_eq!(r, None);
}

#[test]
fn zero_ids_disable_the_id_filter() {
    let candidates = vec![device(0x1111, 0x2222, None, None)];
    let r = ftdi_usb_open_desc_index_select(&candidates, 0, 0, &None, &None, 0);
    assert_eq!(r, Some(0));
}

#[test]
fn missing_device_string_passes_the_string_filter() {
    // A filter string only applies where the device reported one.
    let c = device(0x0403, 0x6001, None, None);
    assert!(candidate_matches(&c, 0x0403, 0x6001, &Some("FT232R".to_string()), &None));
    let c = device(0x0403, 0x6001, Some("Other"), None);
    assert!(!candidate_matches(&c, 0x0403, 0x6001, &Some("FT232R".to_string()), &None));
}

#[test]
fn select_by_bus_and_address() {
    let devices = vec![
        DeviceLocation { bus_number: 1, device_address: 4 },
        DeviceLocation { bus_number: 3, device_address: 1 },
    ];
    assert_eq!(ftdi_usb_open_bus_addr_select(&devices, 3, 1), Some(1));
    assert_eq!(ftdi_usb_open_bus_addr_select(&devices, 1, 4), Some(0));
    assert_eq!(ftdi_usb_open_bus_addr_select(&devices, 2, 2), None);
}

#[test]
fn callback_decodes_under_the_lock() {
    let mut raw: Vec<u8> = vec![0x31, 0x60];
    for i in 0..62u8 {
        raw.push(i);
    }
    let outcome = ftdi_read_data_callback(true, &raw, 64, false, Some(0));
    let payload = outcome.payload.unwrap();
    assert_eq!(payload.len(), 62);
    assert_eq!(payload[0], 0);
    assert_eq!(payload[61], 61);
    assert_eq!(outcome.completed, 0);
}

#[test]
fn callback_drops_payload_without_the_lock() {
    let raw: Vec<u8> = vec![0x31, 0x60, 1, 2, 3];
    let outcome = ftdi_read_data_callback(false, &raw, 64, false, Some(0));
    assert!(outcome.payload.is_none());
    assert_eq!(outcome.completed, 0);
}

#[test]
fn callback_completion_markers() {
    let raw: Vec<u8> = Vec::new();
    // A cancelled transfer is never resubmitted and is marked cancelled.
    let outcome = ftdi_read_data_callback(true, &raw, 64, true, None);
    assert_eq!(outcome.completed, 3);
    // A failed resubmission marks the transfer finished with an error.
    let outcome = ftdi_read_data_callback(true, &raw, 64, false, Some(-1));
    assert_eq!(outcome.completed, 1);
}
