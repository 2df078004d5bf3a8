use ftdi_library::context::check_and_calculate_buffer_size;
use ftdi_library::context::ConfigSummary;
use ftdi_library::context::DescriptorSummary;
use ftdi_library::context::KernelVersion;
use ftdi_library::context::OpenDevTranscript;
use ftdi_library::context::UsbState;
use ftdi_library::context::ftdi_context;
use ftdi_library::constants::FTDI_DEVICE_OUT_REQTYPE;
use ftdi_library::constants::SIO_RESET_PURGE_RX;
use ftdi_library::constants::SIO_RESET_PURGE_TX;
use ftdi_library::constants::SIO_RESET_REQUEST;
use ftdi_library::constants::SIO_RESET_SIO;
use ftdi_library::constants::SIO_TCIFLUSH;
use ftdi_library::constants::SIO_TCOFLUSH;
use ftdi_library::error::FtdiErrorKind;
use ftdi_library::error::get_usb_sys_init_error;
use ftdi_library::types::ftdi_chip_type;
use ftdi_library::types::ftdi_interface;

fn successful_transcript(bcd_device: u16) -> OpenDevTranscript {
    OpenDevTranscript {
        opened: true,
        descriptor: Some(DescriptorSummary {
            bcd_device,
            i_serial_number: 3,
            num_configurations: 1,
        }),
        config0: Some(1),
        detach_errno: 0,
        current_config: Some(1),
        set_config_status: None,
        reset_status: Some(0),
        packet_size_probe: None,
        baud_status: Some(0),
    }
}

fn open_session(bcd_device: u16) -> ftdi_context {
    let mut ctx = ftdi_context::new(4096);
    ctx.set_interface_type(ftdi_interface::INTERFACE_A);
    ctx.ftdi_usb_open_dev(&successful_transcript(bcd_device)).unwrap();
    ctx
}

#[test]
fn open_dev_resets_read_buffer_counters() {
    // The open-sequence invariant: after any successful open the local
    // read-buffer counters are zero.
    let ctx = open_session(0x600);
    assert_eq!(ctx.readbuffer_offset, 0);
    assert_eq!(ctx.readbuffer_remaining, 0);
    assert_eq!(ctx.usb_state, UsbState::Open);
    assert_eq!(ctx.chip_type, ftdi_chip_type::TYPE_R);
    assert_eq!(ctx.max_packet_size, 64);
    assert_eq!(ctx.baudrate, 9600);
}

#[test]
fn open_dev_chip_family_table() {
    assert_eq!(open_session(0x400).chip_type, ftdi_chip_type::TYPE_BM);
    assert_eq!(open_session(0x200).chip_type, ftdi_chip_type::TYPE_AM);
    assert_eq!(open_session(0x500).chip_type, ftdi_chip_type::TYPE_2232C);
    assert_eq!(open_session(0x700).chip_type, ftdi_chip_type::TYPE_2232H);
    assert_eq!(open_session(0x800).chip_type, ftdi_chip_type::TYPE_4232H);
    assert_eq!(open_session(0x900).chip_type, ftdi_chip_type::TYPE_232H);
    assert_eq!(open_session(0x1000).chip_type, ftdi_chip_type::TYPE_230X);
    // 0x200 with no serial string is the BM quirk.
    let mut t = successful_transcript(0x200);
    t.descriptor = Some(DescriptorSummary {
        bcd_device: 0x200,
        i_serial_number: 0,
        num_configurations: 1,
    });
    let mut ctx = ftdi_context::new(4096);
    ctx.ftdi_usb_open_dev(&t).unwrap();
    assert_eq!(ctx.chip_type, ftdi_chip_type::TYPE_BM);
}

#[test]
fn open_dev_high_speed_packet_default() {
    let ctx = open_session(0x700);
    assert_eq!(ctx.max_packet_size, 512);
}

#[test]
fn open_dev_packet_size_from_probe() {
    let mut t = successful_transcript(0x600);
    t.packet_size_probe = Some(ConfigSummary {
        num_configurations: 1,
        num_interfaces: 1,
        num_altsetting: 1,
        num_endpoints: 2,
        max_packet_size: 512,
    });
    let mut ctx = ftdi_context::new(4096);
    ctx.ftdi_usb_open_dev(&t).unwrap();
    assert_eq!(ctx.max_packet_size, 512);
}

#[test]
fn open_dev_unknown_chip_fails() {
    let mut ctx = ftdi_context::new(4096);
    let e = ctx.ftdi_usb_open_dev(&successful_transcript(0x300)).unwrap_err();
    assert_eq!(e.kind, FtdiErrorKind::UsbInit);
    assert_eq!(e.code, -8);
}

#[test]
fn open_dev_error_paths() {
    // No transport context.
    let mut ctx = ftdi_context::default();
    let e = ctx.ftdi_usb_open_dev(&successful_transcript(0x600)).unwrap_err();
    assert_eq!(e.kind, FtdiErrorKind::UsbInit);
    assert_eq!(e.code, -8);
    // The device itself could not be opened.
    let mut ctx = ftdi_context::new(4096);
    let mut t = successful_transcript(0x600);
    t.opened = false;
    assert_eq!(ctx.ftdi_usb_open_dev(&t).unwrap_err().code, -4);
    // No device descriptor.
    let mut t = successful_transcript(0x600);
    t.descriptor = None;
    let e = ctx.ftdi_usb_open_dev(&t).unwrap_err();
    assert_eq!(e.kind, FtdiErrorKind::UsbCommandError);
    assert_eq!(e.code, -9);
    // No configuration descriptor.
    let mut t = successful_transcript(0x600);
    t.config0 = None;
    assert_eq!(ctx.ftdi_usb_open_dev(&t).unwrap_err().code, -10);
    // The active configuration could not be read.
    let mut t = successful_transcript(0x600);
    t.current_config = None;
    let e = ctx.ftdi_usb_open_dev(&t).unwrap_err();
    assert_eq!(e.kind, FtdiErrorKind::UsbInit);
    assert_eq!(e.code, -12);
    // Another configuration is active and setting the default one failed.
    let mut t = successful_transcript(0x600);
    t.current_config = Some(0);
    t.set_config_status = Some(-3);
    let e = ctx.ftdi_usb_open_dev(&t).unwrap_err();
    assert_eq!(e.kind, FtdiErrorKind::UsbCommandError);
    assert_eq!(e.code, -8);
    // The reset transfer failed.
    let mut t = successful_transcript(0x600);
    t.reset_status = Some(-1);
    assert_eq!(ctx.ftdi_usb_open_dev(&t).unwrap_err().code, -1);
    // The baud-rate transfer failed.
    let mut t = successful_transcript(0x600);
    t.baud_status = Some(-7);
    assert_eq!(ctx.ftdi_usb_open_dev(&t).unwrap_err().code, -2);
}

#[test]
fn flush_tx_keeps_read_buffer_counters() {
    // Flush asymmetry: a TX flush must not reset the local read-buffer
    // counters.
    let mut ctx = open_session(0x600);
    ctx.readbuffer_offset = 7;
    ctx.readbuffer_remaining = 40;
    ctx.ftdi_tcoflush(0).unwrap();
    assert_eq!(ctx.readbuffer_offset, 7);
    assert_eq!(ctx.readbuffer_remaining, 40);
    ctx.ftdi_usb_purge_tx_buffer(0).unwrap();
    assert_eq!(ctx.readbuffer_offset, 7);
    assert_eq!(ctx.readbuffer_remaining, 40);
}

#[test]
fn flush_rx_resets_read_buffer_counters() {
    let mut ctx = open_session(0x600);
    ctx.readbuffer_offset = 7;
    ctx.readbuffer_remaining = 40;
    ctx.ftdi_tciflush(0).unwrap();
    assert_eq!(ctx.readbuffer_offset, 0);
    assert_eq!(ctx.readbuffer_remaining, 0);
    let mut ctx = open_session(0x600);
    ctx.readbuffer_offset = 9;
    ctx.readbuffer_remaining = 2;
    ctx.ftdi_usb_purge_rx_buffer(0).unwrap();
    assert_eq!(ctx.readbuffer_offset, 0);
    assert_eq!(ctx.readbuffer_remaining, 0);
}

#[test]
fn failed_flush_leaves_counters_alone() {
    let mut ctx = open_session(0x600);
    ctx.readbuffer_offset = 7;
    ctx.readbuffer_remaining = 40;
    let e = ctx.ftdi_tciflush(-1).unwrap_err();
    assert_eq!(e.kind, FtdiErrorKind::UsbCommandError);
    assert_eq!(e.code, -1);
    assert_eq!(ctx.readbuffer_offset, 7);
    assert_eq!(ctx.readbuffer_remaining, 40);
}

#[test]
fn flush_on_closed_session_fails() {
    let mut ctx = ftdi_context::new(4096);
    let e = ctx.ftdi_tciflush(0).unwrap_err();
    assert_eq!(e.kind, FtdiErrorKind::UsbInit);
    assert_eq!(e.code, -2);
}

#[test]
fn combined_flushes() {
    let mut ctx = open_session(0x600);
    ctx.readbuffer_remaining = 11;
    ctx.ftdi_tcioflush(0, Some(0)).unwrap();
    assert_eq!(ctx.readbuffer_remaining, 0);
    let mut ctx = open_session(0x600);
    ctx.readbuffer_remaining = 11;
    // The RX purge ran first and succeeded; the TX purge then failed.
    let e = ctx.ftdi_usb_purge_buffers(0, Some(-1)).unwrap_err();
    assert_eq!(e.code, -1);
    assert_eq!(ctx.readbuffer_remaining, 0);
}

#[test]
fn reset_family_request_words() {
    let ctx = open_session(0x600);
    let req = ctx.ftdi_tciflush_request().unwrap();
    assert_eq!(req.request_type, FTDI_DEVICE_OUT_REQTYPE);
    assert_eq!(req.request, SIO_RESET_REQUEST);
    assert_eq!(req.value, SIO_TCIFLUSH);
    assert_eq!(req.index, 1);
    assert_eq!(req.length, 0);
    assert_eq!(req.timeout, 5000);
    assert_eq!(ctx.ftdi_usb_reset_request().unwrap().value, SIO_RESET_SIO);
    assert_eq!(ctx.ftdi_tcoflush_request().unwrap().value, SIO_TCOFLUSH);
    assert_eq!(ctx.ftdi_usb_purge_rx_buffer_request().unwrap().value, SIO_RESET_PURGE_RX);
    assert_eq!(ctx.ftdi_usb_purge_tx_buffer_request().unwrap().value, SIO_RESET_PURGE_TX);
}

#[test]
fn denied_detach_escalates_a_failed_configuration_step() {
    // Another configuration is active and setting the default one fails:
    // with the kernel-driver detach refused for lack of permission this is
    // a distinct permission-denied report, otherwise a configuration
    // failure. A refused detach alone never fails an open.
    let mut t = successful_transcript(0x600);
    t.current_config = Some(0);
    t.set_config_status = Some(-3);
    t.detach_errno = 1;
    let mut ctx = ftdi_context::new(4096);
    let e = ctx.ftdi_usb_open_dev(&t).unwrap_err();
    assert_eq!(e.kind, FtdiErrorKind::UsbPermissionError);
    assert_eq!(e.code, -8);
    // Same transcript, detach fine: the generic configuration failure.
    t.detach_errno = 0;
    let e = ctx.ftdi_usb_open_dev(&t).unwrap_err();
    assert_eq!(e.kind, FtdiErrorKind::UsbCommandError);
    assert_eq!(e.code, -8);
    // A refused detach with a working configuration step opens fine.
    let mut t = successful_transcript(0x600);
    t.detach_errno = 1;
    ctx.ftdi_usb_open_dev(&t).unwrap();
    assert_eq!(ctx.usb_state, UsbState::Open);
}

#[test]
fn failed_open_leaves_the_session_where_the_step_left_it() {
    // Failures before the device attaches change nothing.
    let mut ctx = ftdi_context::new(4096);
    let mut t = successful_transcript(0x600);
    t.opened = false;
    ctx.ftdi_usb_open_dev(&t).unwrap_err();
    assert_eq!(ctx.usb_state, UsbState::ContextOnly);
    assert_eq!(ctx.baudrate, -1);
    // A failed reset leaves the device attached, nothing else.
    let mut t = successful_transcript(0x600);
    t.reset_status = Some(-1);
    ctx.ftdi_usb_open_dev(&t).unwrap_err();
    assert_eq!(ctx.usb_state, UsbState::Open);
    assert_eq!(ctx.baudrate, -1);
    assert_eq!(ctx.max_packet_size, 0);
    // An unknown chip fails after the read buffer was invalidated.
    let mut ctx = ftdi_context::new(4096);
    ctx.readbuffer_remaining = 5;
    ctx.ftdi_usb_open_dev(&successful_transcript(0x300)).unwrap_err();
    assert_eq!(ctx.usb_state, UsbState::Open);
    assert_eq!(ctx.readbuffer_remaining, 0);
    assert_eq!(ctx.baudrate, -1);
    // A failed baud transfer fails after the packet size was probed.
    let mut ctx = ftdi_context::new(4096);
    let mut t = successful_transcript(0x700);
    t.baud_status = Some(-1);
    ctx.ftdi_usb_open_dev(&t).unwrap_err();
    assert_eq!(ctx.max_packet_size, 512);
    assert_eq!(ctx.baudrate, -1);
}

#[test]
fn error_messages_by_code() {
    assert_eq!(get_usb_sys_init_error(7).message(), "unknown error".to_string());
    assert_eq!(get_usb_sys_init_error(-1).message(), "I/O error".to_string());
    let e = ftdi_library::error::FtdiError::usb_permission(-8);
    assert_eq!(e.message(), "inappropriate permissions on device".to_string());
    let e = ftdi_library::error::FtdiError::usb_common(-17);
    assert_eq!(e.message(), "decimal value parse error".to_string());
}

#[test]
fn set_baudrate_records_unadjusted_rate() {
    let mut ctx = open_session(0x600);
    ctx.ftdi_set_baudrate(115200, 0).unwrap();
    assert_eq!(ctx.baudrate, 115200);
}

#[test]
fn set_baudrate_rejects_silly_and_out_of_tolerance_rates() {
    let mut ctx = open_session(0x600);
    let e = ctx.ftdi_set_baudrate(0, 0).unwrap_err();
    assert_eq!(e.kind, FtdiErrorKind::UsbCommonError);
    assert_eq!(e.code, -1);
    // 4 MBaud is unreachable on a non-H chip: the nearest achievable rate
    // (3 MBaud) is out of tolerance.
    let e = ctx.ftdi_set_baudrate(4_000_000, 0).unwrap_err();
    assert_eq!(e.kind, FtdiErrorKind::UsbCommonError);
    assert_eq!(e.code, -1);
    assert_eq!(ctx.baudrate, 9600);
}

#[test]
fn set_baudrate_failed_transfer() {
    let mut ctx = open_session(0x600);
    let e = ctx.ftdi_set_baudrate(19200, -5).unwrap_err();
    assert_eq!(e.kind, FtdiErrorKind::UsbCommandError);
    assert_eq!(e.code, -2);
    assert_eq!(ctx.baudrate, 9600);
}

#[test]
fn write_data_replays_chunks() {
    let ctx = open_session(0x600);
    assert_eq!(ctx.ftdi_write_data(10000, &vec![4096, 4096, 1808]).unwrap(), 10000);
    assert_eq!(ctx.ftdi_write_data(0, &Vec::new()).unwrap(), 0);
    let e = ctx.ftdi_write_data(10000, &vec![4096, -1]).unwrap_err();
    assert_eq!(e.kind, FtdiErrorKind::UsbCommandError);
    assert_eq!(e.code, -1);
    // The transcript runs out before the buffer is written.
    assert_eq!(ctx.ftdi_write_data(10000, &vec![4096]).unwrap_err().code, -1);
    // Short writes make progress and finish over more chunks.
    assert_eq!(ctx.ftdi_write_data(100, &vec![30, 30, 30, 10]).unwrap(), 100);
}

#[test]
fn write_chunk_size_splits_buffers() {
    let ctx = open_session(0x600);
    assert_eq!(ctx.write_chunk_size(10000, 0), 4096);
    assert_eq!(ctx.write_chunk_size(10000, 8192), 1808);
    assert_eq!(ctx.write_chunk_size(10, 3), 7);
}

#[test]
fn read_chipid_combines_words() {
    let ctx = open_session(0x600);
    assert_eq!(ctx.ftdi_read_chipid(Some(0x0403), Some(0x6001)).unwrap(), 0xE7F1_F5C5);
    let e = ctx.ftdi_read_chipid(Some(0x0403), None).unwrap_err();
    assert_eq!(e.kind, FtdiErrorKind::UsbCommandError);
    assert_eq!(e.code, -1);
    let closed = ftdi_context::new(4096);
    assert_eq!(closed.ftdi_read_chipid(Some(1), Some(2)).unwrap_err().code, -2);
}

#[test]
fn interface_selection_fixes_all_four_values() {
    let mut ctx = ftdi_context::new(4096);
    ctx.set_interface_type(ftdi_interface::INTERFACE_B);
    assert_eq!(ctx.interface, 1);
    assert_eq!(ctx.index, 2);
    assert_eq!(ctx.in_ep, 0x04);
    assert_eq!(ctx.out_ep, 0x83);
    ctx.set_interface_type(ftdi_interface::INTERFACE_D);
    assert_eq!(
        (ctx.interface, ctx.index, ctx.in_ep, ctx.out_ep),
        (3, 4, 0x08, 0x87)
    );
    ctx.set_interface_type(ftdi_interface::INTERFACE_ANY);
    assert_eq!(
        (ctx.interface, ctx.index, ctx.in_ep, ctx.out_ep),
        (0, 1, 0x02, 0x81)
    );
}

#[test]
fn buffer_chunk_size_by_kernel_version() {
    let old = KernelVersion { major: 2, minor: 6, patch: 30 };
    assert_eq!(check_and_calculate_buffer_size(Some(old)), 16384);
    let new = KernelVersion { major: 5, minor: 10, patch: 0 };
    assert_eq!(check_and_calculate_buffer_size(Some(new)), 4096);
    assert_eq!(check_and_calculate_buffer_size(None), 4096);
}

#[test]
fn session_defaults() {
    let ctx = ftdi_context::default();
    assert_eq!(ctx.usb_state, UsbState::Uninitialized);
    assert_eq!(ctx.baudrate, -1);
    assert_eq!(ctx.usb_read_timeout, 5000);
    assert_eq!(ctx.usb_write_timeout, 5000);
    assert_eq!(ctx.writebuffer_chunksize, 4096);
    assert_eq!(ctx.chip_type, ftdi_chip_type::TYPE_BM);
    let ctx = ftdi_context::new(16384);
    assert_eq!(ctx.usb_state, UsbState::ContextOnly);
    assert_eq!(ctx.readbuffer_chunksize, 16384);
}

#[test]
fn usb_sys_error_table() {
    assert_eq!(get_usb_sys_init_error(0).code, 0);
    assert_eq!(get_usb_sys_init_error(-3).code, -3);
    assert_eq!(get_usb_sys_init_error(-12).code, -12);
    assert_eq!(get_usb_sys_init_error(-99).code, -99);
    assert_eq!(get_usb_sys_init_error(7).code, -1000);
    assert_eq!(get_usb_sys_init_error(-50).code, -1000);
    assert_eq!(get_usb_sys_init_error(-3).kind, FtdiErrorKind::UsbInit);
}
