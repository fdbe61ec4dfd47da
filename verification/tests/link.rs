use faraday::link::vlinker::{
    command_reply, parse_can_frame, send_frame_command, VLinkerState, MAX_RECEIVE_RETRIES,
};
use faraday::{CanBus, CanFrame, CanId};

#[test]
fn parses_a_received_frame() {
    let f = parse_can_frame("  7E8,0641000C1AF8 \r").unwrap().unwrap();
    assert_eq!(f.id, CanId::new(0x7E8));
    assert_eq!(f.data, vec![0x06, 0x41, 0x00, 0x0C, 0x1A, 0xF8]);
    let lower = parse_can_frame("72e,10b1").unwrap().unwrap();
    assert_eq!(lower.id, CanId::new(0x72E));
    assert_eq!(lower.data, vec![0x10, 0xB1]);
}

#[test]
fn empty_and_no_data_replies_hold_no_frame() {
    assert!(parse_can_frame("").unwrap().is_none());
    assert!(parse_can_frame("  \r\n").unwrap().is_none());
    assert!(parse_can_frame("NO DATA").unwrap().is_none());
    assert!(parse_can_frame("SEARCHING...").unwrap().is_none());
}

#[test]
fn fatal_replies_are_errors() {
    let e = parse_can_frame(" CAN ERROR ").unwrap_err();
    assert_eq!(e.to_string(), "Link layer error: Adapter error: CAN ERROR");
    assert!(parse_can_frame("BUFFER FULL").is_err());
    assert!(parse_can_frame("UNABLE TO CONNECT").is_err());
}

#[test]
fn malformed_frames_are_errors() {
    let e = parse_can_frame("7G8,0102").unwrap_err();
    assert_eq!(e.to_string(), "Invalid frame: Invalid CAN ID");
    let e = parse_can_frame("7E8,012").unwrap_err();
    assert_eq!(e.to_string(), "Invalid frame: Invalid hex data");
    let e = parse_can_frame("7E8,01ZZ").unwrap_err();
    assert_eq!(e.to_string(), "Invalid frame: Invalid hex data");
}

#[test]
fn reply_line_skips_echo_and_blanks() {
    assert_eq!(command_reply("STI\r\rSTN1170 v4.3\r\r", "STI").unwrap(), "STN1170 v4.3");
    assert_eq!(command_reply("atz\r\r", "ATZ").unwrap(), "");
    assert_eq!(command_reply("OK\r\n\n", "STFAP").unwrap(), "OK");
    let e = command_reply("STPX\rCAN ERROR\r", "STPX H:7E0,0,0210").unwrap_err();
    assert_eq!(e.to_string(), "Link layer error: Command failed: CAN ERROR");
}

#[test]
fn frame_transmit_command() {
    let f = CanFrame::new(CanId::new(0x7DF), vec![0x02, 0x01, 0x0C, 0x55, 0x55, 0x55, 0x55, 0x55]);
    assert_eq!(send_frame_command(&f), "STPX H:7DF,0,02010C5555555555");
    let short = CanFrame::new(CanId::new(0x20), vec![0xab]);
    assert_eq!(send_frame_command(&short), "STPX H:020,0,AB");
}

#[test]
fn bus_switch_is_sent_only_on_change() {
    let mut s = VLinkerState::new(true);
    assert!(s.check_port().is_ok());
    assert_eq!(s.bus_switch_command(CanBus::MsCan), Some("STCP 25"));
    s.bus_switched(CanBus::MsCan);
    assert_eq!(s.bus_switch_command(CanBus::MsCan), None);
    assert_eq!(s.bus_switch_command(CanBus::HsCan), Some("STCP 24"));
    assert_eq!(s.init_command(0), "ATZ");
    assert_eq!(s.init_command(3), "STFAP");
    s.mark_connected();
    assert!(s.is_connected());
    s.disconnect();
    assert!(!s.is_connected());
    let e = VLinkerState::new(false).check_port().unwrap_err();
    assert_eq!(e.to_string(), "Link layer error: Port not configured");
    assert_eq!(MAX_RECEIVE_RETRIES, 50);
}
