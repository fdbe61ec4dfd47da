use faraday::link::sim::SimulatedEcu;
use faraday::link::vlinker::{command_reply, parse_can_frame, send_frame_command};
use faraday::emu::handler::{parse_stpx, receive_reply, StnCommand};
use faraday::{CanFrame, CanId};

#[test]
fn sim_responds_to_mode01_rpm_request() {
    let mut ecu = SimulatedEcu::new();
    let req = CanFrame::new(CanId::new(0x7DF), vec![0x02, 0x01, 0x0C, 0x55, 0x55, 0x55, 0x55, 0x55]);
    ecu.send_frame(&req).unwrap();
    let resp = ecu.receive_frame().unwrap();
    assert_eq!(resp.id, CanId::new(0x7E8));
    assert_eq!(resp.data[0], 0x04);
    assert_eq!(resp.data[1], 0x41);
    assert_eq!(resp.data[2], 0x0C);
    assert_eq!(resp.data[3..5], [0x0C, 0x80]);
}

#[test]
fn sim_responds_to_mode03_with_no_dtcs() {
    let mut ecu = SimulatedEcu::new();
    let req = CanFrame::new(CanId::new(0x7DF), vec![0x01, 0x03, 0x55, 0x55, 0x55, 0x55, 0x55, 0x55]);
    ecu.send_frame(&req).unwrap();
    let resp = ecu.receive_frame().unwrap();
    assert_eq!(resp.data[1], 0x43);
    assert_eq!(resp.data[2], 0x00);
}

#[test]
fn sim_responds_to_vin_request_as_multiframe() {
    let mut ecu = SimulatedEcu::new();
    let req = CanFrame::new(CanId::new(0x7DF), vec![0x02, 0x09, 0x02, 0x55, 0x55, 0x55, 0x55, 0x55]);
    ecu.send_frame(&req).unwrap();
    let ff = ecu.receive_frame().unwrap();
    assert_eq!((ff.data[0] & 0xF0) >> 4, 1);
    let total_len = (((ff.data[0] & 0x0F) as u16) << 8) | ff.data[1] as u16;
    assert_eq!(total_len, 20);
}

#[test]
fn sim_flow_control_does_not_enqueue_response() {
    let mut ecu = SimulatedEcu::new();
    let fc = CanFrame::new(CanId::new(0x7DF), vec![0x30, 0x00, 0x00, 0x55, 0x55, 0x55, 0x55, 0x55]);
    ecu.send_frame(&fc).unwrap();
    assert!(ecu.receive_frame().is_err());
}

#[test]
fn sim_answers_identification_dids() {
    let mut ecu = SimulatedEcu::new();
    let req = CanFrame::new(CanId::new(0x7E0), vec![0x03, 0x22, 0xF1, 0x8A, 0x55, 0x55, 0x55, 0x55]);
    ecu.send_frame(&req).unwrap();
    let resp = ecu.receive_frame().unwrap();
    assert_eq!(resp.data, vec![0x07, 0x62, 0xF1, 0x8A, b'F', b'O', b'R', b'D']);
    let e = ecu.receive_frame().unwrap_err();
    assert_eq!(e.to_string(), "Link layer error: no simulated response available");
    assert!(ecu.is_connected());
}

#[test]
fn driver_and_emulator_agree_on_frames() {
    let frame = CanFrame::new(CanId::new(0x7E0), vec![0x03, 0x22, 0xF1, 0x90, 0x55, 0x55, 0x55, 0x55]);
    let command = send_frame_command(&frame);
    match parse_stpx(&command) {
        StnCommand::Stpx { can_id, data } => {
            assert_eq!(can_id, 0x7E0);
            assert_eq!(data, frame.data);
        }
        _ => panic!("transmit command not understood"),
    }
    let reply = receive_reply(Some(&frame));
    let without_prompt = reply.trim_end_matches('>');
    let line = command_reply(without_prompt, "STRX").unwrap();
    let parsed = parse_can_frame(&line).unwrap().unwrap();
    assert_eq!(parsed, frame);
}
