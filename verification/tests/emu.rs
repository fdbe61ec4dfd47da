use faraday::emu::ecu::{
    assemble_did_reply, assemble_live_data, did_source, frame_request, gps_status_data, module_for,
    parking_sensor_data, plan_response, reply_frames, response_id_for, word_bytes, DidSource,
    EmuModule, FrameQueue, ResponsePlan,
};
use rand::rngs::SmallRng;
use rand::SeedableRng;
use faraday::emu::handler::{command_reply, parse_command, parse_stpx, receive_reply, StnCommand};
use faraday::{CanFrame, CanId};

/// Answers a frame the way the emulator does for requests whose reply is fixed.
fn answer(frame: &CanFrame, queue: &mut FrameQueue) {
    let payload = match frame_request(frame) {
        Some(p) => p,
        None => return,
    };
    let request_id = frame.id.id();
    let reply = match plan_response(request_id, &payload) {
        ResponsePlan::Silent => return,
        ResponsePlan::Reply(r) => r,
        ResponsePlan::LiveData(pids) => {
            let values: Vec<Vec<u8>> = pids.iter().map(|_| vec![0x00]).collect();
            assemble_live_data(&pids, &values)
        }
        ResponsePlan::ReadDid { module, did_high, did_low } => {
            let did = ((did_high as u16) << 8) | did_low as u16;
            match did_source(module, did) {
                DidSource::Fixed(d) => assemble_did_reply(did_high, did_low, &d),
                DidSource::Generated => panic!("generated DID in a fixed-value test"),
            }
        }
    };
    queue.push_all(reply_frames(response_id_for(frame.id), &reply));
}

/// Answers a frame the way the emulator does, taking the generated values from
/// `generated` (DIDs) and `live` (Mode 01 PIDs).
fn answer_generated(
    frame: &CanFrame,
    queue: &mut FrameQueue,
    generated: &mut dyn FnMut(EmuModule, u16) -> Vec<u8>,
    live: &dyn Fn(u8) -> Vec<u8>,
) {
    let payload = match frame_request(frame) {
        Some(p) => p,
        None => return,
    };
    let reply = match plan_response(frame.id.id(), &payload) {
        ResponsePlan::Silent => return,
        ResponsePlan::Reply(r) => r,
        ResponsePlan::LiveData(pids) => {
            let values: Vec<Vec<u8>> = pids.iter().map(|&p| live(p)).collect();
            assemble_live_data(&pids, &values)
        }
        ResponsePlan::ReadDid { module, did_high, did_low } => {
            let did = ((did_high as u16) << 8) | did_low as u16;
            match did_source(module, did) {
                DidSource::Fixed(d) => assemble_did_reply(did_high, did_low, &d),
                DidSource::Generated => assemble_did_reply(did_high, did_low, &generated(module, did)),
            }
        }
    };
    queue.push_all(reply_frames(response_id_for(frame.id), &reply));
}

fn no_live_value(_: u8) -> Vec<u8> {
    panic!("no live value expected")
}

#[test]
fn ecu_responds_to_mode01_rpm_request() {
    let mut queue = FrameQueue::new();
    let req = CanFrame::new(CanId::new(0x7DF), vec![0x02, 0x01, 0x0C, 0x55, 0x55, 0x55, 0x55, 0x55]);
    // Stand-in for the idle model's value: 800 rpm, raw 3200.
    let live = |pid: u8| if pid == 0x0C { word_bytes(&[3200]) } else { vec![0x00] };
    answer_generated(&req, &mut queue, &mut |_, _| panic!("no DID expected"), &live);
    let resp = queue.pop_front().unwrap();
    assert_eq!(resp.id, CanId::new(0x7E8));
    assert_eq!(resp.data[0], 0x04);
    assert_eq!(resp.data[1], 0x41);
    assert_eq!(resp.data[2], 0x0C);
    let raw_rpm = ((resp.data[3] as u16) << 8) | resp.data[4] as u16;
    assert!(raw_rpm >= 2960 && raw_rpm <= 3440, "RPM raw {raw_rpm} outside expected idle range");
}

#[test]
fn responds_to_tcm_fluid_temp() {
    let mut queue = FrameQueue::new();
    let req = CanFrame::new(CanId::new(0x7E1), vec![0x03, 0x22, 0xDD, 0x01, 0x55, 0x55, 0x55, 0x55]);
    // Stand-in for the fluid temperature model's value: 90 °C, raw 130.
    let mut generated = |m: EmuModule, did: u16| {
        assert_eq!((m, did), (EmuModule::Tcm, 0xDD01));
        vec![130u8]
    };
    answer_generated(&req, &mut queue, &mut generated, &no_live_value);
    let resp = queue.pop_front().unwrap();
    assert_eq!(resp.id, CanId::new(0x7E9));
    assert_eq!(resp.data[1], 0x62);
    assert_eq!(resp.data[2], 0xDD);
    assert_eq!(resp.data[3], 0x01);
    let raw_temp = resp.data[4] as f64 - 40.0;
    assert!(raw_temp >= 80.0 && raw_temp <= 100.0);
}

#[test]
fn responds_to_abs_wheel_speeds() {
    let mut queue = FrameQueue::new();
    let req = CanFrame::new(CanId::new(0x7E2), vec![0x03, 0x22, 0xC0, 0x01, 0x55, 0x55, 0x55, 0x55]);
    // Stand-in for the four wheel-speed words of the model.
    let mut generated = |m: EmuModule, did: u16| {
        assert_eq!((m, did), (EmuModule::Abs, 0xC001));
        word_bytes(&[2, 1, 3, 0])
    };
    answer_generated(&req, &mut queue, &mut generated, &no_live_value);
    let ff = queue.pop_front().unwrap();
    assert_eq!(ff.id.id(), 0x7EA);
    assert_eq!((ff.data[0] & 0xF0) >> 4, 1, "should be multi-frame");
    let total_len = (((ff.data[0] & 0x0F) as u16) << 8) | ff.data[1] as u16;
    assert_eq!(total_len, 11); // 3 header + 8 data bytes
}

#[test]
fn responds_to_pam_sensors() {
    let mut queue = FrameQueue::new();
    let req = CanFrame::new(CanId::new(0x733), vec![0x03, 0x22, 0xE0, 0x01, 0x55, 0x55, 0x55, 0x55]);
    let mut rng = SmallRng::seed_from_u64(7);
    let mut generated = |m: EmuModule, did: u16| {
        assert_eq!((m, did), (EmuModule::Pam, 0xE001));
        parking_sensor_data(&mut rng)
    };
    answer_generated(&req, &mut queue, &mut generated, &no_live_value);
    let ff = queue.pop_front().unwrap();
    assert_eq!(ff.id.id(), 0x73B);
    let total_len = (((ff.data[0] & 0x0F) as u16) << 8) | ff.data[1] as u16;
    assert_eq!(total_len, 19); // 3 header + 16 sensor bytes
}

#[test]
fn random_draws_stay_in_their_ranges() {
    let mut rng = SmallRng::seed_from_u64(42);
    for _ in 0..50 {
        let d = parking_sensor_data(&mut rng);
        assert_eq!(d.len(), 16);
        for i in 0..8 {
            let w = ((d[2 * i] as u16) << 8) | d[2 * i + 1] as u16;
            assert!((200..=500).contains(&w));
        }
        let g = gps_status_data(&mut rng);
        assert_eq!(g[0], 0x01);
        assert!((8..=12).contains(&g[1]));
    }
    assert_eq!(word_bytes(&[0x1234, 0x00FF]), vec![0x12, 0x34, 0x00, 0xFF]);
}

#[test]
fn ecu_responds_to_mode03_with_no_dtcs() {
    let mut queue = FrameQueue::new();
    let req = CanFrame::new(CanId::new(0x7DF), vec![0x01, 0x03, 0x55, 0x55, 0x55, 0x55, 0x55, 0x55]);
    answer(&req, &mut queue);
    let resp = queue.pop_front().unwrap();
    assert_eq!(resp.data[1], 0x43);
    assert_eq!(resp.data[2], 0x00);
}

#[test]
fn ecu_responds_to_vin_request_as_multiframe() {
    let mut queue = FrameQueue::new();
    let req = CanFrame::new(CanId::new(0x7DF), vec![0x02, 0x09, 0x02, 0x55, 0x55, 0x55, 0x55, 0x55]);
    answer(&req, &mut queue);
    let ff = queue.pop_front().unwrap();
    assert_eq!((ff.data[0] & 0xF0) >> 4, 1);
    let total_len = (((ff.data[0] & 0x0F) as u16) << 8) | ff.data[1] as u16;
    assert_eq!(total_len, 20);
}

#[test]
fn ecu_flow_control_does_not_enqueue_response() {
    let mut queue = FrameQueue::new();
    let fc = CanFrame::new(CanId::new(0x7DF), vec![0x30, 0x00, 0x00, 0x55, 0x55, 0x55, 0x55, 0x55]);
    answer(&fc, &mut queue);
    assert!(queue.pop_front().is_none());
}

#[test]
fn responds_to_bcm_asbuilt_block_01() {
    let mut queue = FrameQueue::new();
    let req = CanFrame::new(CanId::new(0x726), vec![0x03, 0x22, 0x07, 0x01, 0x55, 0x55, 0x55, 0x55]);
    answer(&req, &mut queue);
    let resp = queue.pop_front().unwrap();
    assert_eq!(resp.id, CanId::new(0x72E));
    assert_eq!((resp.data[0] & 0xF0) >> 4, 1, "should be first frame (multi-frame)");
    let total_len = (((resp.data[0] & 0x0F) as u16) << 8) | resp.data[1] as u16;
    assert_eq!(total_len, 11);
}

#[test]
fn responds_to_ipc_asbuilt_block_01() {
    let mut queue = FrameQueue::new();
    let req = CanFrame::new(CanId::new(0x720), vec![0x03, 0x22, 0x01, 0x01, 0x55, 0x55, 0x55, 0x55]);
    answer(&req, &mut queue);
    let resp = queue.pop_front().unwrap();
    assert_eq!(resp.id, CanId::new(0x728));
    assert_eq!((resp.data[0] & 0xF0) >> 4, 1, "should be first frame (multi-frame)");
    let total_len = (((resp.data[0] & 0x0F) as u16) << 8) | resp.data[1] as u16;
    assert_eq!(total_len, 11);
}

#[test]
fn responds_to_hvac_heartbeat() {
    let mut queue = FrameQueue::new();
    let req = CanFrame::new(CanId::new(0x703), vec![0x03, 0x22, 0xF1, 0x01, 0x55, 0x55, 0x55, 0x55]);
    answer(&req, &mut queue);
    let resp = queue.pop_front().unwrap();
    assert_eq!(resp.id, CanId::new(0x70B));
    assert_eq!(resp.data[1], 0x62);
    assert_eq!(resp.data[4], 0x01);
}

#[test]
fn responds_to_bcm_tpms_pressures() {
    let mut queue = FrameQueue::new();
    let req = CanFrame::new(CanId::new(0x726), vec![0x03, 0x22, 0x02, 0x01, 0x55, 0x55, 0x55, 0x55]);
    answer(&req, &mut queue);
    let resp = queue.pop_front().unwrap();
    assert_eq!(resp.id, CanId::new(0x72E));
    assert_eq!(resp.data[1], 0x62);
    assert_eq!(resp.data[2], 0x02);
    assert_eq!(resp.data[3], 0x01);
    assert_eq!(resp.data[4], 0x23);
    assert_eq!(resp.data[5], 0x23);
}

#[test]
fn live_data_reply_is_assembled_in_request_order() {
    assert_eq!(
        assemble_live_data(&[0x0C, 0x0D], &vec![vec![0x0C, 0x80], vec![0x00]]),
        vec![0x41, 0x0C, 0x0C, 0x80, 0x0D, 0x00]
    );
    match plan_response(0x7DF, &[0x01, 0x0C, 0x0D]) {
        ResponsePlan::LiveData(p) => assert_eq!(p, vec![0x0C, 0x0D]),
        _ => panic!("mode 01 not planned as live data"),
    }
}

#[test]
fn generated_dids_and_module_routing() {
    assert!(matches!(did_source(EmuModule::Tcm, 0xDD01), DidSource::Generated));
    assert!(matches!(did_source(EmuModule::Pam, 0xE001), DidSource::Generated));
    match did_source(EmuModule::Other, 0x1234) {
        DidSource::Fixed(d) => assert_eq!(d, vec![0, 0, 0, 0]),
        _ => panic!("unknown DID generated"),
    }
    match did_source(EmuModule::Pcm, 0xF18A) {
        DidSource::Fixed(d) => assert_eq!(d, b"FORD".to_vec()),
        _ => panic!("supplier DID generated"),
    }
    assert_eq!(module_for(0x7E2), EmuModule::Abs);
    assert_eq!(module_for(0x7DF), EmuModule::Pcm);
    assert_eq!(response_id_for(CanId::new(0x733)), CanId::new(0x73B));
    assert_eq!(response_id_for(CanId::new(0x123)), CanId::new(0x7E8));
    assert!(matches!(plan_response(0x7E0, &[0x55]), ResponsePlan::Silent));
    assert!(matches!(plan_response(0x7E0, &[]), ResponsePlan::Silent));
}

#[test]
fn parse_atz() {
    assert!(matches!(parse_command("ATZ"), StnCommand::Atz));
    assert!(matches!(parse_command("  sti\r"), StnCommand::Sti));
    assert!(matches!(parse_command("stcp 25"), StnCommand::StcpMsCan));
    assert!(matches!(parse_command("HELLO"), StnCommand::Unknown));
}

#[test]
fn parse_stpx_rpm_request() {
    let cmd = parse_command("STPX H:7DF,0,02010C55555555");
    assert!(matches!(cmd, StnCommand::Stpx { can_id: 0x7DF, .. }));
    match parse_stpx("STPX H:7E0, 0 , 0210") {
        StnCommand::Stpx { can_id, data } => {
            assert_eq!(can_id, 0x7E0);
            assert_eq!(data, vec![0x02, 0x10]);
        }
        _ => panic!("STPX not parsed"),
    }
    assert!(matches!(parse_stpx("STPX H:7E0,0"), StnCommand::Unknown));
    assert!(matches!(parse_stpx("STPX H:XYZ,0,00"), StnCommand::Unknown));
    assert!(matches!(parse_stpx("STPX H:7E0,0,0"), StnCommand::Unknown));
}

#[test]
fn stpx_then_strx_returns_frame() {
    let mut queue = FrameQueue::new();
    match parse_command("STPX H:7DF,0,02010C55555555") {
        StnCommand::Stpx { can_id, data } => {
            answer(&CanFrame::new(CanId::new(can_id), data), &mut queue);
        }
        _ => panic!("STPX not parsed"),
    }
    let s = receive_reply(queue.pop_front().as_ref());
    assert!(s.starts_with("7E8,"));
    assert!(s.ends_with('>'));
}

#[test]
fn strx_reply_renders_the_queued_frame() {
    let mut queue = FrameQueue::new();
    match parse_command("STPX H:7DF,0,02010D55555555") {
        StnCommand::Stpx { can_id, data } => {
            assert_eq!(command_reply(&StnCommand::Stpx { can_id, data: data.clone() }), Some("OK\r\n>"));
            answer(&CanFrame::new(CanId::new(can_id), data), &mut queue);
        }
        _ => panic!("STPX not parsed"),
    }
    assert_eq!(receive_reply(queue.pop_front().as_ref()), "7E8,03410D0055555555\r\n>");
}

#[test]
fn strx_with_empty_queue_returns_empty_prompt() {
    let mut queue = FrameQueue::new();
    assert_eq!(receive_reply(queue.pop_front().as_ref()).as_bytes(), b"\r\n>");
    assert_eq!(command_reply(&StnCommand::Atz), Some("ELM327 v1.5\r\n>"));
    assert_eq!(command_reply(&StnCommand::Unknown), Some("?\r\n>"));
    assert_eq!(command_reply(&StnCommand::Strx), None);
}
