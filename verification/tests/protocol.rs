use faraday::protocol::j1979::{Dtc, Pid, PidReading, Scaling, J1979};
use faraday::protocol::seed_key::compute_key;
use faraday::protocol::uds::{DataIdentifier, DiagnosticSession, NegativeResponse, Uds};
use faraday::transport::isotp::{IsoTpReceiver, RxOutcome};
use faraday::{CanFrame, CanId, Error};

#[test]
fn compute_key_produces_four_bytes() {
    let seed = [0x01u8, 0x02, 0x03, 0x04];
    let key = compute_key(&seed, 0x01).unwrap();
    assert_eq!(key.len(), 4);
}

#[test]
fn compute_key_is_invertible() {
    let seed = [0xDE, 0xAD, 0xBE, 0xEF];
    let key = compute_key(&seed, 0x01).unwrap();
    let recovered = compute_key(&key, 0x01).unwrap();
    assert_eq!(recovered, seed);
}

#[test]
fn compute_key_known_pair() {
    let seed = [0x00u8, 0x00, 0x00, 0x00];
    let key = compute_key(&seed, 0x01).unwrap();
    assert_eq!(key, vec![0xB3, 0xCA, 0x40, 0x57]);
}

#[test]
fn compute_key_rejects_wrong_length() {
    assert!(compute_key(&[0x01, 0x02], 0x01).is_err());
    assert!(compute_key(&[], 0x01).is_err());
}

#[test]
fn compute_key_error_names_the_length() {
    let e = compute_key(&[0x01, 0x02, 0x03], 0x01).unwrap_err();
    assert_eq!(e.to_string(), "Protocol error: expected 4-byte seed, got 3 bytes");
}

#[test]
fn dtc_from_bytes_decodes_all_systems() {
    let p = Dtc::from_bytes(&[0x01, 0x33]).unwrap();
    assert_eq!(p.code, "P0133");
    assert_eq!(p.description, "Diagnostic Trouble Code P0133");
    assert_eq!(Dtc::from_bytes(&[0x41, 0x23]).unwrap().code, "C0123");
    assert_eq!(Dtc::from_bytes(&[0x9A, 0x0F]).unwrap().code, "B1A0F");
    assert_eq!(Dtc::from_bytes(&[0xFF, 0xFF]).unwrap().code, "U3FFF");
}

#[test]
fn dtc_from_bytes_rejects_other_lengths() {
    let e = Dtc::from_bytes(&[0x01]).unwrap_err();
    assert_eq!(e.to_string(), "Invalid data: DTC must be 2 bytes");
    assert!(Dtc::from_bytes(&[0x01, 0x02, 0x03]).is_err());
}

#[test]
fn mode01_response_yields_each_requested_pid() {
    let j = J1979::new();
    let pids = [Pid(Pid::ENGINE_RPM), Pid(Pid::VEHICLE_SPEED), Pid(Pid::FUEL_AIR_EQUIV_RATIO)];
    let response = [0x41, 0x0C, 0x0C, 0x80, 0x0D, 0x32, 0x44, 0x80, 0x00, 0x7F, 0xFF];
    let readings = j.parse_mode_01_response(&response, &pids).unwrap();
    assert_eq!(readings.len(), 3);
    assert_eq!(readings[0].pid, Pid(0x0C));
    assert_eq!(readings[0].raw_value, vec![0x0C, 0x80]);
    assert_eq!(readings[1].raw_value, vec![0x32]);
    assert_eq!(readings[2].raw_value, vec![0x80, 0x00, 0x7F, 0xFF]);
}

#[test]
fn mode01_response_skips_mismatched_bytes_and_stops_at_truncation() {
    let j = J1979::new();
    let pids = [Pid(0x05), Pid(0x0D), Pid(0x0C)];
    // 0x05 is absent: its byte position holds 0x0D, skipped with PID 0x05; 0x0D then does
    // not match 0x5A and is skipped too; 0x0C's two data bytes run past the end.
    let response = [0x41, 0x0D, 0x5A, 0x0C, 0x01];
    let readings = j.parse_mode_01_response(&response, &pids).unwrap();
    assert_eq!(readings.len(), 0);
    let e = j.parse_mode_01_response(&[0x7F, 0x01, 0x12], &pids).unwrap_err();
    assert_eq!(e.to_string(), "Protocol error: Invalid Mode 01 response");
    assert!(j.parse_mode_01_response(&[0x41], &pids).is_err());
}

#[test]
fn dtc_response_count_is_limited_by_the_data() {
    let j = J1979::new();
    let dtcs = j.parse_dtc_response(&[0x43, 0x02, 0x01, 0x33, 0xC1, 0x00]).unwrap();
    assert_eq!(dtcs.len(), 2);
    assert_eq!(dtcs[0].code, "P0133");
    assert_eq!(dtcs[1].code, "U0100");
    let truncated = j.parse_dtc_response(&[0x43, 0x05, 0x01, 0x33, 0xC1]).unwrap();
    assert_eq!(truncated.len(), 1);
    assert_eq!(j.parse_dtc_response(&[0x43, 0x00]).unwrap().len(), 0);
    let e = j.parse_dtc_response(&[0x43]).unwrap_err();
    assert_eq!(e.to_string(), "Protocol error: Invalid DTC response");
}

#[test]
fn vin_response_is_decoded_and_trimmed() {
    let j = J1979::new();
    let mut response = vec![0x49, 0x02, 0x01];
    response.extend_from_slice(b"1FA6P8TH5H5123456\0\0");
    assert_eq!(j.parse_vin_response(&response).unwrap(), "1FA6P8TH5H5123456");
    let e = j.parse_vin_response(&[0x49, 0x02, 0x01, 0xFF]).unwrap_err();
    assert_eq!(e.to_string(), "Invalid data: Invalid VIN encoding");
    let e = j.parse_vin_response(&[0x49, 0x03, 0x01]).unwrap_err();
    assert_eq!(e.to_string(), "Protocol error: Invalid VIN response");
}

#[test]
fn j1979_requests_and_clear_check() {
    let j = J1979::new();
    assert_eq!(j.live_data_request(&[Pid(0x0C), Pid(0x0D)]), vec![0x01, 0x0C, 0x0D]);
    assert_eq!(j.stored_dtcs_request(), vec![0x03]);
    assert_eq!(j.pending_dtcs_request(), vec![0x07]);
    assert_eq!(j.permanent_dtcs_request(), vec![0x0A]);
    assert_eq!(j.clear_dtcs_request(), vec![0x04]);
    assert_eq!(j.vin_request(), vec![0x09, 0x02]);
    assert!(j.check_clear_response(&[0x44]).is_ok());
    let e = j.check_clear_response(&[0x7F, 0x04, 0x22]).unwrap_err();
    assert_eq!(e.to_string(), "Protocol error: Failed to clear DTCs");
    assert_eq!(j.get_pid_data_length(Pid(Pid::ENGINE_RPM)), 2);
    assert_eq!(j.get_pid_data_length(Pid(Pid::FUEL_AIR_EQUIV_RATIO)), 4);
    assert_eq!(j.get_pid_data_length(Pid(Pid::COOLANT_TEMP)), 1);
    assert_eq!(j.get_pid_data_length(Pid(0xA6)), 1);
    assert_eq!(Pid::from(0x0Cu8), Pid(0x0C));
}

#[test]
fn negative_response_descriptions() {
    let n = NegativeResponse::new(0x27, 0x35);
    assert_eq!(n.description, "Invalid key");
    assert!(!n.is_response_pending());
    let p = NegativeResponse::new(0x22, 0x78);
    assert_eq!(p.description, "Request correctly received - response pending");
    assert!(p.is_response_pending());
    assert_eq!(NegativeResponse::new(0x22, 0x99).description, "Unknown error code");
}

#[test]
fn uds_replies_are_checked() {
    let mut uds = Uds::new();
    assert_eq!(uds.current_session(), DiagnosticSession::Default);
    assert_eq!(
        uds.diagnostic_session_control_request(DiagnosticSession::Extended),
        vec![0x10, 0x03]
    );
    assert!(uds.finish_diagnostic_session_control(&[0x50, 0x03], DiagnosticSession::Extended).is_ok());
    assert_eq!(uds.current_session(), DiagnosticSession::Extended);

    let e = uds.finish_diagnostic_session_control(&[0x7F, 0x10, 0x22], DiagnosticSession::Programming).unwrap_err();
    assert_eq!(e.to_string(), "UDS negative response: service 0x10, code 0x22 (Conditions not correct)");
    assert_eq!(uds.current_session(), DiagnosticSession::Extended);

    let e = uds.check_positive_response(&[0x62, 0x01], 0x22, 3).unwrap_err();
    assert_eq!(e.to_string(), "Protocol error: Response too short");
    let e = uds.check_positive_response(&[0x7F, 0x22], 0x22, 2).unwrap_err();
    assert_eq!(e.to_string(), "Protocol error: Invalid negative response format");
    let e = uds.check_positive_response(&[0x51, 0x01], 0x10, 2).unwrap_err();
    assert_eq!(e.to_string(), "Protocol error: Unexpected response service: expected 50, got 51");
}

#[test]
fn uds_read_and_write_by_identifier() {
    let mut uds = Uds::new();
    let did = DataIdentifier(DataIdentifier::VIN);
    assert_eq!(uds.read_data_by_identifier_request(did), vec![0x22, 0xF1, 0x90]);
    assert_eq!(
        uds.finish_read_data_by_identifier(&[0x62, 0xF1, 0x90, 0x41, 0x42], did).unwrap(),
        vec![0x41, 0x42]
    );
    let e = uds.finish_read_data_by_identifier(&[0x62, 0xF1, 0x91, 0x41], did).unwrap_err();
    assert_eq!(e.to_string(), "Protocol error: DID mismatch: requested F190, got F191");

    let write = DataIdentifier::from(0x0701u16);
    let e = uds.write_data_by_identifier_request(write, &[0xAB]).unwrap_err();
    assert_eq!(e.to_string(), "Protocol error: Security access required for write operations");
    assert_eq!(uds.security_access_seed_request(0x01), vec![0x27, 0x01]);
    assert_eq!(uds.finish_security_access_request_seed(&[0x67, 0x01, 1, 2, 3, 4]).unwrap(), vec![1, 2, 3, 4]);
    assert_eq!(uds.security_access_key_request(0x01, &[9, 8]), vec![0x27, 0x02, 9, 8]);
    assert!(uds.finish_security_access_send_key(&[0x7F, 0x27, 0x35]).is_err());
    assert!(!uds.is_security_access_granted());
    assert!(uds.finish_security_access_send_key(&[0x67, 0x02]).is_ok());
    assert!(uds.is_security_access_granted());
    assert_eq!(uds.write_data_by_identifier_request(write, &[0xAB]).unwrap(), vec![0x2E, 0x07, 0x01, 0xAB]);
    assert!(uds.finish_write_data_by_identifier(&[0x6E, 0x07, 0x01], write).is_ok());
    assert!(uds.finish_write_data_by_identifier(&[0x6E, 0x07, 0x02], write).is_err());
    assert_eq!(uds.tester_present_request(), vec![0x3E, 0x00]);
    assert!(uds.finish_tester_present(&[0x7E, 0x00]).is_ok());
}

#[test]
fn receive_multi_frame_sends_flow_control_and_reassembles() {
    let request_id = CanId::new(0x7E0);
    let response_id = CanId::new(0x7E8);

    let first_frame = CanFrame::new(response_id, vec![0x10, 0x0D, 0x01, 0x02, 0x03, 0x04, 0x05, 0x06]);
    let consec_frame = CanFrame::new(response_id, vec![0x21, 0x07, 0x08, 0x09, 0x0A, 0x0B, 0x0C, 0x0D]);

    let mut rx = IsoTpReceiver::new(request_id, response_id);
    let mut sent: Vec<CanFrame> = Vec::new();
    let mut result: Option<Vec<u8>> = None;
    for frame in [first_frame, consec_frame] {
        assert!(rx.accepts(&frame));
        let step = rx.on_frame(&frame);
        if let Some(fc) = step.flow_control {
            sent.push(fc);
        }
        match step.outcome {
            RxOutcome::Complete(data) => result = Some(data),
            RxOutcome::Waiting => {}
            RxOutcome::Ignored => panic!("frame ignored"),
            RxOutcome::Failed(e) => panic!("reception failed: {}", e.to_string()),
        }
    }

    assert_eq!(result.unwrap(), (1u8..=13).collect::<Vec<u8>>());
    assert_eq!(sent.len(), 1, "expected exactly one FC frame sent");
    assert_eq!(sent[0].id, request_id, "FC must be addressed to request_id");
    assert_eq!(
        sent[0].data,
        vec![0x30, 0x00, 0x00, 0x55, 0x55, 0x55, 0x55, 0x55],
        "FC must be ContinueToSend with block_size=0 and STmin=0"
    );
}

#[test]
fn single_frame_receive_no_fc_sent() {
    let request_id = CanId::new(0x7E0);
    let response_id = CanId::new(0x7E8);
    for len in 1usize..=7 {
        let payload: Vec<u8> = (0..len as u8).map(|b| b.wrapping_mul(37)).collect();
        let mut frame_data = vec![len as u8];
        frame_data.extend_from_slice(&payload);
        while frame_data.len() < 8 {
            frame_data.push(0x55);
        }
        let mut rx = IsoTpReceiver::new(request_id, response_id);
        let frame = CanFrame::new(response_id, frame_data);
        assert!(rx.accepts(&frame));
        let step = rx.on_frame(&frame);
        assert!(step.flow_control.is_none(), "no FC for single-frame");
        match step.outcome {
            RxOutcome::Complete(data) => assert_eq!(data, payload),
            _ => panic!("single frame not completed"),
        }
    }
}

#[test]
fn out_of_sequence_consecutive_frame_fails() {
    let response_id = CanId::new(0x7E8);
    let mut rx = IsoTpReceiver::new(CanId::new(0x7E0), response_id);
    let ff = CanFrame::new(response_id, vec![0x10, 0x0D, 1, 2, 3, 4, 5, 6]);
    assert!(rx.accepts(&ff));
    let _ = rx.on_frame(&ff);
    let cf = CanFrame::new(response_id, vec![0x22, 7, 8, 9, 10, 11, 12, 13]);
    assert!(rx.accepts(&cf));
    match rx.on_frame(&cf).outcome {
        RxOutcome::Failed(e) => {
            assert_eq!(e.to_string(), "Transport error: Sequence mismatch: expected 1, got 2")
        }
        _ => panic!("sequence error not reported"),
    }
}

#[test]
fn error_texts() {
    assert_eq!(Error::link("x").to_string(), "Link layer error: x");
    assert_eq!(Error::Timeout.to_string(), "Timeout waiting for response");
    assert_eq!(Error::unsupported("y").to_string(), "Unsupported operation: y");
}

#[test]
fn live_value_formulas_and_raw_integers() {
    let rpm = PidReading { pid: Pid(0x0C), raw_value: vec![0x1A, 0xF8] };
    assert_eq!(rpm.measure(), Some((Scaling::Rpm, 6904)));
    assert_eq!(Scaling::Rpm.unit(), Some("rpm"));
    let coolant = PidReading { pid: Pid(0x05), raw_value: vec![0x7B] };
    assert_eq!(coolant.measure(), Some((Scaling::Celsius, 0x7B)));
    assert_eq!(Scaling::Celsius.unit(), Some("°C"));
    let lambda = PidReading { pid: Pid(0x44), raw_value: vec![0x80, 0x00, 0x12, 0x34] };
    assert_eq!(lambda.measure(), Some((Scaling::EquivalenceRatio, 0x8000)));
    let short_lambda = PidReading { pid: Pid(0x44), raw_value: vec![0x80, 0x00] };
    assert_eq!(short_lambda.measure(), None);
    let o2 = PidReading { pid: Pid(0x14), raw_value: vec![0x50, 0x80] };
    assert_eq!(o2.measure(), Some((Scaling::OxygenVoltage, 0x50)));
    let short_o2 = PidReading { pid: Pid(0x14), raw_value: vec![0x50] };
    assert_eq!(short_o2.measure(), None);
    let mask = PidReading { pid: Pid(0x13), raw_value: vec![0x03] };
    assert_eq!(mask.measure(), Some((Scaling::SensorMask, 3)));
    assert_eq!(Scaling::SensorMask.unit(), None);
    let unknown = PidReading { pid: Pid(0x01), raw_value: vec![0x00, 0x07] };
    assert_eq!(unknown.measure(), None);
    let empty = PidReading { pid: Pid(0x0D), raw_value: vec![] };
    assert_eq!(empty.measure(), None);
}
