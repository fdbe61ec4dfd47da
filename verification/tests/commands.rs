use faraday::commands::asbuilt::{AsBuiltRead, ReadPhase};
use faraday::commands::diagnostics::dtc_request;
use faraday::commands::live_data::{engine_data_pids, fuel_data_pids, powertrain_data_pids};
use faraday::commands::vehicle_info::{decode_string_did, read_string_did_reply, EcuInfoRead};
use faraday::commands::write_asbuilt::{AsBuiltWrite, WritePhase};
use faraday::commands::{CommandExecutor, FlowAction};
use faraday::protocol::uds::DataIdentifier;
use faraday::{CanBus, DtcKind, Module};

/// The replies of a cooperative ECU to each request these tests send.
fn mock_reply(request: &[u8], block_data: &[u8]) -> Vec<u8> {
    match request[0] {
        0x10 => vec![0x50, request[1], 0x00, 0x19, 0x01, 0xF4],
        0x22 => {
            let mut r = vec![0x62, request[1], request[2]];
            r.extend_from_slice(block_data);
            r
        }
        0x27 if request[1] == 0x01 => vec![0x67, 0x01, 0x00, 0x00, 0x00, 0x00],
        0x27 if request[1] == 0x02 => vec![0x67, 0x02],
        0x2E => vec![0x6E, request[1], request[2]],
        _ => vec![0x7F, request[0], 0x11],
    }
}

struct Trace {
    buses: Vec<CanBus>,
    requests: Vec<Vec<u8>>,
}

fn run_read(module: Module, did: u16, block_data: &[u8], trace: &mut Trace) -> Result<Vec<u8>, String> {
    let (mut flow, mut action) = AsBuiltRead::start(module, did);
    loop {
        action = match action {
            FlowAction::SelectBus(b) => {
                trace.buses.push(b);
                flow.on_bus_selected()
            }
            FlowAction::Send(req) => {
                let reply = mock_reply(&req, block_data);
                trace.requests.push(req);
                flow.on_response(&reply)
            }
            FlowAction::Done(data) => return Ok(data),
            FlowAction::Fail(e) => return Err(e.to_string()),
        };
    }
}

fn run_write(module: Module, did: u16, data: &[u8], trace: &mut Trace) -> Result<(), String> {
    let (mut flow, mut action) = AsBuiltWrite::start(module, did, data);
    loop {
        action = match action {
            FlowAction::SelectBus(b) => {
                trace.buses.push(b);
                flow.on_bus_selected()
            }
            FlowAction::Send(req) => {
                let reply = mock_reply(&req, &[]);
                trace.requests.push(req);
                flow.on_response(&reply)
            }
            FlowAction::Done(_) => return Ok(()),
            FlowAction::Fail(e) => return Err(e.to_string()),
        };
    }
}

#[test]
fn read_asbuilt_block_switches_to_mscan_for_bcm() {
    let raw_data = vec![0x00, 0x00, 0x00, 0x04, 0x03, 0x00, 0x00, 0x00];
    let mut trace = Trace { buses: vec![], requests: vec![] };
    let result = run_read(Module::Bcm, 0x0701, &raw_data, &mut trace).unwrap();
    assert_eq!(result, raw_data);
    assert_eq!(trace.buses[0], CanBus::MsCan);
}

#[test]
fn read_asbuilt_block_uses_hscan_for_pcm() {
    let raw_data = vec![0x00, 0x00, 0x00, 0x00, 0x08, 0x00, 0x00, 0x00];
    let mut trace = Trace { buses: vec![], requests: vec![] };
    let result = run_read(Module::Pcm, 0xE001, &raw_data, &mut trace).unwrap();
    assert_eq!(result, raw_data);
    assert_eq!(trace.buses[0], CanBus::HsCan);
}

#[test]
fn read_asbuilt_block_sends_session_then_read() {
    let mut trace = Trace { buses: vec![], requests: vec![] };
    run_read(Module::Ipc, 0x0102, &[1, 2], &mut trace).unwrap();
    assert_eq!(trace.requests, vec![vec![0x10, 0x03], vec![0x22, 0x01, 0x02]]);
}

#[test]
fn read_asbuilt_block_reports_refused_session() {
    let (mut flow, _) = AsBuiltRead::start(Module::Bcm, 0x0701);
    let _ = flow.on_bus_selected();
    match flow.on_response(&[0x7F, 0x10, 0x22]) {
        FlowAction::Fail(e) => assert_eq!(
            e.to_string(),
            "UDS negative response: service 0x10, code 0x22 (Conditions not correct)"
        ),
        _ => panic!("refused session not reported"),
    }
    assert_eq!(flow.phase, ReadPhase::Finished);
}

#[test]
fn blocks_programming_dids() {
    let mut trace = Trace { buses: vec![], requests: vec![] };
    let result = run_write(Module::Bcm, 0xF101, &[0x01], &mut trace);
    assert!(result.is_err());
    assert!(result.unwrap_err().contains("blocked"));
    assert!(trace.buses.is_empty());
    assert!(trace.requests.is_empty());
}

#[test]
fn programming_did_message() {
    let (flow, action) = AsBuiltWrite::start(Module::Pcm, 0xF0AB, &[0x01]);
    assert_eq!(flow.phase, WritePhase::Finished);
    match action {
        FlowAction::Fail(e) => assert_eq!(
            e.to_string(),
            "Unsupported operation: writing programming DID F0AB is blocked for safety"
        ),
        _ => panic!("programming DID not refused"),
    }
}

#[test]
fn switches_to_mscan_for_bcm() {
    let mut trace = Trace { buses: vec![], requests: vec![] };
    run_write(Module::Bcm, 0x0701, &[0xAB, 0xCD], &mut trace).unwrap();
    assert_eq!(trace.buses[0], CanBus::MsCan);
}

#[test]
fn security_access_precedes_write() {
    let mut trace = Trace { buses: vec![], requests: vec![] };
    run_write(Module::Bcm, 0x0701, &[0x00], &mut trace).unwrap();
    let services: Vec<u8> = trace.requests.iter().map(|r| r[0]).collect();
    let write_pos = services.iter().rposition(|&s| s == 0x2E).unwrap();
    let last_sa_pos = services.iter().rposition(|&s| s == 0x27).unwrap();
    assert!(last_sa_pos < write_pos, "security access must precede write");
}

#[test]
fn write_sends_the_key_of_the_seed() {
    let mut trace = Trace { buses: vec![], requests: vec![] };
    run_write(Module::Bcm, 0x0702, &[0x12, 0x34], &mut trace).unwrap();
    assert_eq!(
        trace.requests,
        vec![
            vec![0x10, 0x03],
            vec![0x27, 0x01],
            vec![0x27, 0x02, 0xB3, 0xCA, 0x40, 0x57],
            vec![0x2E, 0x07, 0x02, 0x12, 0x34],
        ]
    );
}

#[test]
fn write_stops_when_the_key_is_refused() {
    let (mut flow, _) = AsBuiltWrite::start(Module::Bcm, 0x0701, &[0x01]);
    let _ = flow.on_bus_selected();
    let _ = flow.on_response(&[0x50, 0x03]);
    let _ = flow.on_response(&[0x67, 0x01, 1, 2, 3, 4]);
    match flow.on_response(&[0x7F, 0x27, 0x35]) {
        FlowAction::Fail(e) => assert_eq!(
            e.to_string(),
            "UDS negative response: service 0x27, code 0x35 (Invalid key)"
        ),
        _ => panic!("refused key not reported"),
    }
    assert!(!flow.uds.security_access_granted);
}

#[test]
fn write_rejects_a_short_seed() {
    let (mut flow, _) = AsBuiltWrite::start(Module::Bcm, 0x0701, &[0x01]);
    let _ = flow.on_bus_selected();
    let _ = flow.on_response(&[0x50, 0x03]);
    match flow.on_response(&[0x67, 0x01, 1, 2]) {
        FlowAction::Fail(e) => assert_eq!(e.to_string(), "Protocol error: expected 4-byte seed, got 2 bytes"),
        _ => panic!("short seed accepted"),
    }
}

#[test]
fn dtc_requests_by_kind() {
    assert_eq!(dtc_request(DtcKind::Stored), vec![0x03]);
    assert_eq!(dtc_request(DtcKind::Pending), vec![0x07]);
    assert_eq!(dtc_request(DtcKind::Permanent), vec![0x0A]);
}

#[test]
fn live_data_groups() {
    let codes: Vec<u8> = engine_data_pids().iter().map(|p| p.0).collect();
    assert_eq!(codes, vec![0x0C, 0x04, 0x05, 0x0D, 0x11]);
    let codes: Vec<u8> = fuel_data_pids().iter().map(|p| p.0).collect();
    assert_eq!(codes, vec![0x2F, 0x10]);
    let codes: Vec<u8> = powertrain_data_pids().iter().map(|p| p.0).collect();
    assert_eq!(codes, vec![0x5E, 0x61, 0x62, 0x5A, 0x42]);
}

#[test]
fn string_dids_are_decoded() {
    assert_eq!(decode_string_did(b"FORD\0\0".to_vec()).unwrap(), "FORD");
    let e = decode_string_did(vec![0xC3]).unwrap_err();
    assert_eq!(e.to_string(), "Invalid data: Invalid string encoding");
    let did = DataIdentifier(DataIdentifier::ECU_SERIAL_NUMBER);
    let mut reply = vec![0x62, 0xF1, 0x8C];
    reply.extend_from_slice(b"SIM000001");
    assert_eq!(read_string_did_reply(&reply, did).unwrap(), "SIM000001");
    assert!(read_string_did_reply(&[0x7F, 0x22, 0x31], did).is_err());
}

#[test]
fn ecu_info_reads_five_dids_and_tolerates_failures() {
    let (mut flow, first) = EcuInfoRead::start(Module::Pcm);
    assert_eq!(first, vec![0x10, 0x03]);
    let mut next = flow.on_session_reply(&[0x50, 0x03]).unwrap();
    let mut dids = Vec::new();
    loop {
        dids.push(((next[1] as u16) << 8) | next[2] as u16);
        let step = if next[2] == 0x8A {
            flow.on_did_failure()
        } else if next[2] == 0x8B {
            flow.on_did_reply(&[0x7F, 0x22, 0x31])
        } else {
            let mut reply = vec![0x62, next[1], next[2]];
            reply.extend_from_slice(b"X1");
            flow.on_did_reply(&reply)
        };
        match step {
            Some(req) => next = req,
            None => break,
        }
    }
    assert_eq!(dids, vec![0xF194, 0xF191, 0xF18A, 0xF18B, 0xF18C]);
    assert_eq!(flow.info.software_number.as_deref(), Some("X1"));
    assert_eq!(flow.info.hardware_number.as_deref(), Some("X1"));
    assert_eq!(flow.info.supplier_id, None);
    assert_eq!(flow.info.manufacturing_date, None);
    assert_eq!(flow.info.serial_number.as_deref(), Some("X1"));
    assert_eq!(flow.info.module, Module::Pcm);
}

#[test]
fn ecu_info_fails_on_refused_session() {
    let (mut flow, _) = EcuInfoRead::start(Module::Bcm);
    assert!(flow.on_session_reply(&[0x7F, 0x10, 0x12]).is_err());
}

#[test]
fn executor_hands_back_its_transport() {
    let mut executor = CommandExecutor::new(41u32);
    *executor.transport() += 1;
    assert_eq!(*executor.transport(), 42);
}
