//! The simulated ECUs: which requests they answer, with what, and how the answers are
//! framed. Live sensor values and most generated DIDs come from noisy floating-point
//! models outside this module; the integer draws and everything else are decided here.

use vstd::prelude::*;
use rand::Rng;
use crate::transport::isotp::{copy_range, segment, IsoTp};
use crate::types::{CanFrame, CanId, spec_effective_id};

verus! {

/// The response identifier the emulator answers a request identifier with.
pub open spec fn emu_response_id(request: u32) -> u32 {
    if request == 0x7DF || request == 0x7E0 {
        0x7E8
    } else if request == 0x7E1 {
        0x7E9
    } else if request == 0x7E2 {
        0x7EA
    } else if request == 0x7E3 {
        0x7EB
    } else if request == 0x7E4 {
        0x7EC
    } else if request == 0x726 {
        0x72E
    } else if request == 0x720 {
        0x728
    } else if request == 0x7D0 {
        0x7D8
    } else if request == 0x733 {
        0x73B
    } else if request == 0x727 {
        0x72F
    } else if request == 0x703 {
        0x70B
    } else {
        0x7E8
    }
}

/// The identifier the emulator answers a request frame's identifier with.
pub fn response_id_for(request_id: CanId) -> (r: CanId)
    ensures
        r.0 == emu_response_id(spec_effective_id(request_id.0)),
{
    let id = request_id.id();
    let r = if id == 0x7DF || id == 0x7E0 {
        0x7E8
    } else if id == 0x7E1 {
        0x7E9
    } else if id == 0x7E2 {
        0x7EA
    } else if id == 0x7E3 {
        0x7EB
    } else if id == 0x7E4 {
        0x7EC
    } else if id == 0x726 {
        0x72E
    } else if id == 0x720 {
        0x728
    } else if id == 0x7D0 {
        0x7D8
    } else if id == 0x733 {
        0x73B
    } else if id == 0x727 {
        0x72F
    } else if id == 0x703 {
        0x70B
    } else {
        0x7E8
    };
    CanId::new(r)
}

/// The request a frame carries, when it is a single frame with a non-empty payload that
/// fits in the frame; flow-control and other frames carry none.
pub open spec fn single_frame_request(data: Seq<u8>) -> Option<Seq<u8>> {
    if data.len() == 0 || data[0] / 16 != 0 {
        None
    } else {
        let len = data[0] % 16;
        if len > 0 && data.len() > len {
            Some(data.subrange(1, 1 + len))
        } else {
            None
        }
    }
}

/// Extracts the request carried by a received frame.
pub fn frame_request(frame: &CanFrame) -> (r: Option<Vec<u8>>)
    ensures
        match single_frame_request(frame.data@) {
            None => r is None,
            Some(p) => r matches Some(v) && v@ == p,
        },
{
    if frame.data.len() == 0 {
        return None;
    }
    let b0 = frame.data[0];
    let pci = (b0 & 0xF0) >> 4;
    let len = (b0 & 0x0F) as usize;
    assert(pci == b0 / 16 && len == b0 % 16) by (bit_vector)
        requires
            pci == (b0 & 0xF0) >> 4,
            len == (b0 & 0x0F) as usize,
    ;
    if pci == 3 {
        return None;
    }
    if pci == 0 && len > 0 && frame.data.len() > len {
        Some(copy_range(frame.data.as_slice(), 1, 1 + len))
    } else {
        None
    }
}

/// The simulated modules, by the request identifiers they listen on.
#[derive(Clone, Copy, Debug, PartialEq, Eq, Structural)]
pub enum EmuModule {
    Pcm,
    Tcm,
    Abs,
    Rcm,
    Bcm,
    Ipc,
    Apim,
    Pam,
    Hvac,
    Other,
}

/// The simulated module a request identifier addresses.
pub open spec fn emu_module(request: u32) -> EmuModule {
    if request == 0x7DF || request == 0x7E0 {
        EmuModule::Pcm
    } else if request == 0x7E1 {
        EmuModule::Tcm
    } else if request == 0x7E2 {
        EmuModule::Abs
    } else if request == 0x7E3 {
        EmuModule::Rcm
    } else if request == 0x726 {
        EmuModule::Bcm
    } else if request == 0x720 {
        EmuModule::Ipc
    } else if request == 0x7D0 {
        EmuModule::Apim
    } else if request == 0x733 {
        EmuModule::Pam
    } else if request == 0x703 {
        EmuModule::Hvac
    } else {
        EmuModule::Other
    }
}

/// The simulated module a request identifier addresses.
pub fn module_for(request: u32) -> (r: EmuModule)
    ensures
        r == emu_module(request),
{
    if request == 0x7DF || request == 0x7E0 {
        EmuModule::Pcm
    } else if request == 0x7E1 {
        EmuModule::Tcm
    } else if request == 0x7E2 {
        EmuModule::Abs
    } else if request == 0x7E3 {
        EmuModule::Rcm
    } else if request == 0x726 {
        EmuModule::Bcm
    } else if request == 0x720 {
        EmuModule::Ipc
    } else if request == 0x7D0 {
        EmuModule::Apim
    } else if request == 0x733 {
        EmuModule::Pam
    } else if request == 0x703 {
        EmuModule::Hvac
    } else {
        EmuModule::Other
    }
}

/// The VIN of the simulated vehicle.
pub open spec fn emu_vin() -> Seq<u8> {
    seq![
        0x31u8, 0x46u8, 0x41u8, 0x36u8, 0x50u8, 0x38u8, 0x54u8, 0x48u8, 0x35u8, 0x48u8, 0x35u8,
        0x31u8, 0x32u8, 0x33u8, 0x34u8, 0x35u8, 0x36u8,
    ]
}

fn ascii_bytes(s: &str) -> (r: Vec<u8>)
    requires
        forall|i: int| 0 <= i < s@.len() ==> (s@[i] as u32) < 128,
    ensures
        r@.len() == s@.len(),
        forall|i: int| 0 <= i < s@.len() ==> r@[i] == (s@[i] as u32) as u8,
{
    let cs = crate::text::chars_of(s);
    let mut r: Vec<u8> = Vec::new();
    let mut i: usize = 0;
    while i < cs.len()
        invariant
            cs@ == s@,
            i <= cs@.len(),
            r@.len() == i,
            forall|j: int| 0 <= j < s@.len() ==> (s@[j] as u32) < 128,
            forall|j: int| 0 <= j < i ==> r@[j] == (s@[j] as u32) as u8,
        decreases cs@.len() - i,
    {
        r.push(cs[i] as u32 as u8);
        i = i + 1;
    }
    r
}

/// Where the data of a simulated DID comes from.
#[derive(Debug)]
pub enum DidSource {
    /// A fixed value.
    Fixed(Vec<u8>),
    /// A value generated from a noisy sensor model.
    Generated,
}

/// The DIDs of the simulated modules whose values are generated.
pub open spec fn is_generated_did(m: EmuModule, did: u16) -> bool {
    match m {
        EmuModule::Pcm => did == 0x1901,
        EmuModule::Tcm => did == 0xDD01 || did == 0xDD03,
        EmuModule::Abs => did == 0xC001 || did == 0xC002,
        EmuModule::Bcm => did == 0x4001 || did == 0x4002,
        EmuModule::Apim => did == 0xA001 || did == 0xA002,
        EmuModule::Pam => did == 0xE001,
        EmuModule::Hvac => did == 0xB001 || did == 0xB002,
        _ => false,
    }
}

/// The fixed data of a simulated DID (four zero bytes when the DID is unknown).
pub open spec fn fixed_did_data(m: EmuModule, did: u16) -> Seq<u8> {
    let zeros = seq![0u8, 0u8, 0u8, 0u8];
    match m {
        EmuModule::Pcm => if did == 0xF190 {
            emu_vin()
        } else if did == 0xE001 {
            seq![0u8, 0u8, 0u8, 0u8, 0x08u8, 0u8, 0u8, 0u8]
        } else if did == 0x1900 {
            seq![75u8]
        } else if did == 0xF101 {
            seq![0x01u8]
        } else if did == 0xF191 || did == 0xF194 || did == 0xF18A || did == 0xF18B || did
            == 0xF18C {
            pcm_identification(did)
        } else {
            zeros
        },
        EmuModule::Tcm => if did == 0xDD02 {
            seq![0u8, 0u8]
        } else if did == 0xF101 {
            seq![0x01u8]
        } else {
            zeros
        },
        EmuModule::Abs => if did == 0xF101 {
            seq![0x01u8]
        } else {
            zeros
        },
        EmuModule::Rcm => if did == 0xD001 {
            seq![0xFFu8]
        } else if did == 0xD002 || did == 0xF101 {
            seq![0x01u8]
        } else {
            zeros
        },
        EmuModule::Bcm => if did == 0x0201 {
            seq![0x23u8, 0x23u8]
        } else if did == 0x0701 {
            seq![0u8, 0u8, 0u8, 0x04u8, 0x03u8, 0u8, 0u8, 0u8]
        } else if did == 0x0702 {
            seq![0u8, 0x08u8, 0x01u8, 0u8, 0u8, 0x02u8, 0u8, 0u8]
        } else if did == 0x4010 {
            seq![0u8]
        } else if did == 0xF101 {
            seq![0x01u8]
        } else {
            zeros
        },
        EmuModule::Ipc => if did == 0x0101 {
            seq![0u8, 0u8, 0x02u8, 0u8, 0u8, 0u8, 0u8, 0u8]
        } else if did == 0x0102 {
            seq![0x80u8, 0u8, 0x05u8, 0u8, 0u8, 0u8, 0u8, 0u8]
        } else if did == 0x0401 {
            seq![0x08u8]
        } else if did == 0xF101 {
            seq![0x01u8]
        } else {
            zeros
        },
        EmuModule::Apim => if did == 0xA010 {
            seq![0x33u8, 0x2Eu8, 0x34u8, 0x2Eu8, 0x31u8, 0x39u8, 0x32u8, 0x30u8, 0x30u8, 0u8]
        } else if did == 0xF101 {
            seq![0x01u8]
        } else {
            zeros
        },
        EmuModule::Pam => if did == 0xF101 {
            seq![0x01u8]
        } else {
            zeros
        },
        EmuModule::Hvac => if did == 0xF101 {
            seq![0x01u8]
        } else {
            zeros
        },
        EmuModule::Other => zeros,
    }
}

/// The identification strings of the simulated PCM, as ASCII bytes.
pub open spec fn pcm_identification(did: u16) -> Seq<u8> {
    if did == 0xF191 {
        "HU5T-14G370-AA"@.map_values(|c: char| (c as u32) as u8)
    } else if did == 0xF194 {
        "HU5T-14G370-AAB"@.map_values(|c: char| (c as u32) as u8)
    } else if did == 0xF18A {
        "FORD"@.map_values(|c: char| (c as u32) as u8)
    } else if did == 0xF18B {
        "170101"@.map_values(|c: char| (c as u32) as u8)
    } else {
        "SIM000001"@.map_values(|c: char| (c as u32) as u8)
    }
}

fn ascii_literal(s: &str) -> (r: Vec<u8>)
    requires
        forall|i: int| 0 <= i < s@.len() ==> (s@[i] as u32) < 128,
    ensures
        r@ == s@.map_values(|c: char| (c as u32) as u8),
{
    let r = ascii_bytes(s);
    proof {
        assert(r@ =~= s@.map_values(|c: char| (c as u32) as u8));
    }
    r
}

/// The data source of a DID of a simulated module.
pub fn did_source(m: EmuModule, did: u16) -> (r: DidSource)
    ensures
        is_generated_did(m, did) ==> r is Generated,
        !is_generated_did(m, did) ==> (r matches DidSource::Fixed(d) && d@ == fixed_did_data(
            m,
            did,
        )),
{
    let zeros = vec![0u8, 0, 0, 0];
    match m {
        EmuModule::Pcm => {
            if did == 0x1901 {
                DidSource::Generated
            } else if did == 0xF190 {
                let v = vec![
                    0x31u8, 0x46, 0x41, 0x36, 0x50, 0x38, 0x54, 0x48, 0x35, 0x48, 0x35, 0x31,
                    0x32, 0x33, 0x34, 0x35, 0x36,
                ];
                proof {
                    assert(v@ =~= emu_vin());
                }
                DidSource::Fixed(v)
            } else if did == 0xE001 {
                DidSource::Fixed(vec![0u8, 0, 0, 0, 0x08, 0, 0, 0])
            } else if did == 0x1900 {
                DidSource::Fixed(vec![75u8])
            } else if did == 0xF101 {
                DidSource::Fixed(vec![0x01u8])
            } else if did == 0xF191 {
                proof {
                    reveal_strlit("HU5T-14G370-AA");
                }
                DidSource::Fixed(ascii_literal("HU5T-14G370-AA"))
            } else if did == 0xF194 {
                proof {
                    reveal_strlit("HU5T-14G370-AAB");
                }
                DidSource::Fixed(ascii_literal("HU5T-14G370-AAB"))
            } else if did == 0xF18A {
                proof {
                    reveal_strlit("FORD");
                }
                DidSource::Fixed(ascii_literal("FORD"))
            } else if did == 0xF18B {
                proof {
                    reveal_strlit("170101");
                }
                DidSource::Fixed(ascii_literal("170101"))
            } else if did == 0xF18C {
                proof {
                    reveal_strlit("SIM000001");
                }
                DidSource::Fixed(ascii_literal("SIM000001"))
            } else {
                DidSource::Fixed(zeros)
            }
        },
        EmuModule::Tcm => {
            if did == 0xDD01 || did == 0xDD03 {
                DidSource::Generated
            } else if did == 0xDD02 {
                DidSource::Fixed(vec![0u8, 0])
            } else if did == 0xF101 {
                DidSource::Fixed(vec![0x01u8])
            } else {
                DidSource::Fixed(zeros)
            }
        },
        EmuModule::Abs => {
            if did == 0xC001 || did == 0xC002 {
                DidSource::Generated
            } else if did == 0xF101 {
                DidSource::Fixed(vec![0x01u8])
            } else {
                DidSource::Fixed(zeros)
            }
        },
        EmuModule::Rcm => {
            if did == 0xD001 {
                DidSource::Fixed(vec![0xFFu8])
            } else if did == 0xD002 || did == 0xF101 {
                DidSource::Fixed(vec![0x01u8])
            } else {
                DidSource::Fixed(zeros)
            }
        },
        EmuModule::Bcm => {
            if did == 0x4001 || did == 0x4002 {
                DidSource::Generated
            } else if did == 0x0201 {
                DidSource::Fixed(vec![0x23u8, 0x23])
            } else if did == 0x0701 {
                DidSource::Fixed(vec![0u8, 0, 0, 0x04, 0x03, 0, 0, 0])
            } else if did == 0x0702 {
                DidSource::Fixed(vec![0u8, 0x08, 0x01, 0, 0, 0x02, 0, 0])
            } else if did == 0x4010 {
                DidSource::Fixed(vec![0u8])
            } else if did == 0xF101 {
                DidSource::Fixed(vec![0x01u8])
            } else {
                DidSource::Fixed(zeros)
            }
        },
        EmuModule::Ipc => {
            if did == 0x0101 {
                DidSource::Fixed(vec![0u8, 0, 0x02, 0, 0, 0, 0, 0])
            } else if did == 0x0102 {
                DidSource::Fixed(vec![0x80u8, 0, 0x05, 0, 0, 0, 0, 0])
            } else if did == 0x0401 {
                DidSource::Fixed(vec![0x08u8])
            } else if did == 0xF101 {
                DidSource::Fixed(vec![0x01u8])
            } else {
                DidSource::Fixed(zeros)
            }
        },
        EmuModule::Apim => {
            if did == 0xA001 || did == 0xA002 {
                DidSource::Generated
            } else if did == 0xA010 {
                DidSource::Fixed(vec![0x33u8, 0x2E, 0x34, 0x2E, 0x31, 0x39, 0x32, 0x30, 0x30, 0])
            } else if did == 0xF101 {
                DidSource::Fixed(vec![0x01u8])
            } else {
                DidSource::Fixed(zeros)
            }
        },
        EmuModule::Pam => {
            if did == 0xE001 {
                DidSource::Generated
            } else if did == 0xF101 {
                DidSource::Fixed(vec![0x01u8])
            } else {
                DidSource::Fixed(zeros)
            }
        },
        EmuModule::Hvac => {
            if did == 0xB001 || did == 0xB002 {
                DidSource::Generated
            } else if did == 0xF101 {
                DidSource::Fixed(vec![0x01u8])
            } else {
                DidSource::Fixed(zeros)
            }
        },
        EmuModule::Other => DidSource::Fixed(zeros),
    }
}

/// How the emulator answers a request payload.
#[derive(Debug)]
pub enum ResponsePlan {
    /// No answer.
    Silent,
    /// This fixed reply.
    Reply(Vec<u8>),
    /// A Mode 01 reply for these PIDs: each PID followed by its generated value bytes.
    LiveData(Vec<u8>),
    /// A ReadDataByIdentifier reply (`0x62`, the DID's two bytes, its data) for this DID of
    /// this module.
    ReadDid { module: EmuModule, did_high: u8, did_low: u8 },
}

/// The fixed reply to a payload, if the payload has one.
pub open spec fn fixed_reply(payload: Seq<u8>) -> Option<Seq<u8>> {
    let s = payload[0];
    if s == 0x03 {
        Some(seq![0x43u8, 0x00u8])
    } else if s == 0x04 {
        Some(seq![0x44u8])
    } else if s == 0x07 {
        Some(seq![0x47u8, 0x00u8])
    } else if s == 0x09 && payload.len() >= 2 && payload[1] == 0x02 {
        Some(seq![0x49u8, 0x02u8, 0x01u8] + emu_vin())
    } else if s == 0x0A {
        Some(seq![0x4Au8, 0x00u8])
    } else if s == 0x10 && payload.len() >= 2 {
        Some(seq![0x50u8, payload[1], 0x00u8, 0x19u8, 0x01u8, 0xF4u8])
    } else if s == 0x3E {
        Some(seq![0x7Eu8, 0x00u8])
    } else {
        None
    }
}

/// `r` is the plan for answering `payload` sent to `request_id`.
pub open spec fn is_plan_for(request_id: u32, payload: Seq<u8>, r: ResponsePlan) -> bool {
    if payload.len() == 0 {
        r is Silent
    } else if payload[0] == 0x01 {
        r matches ResponsePlan::LiveData(p) && p@ == payload.skip(1)
    } else if payload[0] == 0x22 && payload.len() >= 3 {
        r matches ResponsePlan::ReadDid { module, did_high, did_low } && module == emu_module(
            request_id,
        ) && did_high == payload[1] && did_low == payload[2]
    } else {
        match fixed_reply(payload) {
            Some(reply) => r matches ResponsePlan::Reply(v) && v@ == reply,
            None => r is Silent,
        }
    }
}

/// Decides how to answer `payload` sent to `request_id`.
pub fn plan_response(request_id: u32, payload: &[u8]) -> (r: ResponsePlan)
    ensures
        is_plan_for(request_id, payload@, r),
{
    if payload.len() == 0 {
        return ResponsePlan::Silent;
    }
    let s = payload[0];
    if s == 0x01 {
        let pids = copy_range(payload, 1, payload.len());
        proof {
            assert(pids@ =~= payload@.skip(1));
        }
        return ResponsePlan::LiveData(pids);
    }
    if s == 0x22 && payload.len() >= 3 {
        return ResponsePlan::ReadDid {
            module: module_for(request_id),
            did_high: payload[1],
            did_low: payload[2],
        };
    }
    let reply: Option<Vec<u8>> = if s == 0x03 {
        Some(vec![0x43, 0x00])
    } else if s == 0x04 {
        Some(vec![0x44])
    } else if s == 0x07 {
        Some(vec![0x47, 0x00])
    } else if s == 0x09 && payload.len() >= 2 && payload[1] == 0x02 {
        Some(
            vec![
                0x49u8, 0x02, 0x01, 0x31, 0x46, 0x41, 0x36, 0x50, 0x38, 0x54, 0x48, 0x35, 0x48,
                0x35, 0x31, 0x32, 0x33, 0x34, 0x35, 0x36,
            ],
        )
    } else if s == 0x0A {
        Some(vec![0x4A, 0x00])
    } else if s == 0x10 && payload.len() >= 2 {
        Some(vec![0x50, payload[1], 0x00, 0x19, 0x01, 0xF4])
    } else if s == 0x3E {
        Some(vec![0x7E, 0x00])
    } else {
        None
    };
    match reply {
        Some(v) => {
            proof {
                assert(v@ =~= fixed_reply(payload@).unwrap());
            }
            ResponsePlan::Reply(v)
        },
        None => ResponsePlan::Silent,
    }
}

/// The Mode 01 reply body for PIDs `pids[i..]` whose value bytes are `values[i..]`.
pub open spec fn live_body(pids: Seq<u8>, values: Seq<Seq<u8>>, i: int) -> Seq<u8>
    decreases pids.len() - i,
{
    if i < 0 || i >= pids.len() {
        seq![]
    } else {
        seq![pids[i]] + values[i] + live_body(pids, values, i + 1)
    }
}

/// Assembles the Mode 01 reply: `0x41`, then each PID followed by its value bytes.
pub fn assemble_live_data(pids: &[u8], values: &Vec<Vec<u8>>) -> (r: Vec<u8>)
    requires
        pids@.len() == values@.len(),
    ensures
        r@ == seq![0x41u8] + live_body(pids@, values@.map_values(|v: Vec<u8>| v@), 0),
{
    let ghost vs = values@.map_values(|v: Vec<u8>| v@);
    let mut r: Vec<u8> = vec![0x41];
    let mut i: usize = 0;
    proof {
        assert(seq![0x41u8] + live_body(pids@, vs, 0) =~= r@ + live_body(pids@, vs, 0));
    }
    while i < pids.len()
        invariant
            pids@.len() == values@.len(),
            vs == values@.map_values(|v: Vec<u8>| v@),
            i <= pids@.len(),
            r@ + live_body(pids@, vs, i as int) == seq![0x41u8] + live_body(pids@, vs, 0),
        decreases pids@.len() - i,
    {
        let ghost before = r@;
        r.push(pids[i]);
        let v = &values[i];
        let mut k: usize = 0;
        while k < v.len()
            invariant
                k <= v@.len(),
                r@ == before.push(pids@[i as int]) + v@.take(k as int),
            decreases v@.len() - k,
        {
            r.push(v[k]);
            k = k + 1;
            proof {
                assert(v@.take(k as int) =~= v@.take(k - 1).push(v@[k - 1]));
            }
        }
        proof {
            assert(v@.take(v@.len() as int) =~= v@);
            assert(vs[i as int] == v@);
            assert(before + live_body(pids@, vs, i as int) =~= r@ + live_body(
                pids@,
                vs,
                i + 1,
            ));
        }
        i = i + 1;
    }
    proof {
        assert(r@ + live_body(pids@, vs, i as int) =~= r@);
    }
    r
}

/// Assembles the ReadDataByIdentifier reply: `0x62`, the DID's two bytes, the data.
pub fn assemble_did_reply(did_high: u8, did_low: u8, data: &[u8]) -> (r: Vec<u8>)
    ensures
        r@ == seq![0x62u8, did_high, did_low] + data@,
{
    let mut r: Vec<u8> = vec![0x62, did_high, did_low];
    let mut k: usize = 0;
    while k < data.len()
        invariant
            k <= data@.len(),
            r@ == seq![0x62u8, did_high, did_low] + data@.take(k as int),
        decreases data@.len() - k,
    {
        r.push(data[k]);
        k = k + 1;
        proof {
            assert(data@.take(k as int) =~= data@.take(k - 1).push(data@[k - 1]));
        }
    }
    proof {
        assert(data@.take(data@.len() as int) =~= data@);
    }
    r
}

/// The frames that carry a reply to `response_id`: the same segmentation as the ISO-TP
/// transport uses.
pub fn reply_frames(response_id: CanId, data: &[u8]) -> (r: Vec<CanFrame>)
    ensures
        r@.len() == segment(data@).len(),
        forall|i: int|
            0 <= i < r@.len() ==> (#[trigger] r@[i]).id == response_id && r@[i].data@
                == segment(data@)[i],
{
    let tp = IsoTp::new(0u8);
    tp.frames_for(response_id, data)
}

/// The emulator's random number generator, from the `rand` crate.
#[verifier::external_type_specification]
#[verifier::external_body]
pub struct ExSmallRng(rand::rngs::SmallRng);

/// Draws a number between `lo` and `hi`, both included.
///
/// Calls `Rng::gen_range` with the inclusive range `lo..=hi`, which the `rand` crate
/// documents as sampling a value within the range (and panicking on an empty one, which
/// `requires` excludes). Which value comes out is left to chance: only the bounds are
/// stated.
#[verifier::external_body]
fn draw_between(rng: &mut rand::rngs::SmallRng, lo: u16, hi: u16) -> (r: u16)
    requires
        lo <= hi,
    ensures
        lo <= r <= hi,
{
    rng.gen_range(lo..=hi)
}

/// The big-endian bytes of a sequence of 16-bit words, high byte first.
pub open spec fn be_words(words: Seq<u16>) -> Seq<u8> {
    Seq::new(
        2 * words.len(),
        |i: int|
            if i % 2 == 0 {
                (words[i / 2] / 256) as u8
            } else {
                (words[i / 2] % 256) as u8
            },
    )
}

/// Encodes 16-bit words as big-endian bytes.
pub fn word_bytes(words: &[u16]) -> (r: Vec<u8>)
    ensures
        r@ == be_words(words@),
{
    let mut r: Vec<u8> = Vec::new();
    let mut i: usize = 0;
    while i < words.len()
        invariant
            i <= words@.len(),
            r@ == be_words(words@.take(i as int)),
        decreases words@.len() - i,
    {
        let w = words[i];
        r.push((w / 256) as u8);
        r.push((w % 256) as u8);
        proof {
            assert(r@ =~= be_words(words@.take(i as int + 1)));
        }
        i = i + 1;
    }
    proof {
        assert(words@.take(words@.len() as int) =~= words@);
    }
    r
}

/// The parking-aid sensor DID: eight distances between 200 and 500 (millimetres), drawn at
/// random, as big-endian words.
pub fn parking_sensor_data(rng: &mut rand::rngs::SmallRng) -> (r: Vec<u8>)
    ensures
        exists|d: Seq<u16>|
            d.len() == 8 && (forall|i: int| 0 <= i < 8 ==> 200 <= #[trigger] d[i] <= 500) && r@
                == be_words(d),
{
    let mut d: Vec<u16> = Vec::new();
    let mut k: usize = 0;
    while k < 8
        invariant
            k <= 8,
            d@.len() == k,
            forall|i: int| 0 <= i < k ==> 200 <= #[trigger] d@[i] <= 500,
        decreases 8 - k,
    {
        let dist = draw_between(rng, 200, 500);
        d.push(dist);
        k = k + 1;
    }
    let r = word_bytes(d.as_slice());
    proof {
        assert(d@.len() == 8 && (forall|i: int| 0 <= i < 8 ==> 200 <= #[trigger] d@[i] <= 500)
            && r@ == be_words(d@));
    }
    r
}

/// The GPS status DID of the infotainment module: a fix flag of 1 and a satellite count
/// between 8 and 12 drawn at random.
pub fn gps_status_data(rng: &mut rand::rngs::SmallRng) -> (r: Vec<u8>)
    ensures
        r@.len() == 2,
        r@[0] == 0x01,
        8 <= r@[1] <= 12,
{
    let sats = draw_between(rng, 8, 12);
    vec![0x01, sats as u8]
}

/// The emulator's queue of response frames, oldest first.
pub struct FrameQueue {
    frames: Vec<CanFrame>,
}

impl FrameQueue {
    /// The queued frames, oldest first.
    pub closed spec fn contents(&self) -> Seq<CanFrame> {
        self.frames@
    }

    pub fn new() -> (r: FrameQueue)
        ensures
            r.contents().len() == 0,
    {
        FrameQueue { frames: Vec::new() }
    }

    /// Appends frames at the back, in order.
    pub fn push_all(&mut self, frames: Vec<CanFrame>)
        ensures
            final(self).contents() == old(self).contents() + frames@,
    {
        let mut frames = frames;
        self.frames.append(&mut frames);
    }

    /// Takes the oldest frame, if any.
    pub fn pop_front(&mut self) -> (r: Option<CanFrame>)
        ensures
            old(self).contents().len() == 0 ==> r is None && final(self).contents()
                == old(self).contents(),
            old(self).contents().len() > 0 ==> r == Some(old(self).contents()[0])
                && final(self).contents() == old(self).contents().drop_first(),
    {
        if self.frames.len() == 0 {
            return None;
        }
        let f = self.frames.remove(0);
        proof {
            assert(self.frames@ =~= old(self).frames@.drop_first());
        }
        Some(f)
    }
}

} // verus!
