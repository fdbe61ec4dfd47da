//! An in-process simulated ECU for exercising the transport without hardware: it answers
//! OBD-II and UDS requests with fixed values, framed as ISO-TP replies.

use vstd::prelude::*;
use crate::emu::ecu::{
    emu_vin, fixed_reply, frame_request, pcm_identification, reply_frames, single_frame_request,
    FrameQueue,
};
use crate::error::{Error, is_link_error};
use crate::transport::isotp::{copy_range, segment};
use crate::types::{spec_effective_id, CanBus, CanFrame, CanId};

verus! {

/// The response identifier the simulated ECU answers a request identifier with.
pub open spec fn sim_response_id(request: u32) -> u32 {
    if request == 0x7DF || request == 0x7E0 {
        0x7E8
    } else if request == 0x7E1 {
        0x7E9
    } else if request == 0x7E2 {
        0x7EA
    } else if request == 0x7E3 {
        0x7EB
    } else if request == 0x7E4 {
        0x7EC
    } else if request == 0x726 {
        0x72E
    } else if request == 0x720 {
        0x728
    } else if request == 0x7D0 {
        0x7D8
    } else if request == 0x733 {
        0x73B
    } else if request == 0x727 {
        0x72F
    } else {
        0x7E8
    }
}

/// The fixed value bytes the simulated ECU reports for a PID.
pub open spec fn sim_pid_bytes(pid: u8) -> Seq<u8> {
    if pid == 0x04 {
        seq![0x5Au8]
    } else if pid == 0x05 {
        seq![0x69u8]
    } else if pid == 0x0C {
        seq![0x0Cu8, 0x80u8]
    } else if pid == 0x0D {
        seq![0x00u8]
    } else if pid == 0x0F {
        seq![0x45u8]
    } else if pid == 0x10 {
        seq![0x00u8, 0x1Eu8]
    } else if pid == 0x11 {
        seq![0x00u8]
    } else if pid == 0x2F {
        seq![0xB3u8]
    } else if pid == 0x42 {
        seq![0x37u8, 0xB8u8]
    } else if pid == 0x46 {
        seq![0x37u8]
    } else if pid == 0x5C {
        seq![0x69u8]
    } else {
        seq![0x00u8]
    }
}

/// The Mode 01 reply body for `pids[i..]`: each PID followed by its fixed value.
pub open spec fn sim_live_body(pids: Seq<u8>, i: int) -> Seq<u8>
    decreases pids.len() - i,
{
    if i < 0 || i >= pids.len() {
        seq![]
    } else {
        seq![pids[i]] + sim_pid_bytes(pids[i]) + sim_live_body(pids, i + 1)
    }
}

/// The data of a DID of the simulated ECU (four zero bytes when unknown).
pub open spec fn sim_did_data(did: u16) -> Seq<u8> {
    if did == 0xF190 {
        emu_vin()
    } else if did == 0xF191 || did == 0xF194 || did == 0xF18A || did == 0xF18B || did == 0xF18C {
        pcm_identification(did)
    } else {
        seq![0u8, 0u8, 0u8, 0u8]
    }
}

/// The simulated ECU's answer to a request payload, if it answers.
pub open spec fn sim_reply(payload: Seq<u8>) -> Option<Seq<u8>> {
    if payload.len() == 0 {
        None
    } else if payload[0] == 0x01 {
        Some(seq![0x41u8] + sim_live_body(payload.skip(1), 0))
    } else if payload[0] == 0x22 && payload.len() >= 3 {
        Some(
            seq![0x62u8, payload[1], payload[2]] + sim_did_data(
                (payload[1] as int * 256 + payload[2] as int) as u16,
            ),
        )
    } else {
        fixed_reply(payload)
    }
}

fn pid_value(pid: u8) -> (r: Vec<u8>)
    ensures
        r@ == sim_pid_bytes(pid),
{
    if pid == 0x04 {
        vec![0x5A]
    } else if pid == 0x05 {
        vec![0x69]
    } else if pid == 0x0C {
        vec![0x0C, 0x80]
    } else if pid == 0x0D {
        vec![0x00]
    } else if pid == 0x0F {
        vec![0x45]
    } else if pid == 0x10 {
        vec![0x00, 0x1E]
    } else if pid == 0x11 {
        vec![0x00]
    } else if pid == 0x2F {
        vec![0xB3]
    } else if pid == 0x42 {
        vec![0x37, 0xB8]
    } else if pid == 0x46 {
        vec![0x37]
    } else if pid == 0x5C {
        vec![0x69]
    } else {
        vec![0x00]
    }
}

fn append(v: &mut Vec<u8>, data: &Vec<u8>)
    ensures
        final(v)@ == old(v)@ + data@,
{
    let ghost start = v@;
    let mut k: usize = 0;
    while k < data.len()
        invariant
            k <= data@.len(),
            v@ == start + data@.take(k as int),
        decreases data@.len() - k,
    {
        v.push(data[k]);
        k = k + 1;
        proof {
            assert(data@.take(k as int) =~= data@.take(k - 1).push(data@[k - 1]));
        }
    }
    proof {
        assert(data@.take(data@.len() as int) =~= data@);
    }
}

/// Answers a request payload, if the simulated ECU answers it.
pub fn generate_response(payload: &[u8]) -> (r: Option<Vec<u8>>)
    ensures
        match sim_reply(payload@) {
            None => r is None,
            Some(reply) => r matches Some(v) && v@ == reply,
        },
{
    if payload.len() == 0 {
        return None;
    }
    if payload[0] == 0x01 {
        let ghost pids = payload@.skip(1);
        let mut resp: Vec<u8> = vec![0x41];
        let mut i: usize = 1;
        proof {
            assert(payload@.skip(1) =~= pids);
        }
        while i < payload.len()
            invariant
                1 <= i <= payload@.len(),
                pids == payload@.skip(1),
                resp@ + sim_live_body(pids, i - 1) == seq![0x41u8] + sim_live_body(pids, 0),
            decreases payload@.len() - i,
        {
            let ghost before = resp@;
            let pid = payload[i];
            resp.push(pid);
            let bytes = pid_value(pid);
            append(&mut resp, &bytes);
            proof {
                assert(pids[i - 1] == pid);
                assert(before + sim_live_body(pids, i - 1) =~= resp@ + sim_live_body(pids, i as int));
            }
            i = i + 1;
        }
        proof {
            assert(resp@ + sim_live_body(pids, i - 1) =~= resp@);
        }
        return Some(resp);
    }
    if payload[0] == 0x22 && payload.len() >= 3 {
        let hi = payload[1];
        let lo = payload[2];
        let did: u16 = ((hi as u16) << 8) | lo as u16;
        assert(did == hi * 256 + lo) by (bit_vector)
            requires
                did == ((hi as u16) << 8) | lo as u16,
        ;
        let mut resp: Vec<u8> = vec![0x62, hi, lo];
        // The identification strings are those of the emulator's PCM.
        let data = match crate::emu::ecu::did_source(crate::emu::ecu::EmuModule::Pcm, did) {
            crate::emu::ecu::DidSource::Fixed(d) => {
                if did == 0xF190 || did == 0xF191 || did == 0xF194 || did == 0xF18A || did
                    == 0xF18B || did == 0xF18C {
                    d
                } else {
                    vec![0u8, 0, 0, 0]
                }
            },
            crate::emu::ecu::DidSource::Generated => vec![0u8, 0, 0, 0],
        };
        append(&mut resp, &data);
        proof {
            assert(resp@ =~= seq![0x62u8, hi, lo] + sim_did_data(did));
        }
        return Some(resp);
    }
    match crate::emu::ecu::plan_response(0x7E0, payload) {
        crate::emu::ecu::ResponsePlan::Reply(v) => Some(v),
        _ => None,
    }
}

/// The identifier the simulated ECU answers a request frame's identifier with.
pub fn response_id_for(request_id: CanId) -> (r: CanId)
    ensures
        r.0 == sim_response_id(spec_effective_id(request_id.0)),
{
    let id = request_id.id();
    let r = if id == 0x7DF || id == 0x7E0 {
        0x7E8
    } else if id == 0x7E1 {
        0x7E9
    } else if id == 0x7E2 {
        0x7EA
    } else if id == 0x7E3 {
        0x7EB
    } else if id == 0x7E4 {
        0x7EC
    } else if id == 0x726 {
        0x72E
    } else if id == 0x720 {
        0x728
    } else if id == 0x7D0 {
        0x7D8
    } else if id == 0x733 {
        0x73B
    } else if id == 0x727 {
        0x72F
    } else {
        0x7E8
    };
    CanId::new(r)
}

/// `after` is `before` followed by frames to `id` carrying `payloads`, in order.
pub open spec fn queued_after(
    before: Seq<CanFrame>,
    after: Seq<CanFrame>,
    id: u32,
    payloads: Seq<Seq<u8>>,
) -> bool {
    &&& after.len() == before.len() + payloads.len()
    &&& after.take(before.len() as int) == before
    &&& forall|k: int|
        0 <= k < payloads.len() ==> (#[trigger] after[before.len() + k]).data@ == payloads[k]
            && after[before.len() + k].id.0 == id
}

/// A simulated ECU with its queue of pending reply frames.
pub struct SimulatedEcu {
    response_queue: FrameQueue,
}

impl SimulatedEcu {
    /// The pending reply frames, oldest first.
    pub closed spec fn pending(&self) -> Seq<CanFrame> {
        self.response_queue.contents()
    }

    pub fn new() -> (r: SimulatedEcu)
        ensures
            r.pending().len() == 0,
    {
        SimulatedEcu { response_queue: FrameQueue::new() }
    }

    /// Takes a transmitted frame: a single-frame request is answered by queueing the reply's
    /// frames; flow-control and other frames are absorbed.
    pub fn send_frame(&mut self, frame: &CanFrame) -> (r: Result<(), Error>)
        ensures
            r is Ok,
            match single_frame_request(frame.data@) {
                None => final(self).pending() == old(self).pending(),
                Some(p) => match sim_reply(p) {
                    None => final(self).pending() == old(self).pending(),
                    Some(reply) => queued_after(
                        old(self).pending(),
                        final(self).pending(),
                        sim_response_id(spec_effective_id(frame.id.0)),
                        segment(reply),
                    ),
                },
            },
    {
        let ghost before = self.response_queue.contents();
        if let Some(payload) = frame_request(frame) {
            if let Some(response) = generate_response(payload.as_slice()) {
                let resp_id = response_id_for(frame.id);
                let frames = reply_frames(resp_id, response.as_slice());
                self.response_queue.push_all(frames);
                proof {
                    assert(self.response_queue.contents().take(before.len() as int) =~= before);
                }
            }
        }
        Ok(())
    }

    /// Hands out the oldest pending reply frame.
    pub fn receive_frame(&mut self) -> (r: Result<CanFrame, Error>)
        ensures
            old(self).pending().len() == 0 ==> (r matches Err(e) && is_link_error(
                e,
                "no simulated response available"@,
            )) && final(self).pending() == old(self).pending(),
            old(self).pending().len() > 0 ==> r == Ok::<CanFrame, Error>(old(self).pending()[0])
                && final(self).pending() == old(self).pending().drop_first(),
    {
        match self.response_queue.pop_front() {
            Some(f) => Ok(f),
            None => Err(Error::link("no simulated response available")),
        }
    }

    pub fn connect(&mut self) -> (r: Result<(), Error>)
        ensures
            r is Ok,
            final(self).pending() == old(self).pending(),
    {
        Ok(())
    }

    pub fn disconnect(&mut self) -> (r: Result<(), Error>)
        ensures
            r is Ok,
            final(self).pending() == old(self).pending(),
    {
        Ok(())
    }

    pub fn set_can_bus(&mut self, _bus: CanBus) -> (r: Result<(), Error>)
        ensures
            r is Ok,
            final(self).pending() == old(self).pending(),
    {
        Ok(())
    }

    pub fn is_connected(&self) -> (r: bool)
        ensures
            r,
    {
        true
    }
}

} // verus!
