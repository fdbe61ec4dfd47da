//! Writing an as-built configuration block: switch to the module's bus, enter the extended
//! session, obtain security access with the seed/key exchange, then WriteDataByIdentifier.
//! Programming DIDs (`0xF0xx`, `0xF1xx`) are refused before anything is sent.

use vstd::prelude::*;
use crate::commands::FlowAction;
use crate::error::{Error, is_unsupported_error};
use crate::protocol::seed_key::{compute_key, spec_key, wrong_seed_message};
use crate::protocol::uds::{
    did_bytes, echoed_did, is_positive_reply, reply_error, session_code, DataIdentifier,
    DiagnosticSession, Uds,
};
use crate::error::is_protocol_error;
use crate::text::{hex_width, push_hex_width};
use crate::transport::isotp::copy_range;
use crate::types::{spec_module_bus, Module};

verus! {

/// `did` lies in a programming range (high byte `0xF0` or `0xF1`).
pub open spec fn is_programming_did(did: u16) -> bool {
    did / 256 == 0xF0 || did / 256 == 0xF1
}

/// The message with which a programming DID is refused.
pub open spec fn blocked_did_message(did: u16) -> Seq<char> {
    "writing programming DID "@ + hex_width(did as nat, 4) + " is blocked for safety"@
}

/// Where a block write stands.
#[derive(Clone, Copy, Debug, PartialEq, Eq, Structural)]
pub enum WritePhase {
    SelectingBus,
    EnteringSession,
    RequestingSeed,
    SendingKey,
    Writing,
    Finished,
}

/// A block write in progress.
pub struct AsBuiltWrite {
    pub module: Module,
    pub did: u16,
    pub data: Vec<u8>,
    pub phase: WritePhase,
    pub uds: Uds,
}

impl AsBuiltWrite {
    /// What holds of a write at every step: a programming DID never gets past the start,
    /// and the write request is only outstanding once security access was granted.
    pub open spec fn wf(&self) -> bool {
        &&& self.phase != WritePhase::Finished ==> !is_programming_did(self.did)
        &&& self.phase == WritePhase::Writing ==> self.uds.security_access_granted
    }

    /// Starts writing `data` to block `did` of `module`.
    pub fn start(module: Module, did: u16, data: &[u8]) -> (r: (AsBuiltWrite, FlowAction))
        ensures
            r.0.wf(),
            r.0.module == module,
            r.0.did == did,
            r.0.data@ == data@,
            !r.0.uds.security_access_granted,
            is_programming_did(did) ==> {
                &&& r.0.phase == WritePhase::Finished
                &&& r.1 matches FlowAction::Fail(e) && is_unsupported_error(
                    e,
                    blocked_did_message(did),
                )
            },
            !is_programming_did(did) ==> {
                &&& r.0.phase == WritePhase::SelectingBus
                &&& r.1 matches FlowAction::SelectBus(b) && b == spec_module_bus(module)
            },
    {
        let prefix = (did >> 8) as u8;
        assert(prefix == did / 256) by (bit_vector)
            requires
                prefix == (did >> 8) as u8,
        ;
        let flow = AsBuiltWrite {
            module,
            did,
            data: copy_range(data, 0, data.len()),
            phase: WritePhase::SelectingBus,
            uds: Uds::new(),
        };
        if prefix == 0xF0 || prefix == 0xF1 {
            let mut m = String::from_str("writing programming DID ");
            push_hex_width(&mut m, did as u64, 4);
            m.append(" is blocked for safety");
            let mut flow = flow;
            flow.phase = WritePhase::Finished;
            return (flow, FlowAction::Fail(Error::Unsupported { operation: m }));
        }
        (flow, FlowAction::SelectBus(module.bus()))
    }

    /// The bus was switched: request the extended session.
    pub fn on_bus_selected(&mut self) -> (r: FlowAction)
        requires
            old(self).wf(),
            old(self).phase == WritePhase::SelectingBus,
        ensures
            final(self).wf(),
            final(self).module == old(self).module,
            final(self).did == old(self).did,
            final(self).data@ == old(self).data@,
            final(self).uds == old(self).uds,
            final(self).phase == WritePhase::EnteringSession,
            r matches FlowAction::Send(d) && d@ == seq![
                0x10u8,
                session_code(DiagnosticSession::Extended),
            ],
    {
        self.phase = WritePhase::EnteringSession;
        FlowAction::Send(self.uds.diagnostic_session_control_request(DiagnosticSession::Extended))
    }

    /// A reply arrived for the request last sent.
    ///
    /// After the session reply the seed is requested (sub-function 0x01); the seed reply
    /// yields the key, which is sent under sub-function 0x02; a positive key reply grants
    /// security access and only then is the write request sent; its positive reply ends
    /// the command. Any other reply fails it.
    pub fn on_response(&mut self, response: &[u8]) -> (r: FlowAction)
        requires
            old(self).wf(),
            old(self).phase != WritePhase::SelectingBus,
            old(self).phase != WritePhase::Finished,
        ensures
            final(self).wf(),
            final(self).module == old(self).module,
            final(self).did == old(self).did,
            final(self).data@ == old(self).data@,
            r matches FlowAction::Send(d) ==> (d@[0] == 0x2E ==> {
                &&& final(self).phase == WritePhase::Writing
                &&& final(self).uds.security_access_granted
                &&& d@ == seq![0x2Eu8] + did_bytes(old(self).did) + old(self).data@
            }),
            old(self).phase == WritePhase::EnteringSession ==> if is_positive_reply(
                response@,
                0x10,
                2,
            ) {
                &&& final(self).phase == WritePhase::RequestingSeed
                &&& r matches FlowAction::Send(d) && d@ == seq![0x27u8, 0x01u8]
            } else {
                &&& final(self).phase == WritePhase::Finished
                &&& r matches FlowAction::Fail(e) && reply_error(e, response@, 0x10, 2)
            },
            old(self).phase == WritePhase::RequestingSeed ==> if !is_positive_reply(
                response@,
                0x27,
                2,
            ) {
                &&& final(self).phase == WritePhase::Finished
                &&& r matches FlowAction::Fail(e) && reply_error(e, response@, 0x27, 2)
            } else if response@.len() != 6 {
                &&& final(self).phase == WritePhase::Finished
                &&& r matches FlowAction::Fail(e) && is_protocol_error(
                    e,
                    wrong_seed_message((response@.len() - 2) as nat),
                )
            } else {
                &&& final(self).phase == WritePhase::SendingKey
                &&& r matches FlowAction::Send(d) && d@ == seq![0x27u8, 0x02u8] + spec_key(
                    response@.skip(2),
                )
            },
            old(self).phase == WritePhase::SendingKey ==> if is_positive_reply(
                response@,
                0x27,
                2,
            ) {
                &&& final(self).phase == WritePhase::Writing
                &&& final(self).uds.security_access_granted
                &&& r matches FlowAction::Send(d) && d@ == seq![0x2Eu8] + did_bytes(old(self).did)
                    + old(self).data@
            } else {
                &&& final(self).phase == WritePhase::Finished
                &&& r matches FlowAction::Fail(e) && reply_error(e, response@, 0x27, 2)
            },
            old(self).phase == WritePhase::Writing ==> {
                &&& final(self).phase == WritePhase::Finished
                &&& if is_positive_reply(response@, 0x2E, 3) && echoed_did(response@) == old(
                    self,
                ).did {
                    r matches FlowAction::Done(d) && d@.len() == 0
                } else {
                    r matches FlowAction::Fail(_)
                }
            },
    {
        match self.phase {
            WritePhase::EnteringSession => {
                let mut session = Uds::new();
                match session.finish_diagnostic_session_control(
                    response,
                    DiagnosticSession::Extended,
                ) {
                    Ok(()) => {
                        self.phase = WritePhase::RequestingSeed;
                        FlowAction::Send(session.security_access_seed_request(0x01))
                    },
                    Err(e) => {
                        self.phase = WritePhase::Finished;
                        FlowAction::Fail(e)
                    },
                }
            },
            WritePhase::RequestingSeed => {
                let seeding = Uds::new();
                match seeding.finish_security_access_request_seed(response) {
                    Ok(seed) => match compute_key(seed.as_slice(), 0x01) {
                        Ok(key) => {
                            self.phase = WritePhase::SendingKey;
                            FlowAction::Send(
                                self.uds.security_access_key_request(0x01, key.as_slice()),
                            )
                        },
                        Err(e) => {
                            self.phase = WritePhase::Finished;
                            FlowAction::Fail(e)
                        },
                    },
                    Err(e) => {
                        self.phase = WritePhase::Finished;
                        FlowAction::Fail(e)
                    },
                }
            },
            WritePhase::SendingKey => {
                match self.uds.finish_security_access_send_key(response) {
                    Ok(()) => {
                        match self.uds.write_data_by_identifier_request(
                            DataIdentifier(self.did),
                            self.data.as_slice(),
                        ) {
                            Ok(request) => {
                                self.phase = WritePhase::Writing;
                                FlowAction::Send(request)
                            },
                            Err(e) => {
                                self.phase = WritePhase::Finished;
                                FlowAction::Fail(e)
                            },
                        }
                    },
                    Err(e) => {
                        self.phase = WritePhase::Finished;
                        FlowAction::Fail(e)
                    },
                }
            },
            _ => {
                self.phase = WritePhase::Finished;
                match self.uds.finish_write_data_by_identifier(response, DataIdentifier(self.did)) {
                    Ok(()) => FlowAction::Done(Vec::new()),
                    Err(e) => FlowAction::Fail(e),
                }
            },
        }
    }
}

} // verus!
