//! Reading an as-built configuration block: switch to the module's bus, enter the extended
//! session, then ReadDataByIdentifier.

use vstd::prelude::*;
use crate::commands::FlowAction;
use crate::error::Error;
use crate::protocol::uds::{
    did_bytes, echoed_did, is_positive_reply, reply_error, session_code, DataIdentifier,
    DiagnosticSession, Uds, did_mismatch_message,
};
use crate::error::is_protocol_error;
use crate::types::{spec_module_bus, Module};

verus! {

/// Where a block read stands.
#[derive(Clone, Copy, Debug, PartialEq, Eq, Structural)]
pub enum ReadPhase {
    SelectingBus,
    EnteringSession,
    Reading,
    Finished,
}

/// A block read in progress.
pub struct AsBuiltRead {
    pub module: Module,
    pub did: u16,
    pub phase: ReadPhase,
}

impl AsBuiltRead {
    /// Starts reading block `did` of `module`: first the bus is switched.
    pub fn start(module: Module, did: u16) -> (r: (AsBuiltRead, FlowAction))
        ensures
            r.0.module == module,
            r.0.did == did,
            r.0.phase == ReadPhase::SelectingBus,
            r.1 matches FlowAction::SelectBus(b) && b == spec_module_bus(module),
    {
        (AsBuiltRead { module, did, phase: ReadPhase::SelectingBus }, FlowAction::SelectBus(
            module.bus(),
        ))
    }

    /// The bus was switched: request the extended session.
    pub fn on_bus_selected(&mut self) -> (r: FlowAction)
        requires
            old(self).phase == ReadPhase::SelectingBus,
        ensures
            final(self).module == old(self).module,
            final(self).did == old(self).did,
            final(self).phase == ReadPhase::EnteringSession,
            r matches FlowAction::Send(d) && d@ == seq![
                0x10u8,
                session_code(DiagnosticSession::Extended),
            ],
    {
        self.phase = ReadPhase::EnteringSession;
        let uds = Uds::new();
        FlowAction::Send(uds.diagnostic_session_control_request(DiagnosticSession::Extended))
    }

    /// A reply arrived for the request last sent.
    pub fn on_response(&mut self, response: &[u8]) -> (r: FlowAction)
        requires
            old(self).phase == ReadPhase::EnteringSession || old(self).phase == ReadPhase::Reading,
        ensures
            final(self).module == old(self).module,
            final(self).did == old(self).did,
            old(self).phase == ReadPhase::EnteringSession ==> if is_positive_reply(
                response@,
                0x10,
                2,
            ) {
                &&& final(self).phase == ReadPhase::Reading
                &&& r matches FlowAction::Send(d) && d@ == seq![0x22u8] + did_bytes(old(self).did)
            } else {
                &&& final(self).phase == ReadPhase::Finished
                &&& r matches FlowAction::Fail(e) && reply_error(e, response@, 0x10, 2)
            },
            old(self).phase == ReadPhase::Reading ==> {
                &&& final(self).phase == ReadPhase::Finished
                &&& if is_positive_reply(response@, 0x22, 3) && echoed_did(response@) == old(
                    self,
                ).did {
                    r matches FlowAction::Done(d) && d@ == response@.skip(3)
                } else if !is_positive_reply(response@, 0x22, 3) {
                    r matches FlowAction::Fail(e) && reply_error(e, response@, 0x22, 3)
                } else {
                    r matches FlowAction::Fail(e) && is_protocol_error(
                        e,
                        did_mismatch_message(old(self).did, echoed_did(response@)),
                    )
                }
            },
    {
        let mut uds = Uds::new();
        match self.phase {
            ReadPhase::EnteringSession => {
                match uds.finish_diagnostic_session_control(response, DiagnosticSession::Extended) {
                    Ok(()) => {
                        self.phase = ReadPhase::Reading;
                        FlowAction::Send(uds.read_data_by_identifier_request(DataIdentifier(self.did)))
                    },
                    Err(e) => {
                        self.phase = ReadPhase::Finished;
                        FlowAction::Fail(e)
                    },
                }
            },
            _ => {
                self.phase = ReadPhase::Finished;
                match uds.finish_read_data_by_identifier(response, DataIdentifier(self.did)) {
                    Ok(data) => FlowAction::Done(data),
                    Err(e) => FlowAction::Fail(e),
                }
            },
        }
    }
}

} // verus!
