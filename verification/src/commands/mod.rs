//! The command layer: each user-facing command as a sequence of ISO-TP exchanges.
//!
//! A command is a small state machine. It answers each event (the bus was switched, a
//! reply arrived) with the next action: switch the bus, send a request to the module,
//! finish with data, or fail. Whoever owns the transport performs the actions and feeds
//! the replies back, so every decision of a command is made, and verified, here.

use vstd::prelude::*;
use crate::error::Error;
use crate::types::CanBus;

pub mod asbuilt;
pub mod diagnostics;
pub mod live_data;
pub mod vehicle_info;
pub mod write_asbuilt;

verus! {

/// Top-level executor that exposes all commands over a given transport.
pub struct CommandExecutor<T> {
    transport: T,
}

impl<T> CommandExecutor<T> {
    /// The transport the executor drives.
    pub closed spec fn inner(&self) -> T {
        self.transport
    }

    /// Wraps an existing transport in a new `CommandExecutor`.
    pub fn new(transport: T) -> (r: Self)
        ensures
            r.inner() == transport,
    {
        CommandExecutor { transport }
    }

    /// Returns a mutable reference to the underlying transport.
    pub fn transport(&mut self) -> (r: &mut T)
        ensures
            *r == old(self).inner(),
            final(self).inner() == *final(r),
    {
        &mut self.transport
    }
}

/// What a command asks its driver to do next.
#[derive(Debug)]
pub enum FlowAction {
    /// Switch the adapter to this bus, then report that it was switched.
    SelectBus(CanBus),
    /// Send this request to the module and report its reply.
    Send(Vec<u8>),
    /// The command completed; the data it produced (empty for a write).
    Done(Vec<u8>),
    /// The command failed with this error.
    Fail(Error),
}

} // verus!
