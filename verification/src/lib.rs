//! Verified core of a Ford diagnostics toolkit: CAN/ISO-TP framing, OBD-II (SAE J1979)
//! and UDS (ISO 14229) message coding, as-built configuration decoding and encoding,
//! and the decision logic of the command-line tool and the ECU emulator.

pub mod asbuilt;
pub mod cli;
pub mod commands;
pub mod emu;
pub mod error;
pub mod link;
pub mod protocol;
pub mod scan;
pub mod text;
pub mod transport;
pub mod types;

pub use types::{CanBus, CanFrame, CanId, DtcKind, Module};
pub use error::Error;
