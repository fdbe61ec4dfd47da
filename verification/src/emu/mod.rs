//! The ECU emulator: a simulated vehicle behind an emulated STN/ELM327 adapter, for
//! exercising the tool without a car.

pub mod conformance;
pub mod ecu;
pub mod handler;
