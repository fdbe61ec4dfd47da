//! The command-line tool's decisions: its arguments, how they are interpreted, the
//! as-built write/restore safety checks, profile validation and the audit records.

pub mod args;
pub mod asbuilt;
pub mod asbuilt_write;
pub mod audit;
pub mod output;
pub mod profile;
