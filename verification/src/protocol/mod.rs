//! Automotive diagnostic protocols: SAE J1979 (standard OBD-II), ISO 14229 (UDS) and the
//! Ford configuration-access seed/key derivation.

pub mod j1979;
pub mod seed_key;
pub mod uds;
