//! Adapter link layer: the text protocol of the vLinker FS (STN1170/STN2120) adapter.

pub mod sim;
pub mod vlinker;
