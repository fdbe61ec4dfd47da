//! ISO-TP (ISO 15765-2) transport: segmentation of messages into CAN frames and their
//! reassembly, with flow control.

pub mod isotp;
