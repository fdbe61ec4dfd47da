//! Errors of the as-built decoder and encoder.

use vstd::prelude::*;
use crate::text::{push_decimal, dec_chars};

verus! {

/// Errors that can occur when decoding, encoding, or persisting as-built data.
#[derive(Debug)]
pub enum Error {
    /// The block data is structurally invalid.
    InvalidBlock { message: String },
    /// The requested block is not in the catalog.
    UnknownBlock { block_id: String },
    /// A bit position references a bit index outside 0–7.
    InvalidBitPosition { byte: usize, bit: usize },
    /// The data slice is shorter than required by the bit position.
    DataTooShort { expected: usize, actual: usize },
}

/// The text of an error, as its `Display` renders it.
pub open spec fn error_text(e: Error) -> Seq<char> {
    match e {
        Error::InvalidBlock { message } => "Invalid block data: "@ + message@,
        Error::UnknownBlock { block_id } => "Unknown block: "@ + block_id@,
        Error::InvalidBitPosition { byte, bit } => "Invalid bit position: byte "@ + dec_chars(
            byte as nat,
        ) + ", bit "@ + dec_chars(bit as nat),
        Error::DataTooShort { expected, actual } => "Data too short: expected at least "@
            + dec_chars(expected as nat) + " bytes, got "@ + dec_chars(actual as nat),
    }
}

impl Error {
    /// Constructs an [`Error::InvalidBlock`] with the given message.
    pub fn invalid_block(message: &str) -> (r: Error)
        ensures
            r matches Error::InvalidBlock { message: m } && m@ == message@,
    {
        Error::InvalidBlock { message: String::from_str(message) }
    }

    /// Constructs an [`Error::UnknownBlock`] with the given block identifier.
    pub fn unknown_block(block_id: &str) -> (r: Error)
        ensures
            r matches Error::UnknownBlock { block_id: b } && b@ == block_id@,
    {
        Error::UnknownBlock { block_id: String::from_str(block_id) }
    }

    /// Constructs an [`Error::InvalidBitPosition`] for the given byte and bit index.
    pub fn invalid_bit_position(byte: usize, bit: usize) -> (r: Error)
        ensures
            r == (Error::InvalidBitPosition { byte, bit }),
    {
        Error::InvalidBitPosition { byte, bit }
    }

    /// Constructs an [`Error::DataTooShort`] with the expected and actual byte counts.
    pub fn data_too_short(expected: usize, actual: usize) -> (r: Error)
        ensures
            r == (Error::DataTooShort { expected, actual }),
    {
        Error::DataTooShort { expected, actual }
    }

    /// The human-readable text of the error.
    pub fn to_string(&self) -> (r: String)
        ensures
            r@ == error_text(*self),
    {
        match self {
            Error::InvalidBlock { message } => {
                let mut s = String::from_str("Invalid block data: ");
                s.append(message.as_str());
                s
            },
            Error::UnknownBlock { block_id } => {
                let mut s = String::from_str("Unknown block: ");
                s.append(block_id.as_str());
                s
            },
            Error::InvalidBitPosition { byte, bit } => {
                let mut s = String::from_str("Invalid bit position: byte ");
                push_decimal(&mut s, *byte as u64);
                s.append(", bit ");
                push_decimal(&mut s, *bit as u64);
                s
            },
            Error::DataTooShort { expected, actual } => {
                let mut s = String::from_str("Data too short: expected at least ");
                push_decimal(&mut s, *expected as u64);
                s.append(" bytes, got ");
                push_decimal(&mut s, *actual as u64);
                s
            },
        }
    }
}

} // verus!
