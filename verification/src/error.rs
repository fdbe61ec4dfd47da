//! Errors of the diagnostics core (transport, protocols and commands).

use vstd::prelude::*;
use crate::text::{hex_width, push_hex_width};

verus! {

/// All errors that can be produced by the diagnostics core.
#[derive(Debug)]
pub enum Error {
    /// A standard I/O failure, carried by its text.
    Io { message: String },
    /// A serial-port open or configuration failure, carried by its text.
    Serial { message: String },
    /// A violation of the OBD-II or UDS protocol framing rules.
    Protocol { message: String },
    /// An ISO-TP segmentation or reassembly failure.
    Transport { message: String },
    /// A link-layer (adapter) communication failure.
    Link { message: String },
    /// A CAN frame whose structure does not match expectations.
    InvalidFrame { reason: String },
    /// The ECU returned a UDS negative response (NRC).
    UdsNegativeResponse { service: u8, code: u8, description: String },
    /// No response was received within the configured timeout.
    Timeout,
    /// The adapter disconnected unexpectedly.
    ConnectionLost,
    /// The received payload cannot be interpreted as the expected type.
    InvalidData { message: String },
    /// The requested operation is not supported by this adapter or module.
    Unsupported { operation: String },
}

/// `e` is a protocol error with the given message.
pub open spec fn is_protocol_error(e: Error, message: Seq<char>) -> bool {
    e matches Error::Protocol { message: m } && m@ == message
}

/// `e` is a transport error with the given message.
pub open spec fn is_transport_error(e: Error, message: Seq<char>) -> bool {
    e matches Error::Transport { message: m } && m@ == message
}

/// `e` is a link error with the given message.
pub open spec fn is_link_error(e: Error, message: Seq<char>) -> bool {
    e matches Error::Link { message: m } && m@ == message
}

/// `e` is an invalid-frame error with the given reason.
pub open spec fn is_invalid_frame_error(e: Error, reason: Seq<char>) -> bool {
    e matches Error::InvalidFrame { reason: m } && m@ == reason
}

/// `e` is an invalid-data error with the given message.
pub open spec fn is_invalid_data_error(e: Error, message: Seq<char>) -> bool {
    e matches Error::InvalidData { message: m } && m@ == message
}

/// `e` is an unsupported-operation error with the given description.
pub open spec fn is_unsupported_error(e: Error, operation: Seq<char>) -> bool {
    e matches Error::Unsupported { operation: m } && m@ == operation
}

/// The text of an error, as its `Display` renders it.
pub open spec fn error_text(e: Error) -> Seq<char> {
    match e {
        Error::Io { message } => "I/O error: "@ + message@,
        Error::Serial { message } => "Serial port error: "@ + message@,
        Error::Protocol { message } => "Protocol error: "@ + message@,
        Error::Transport { message } => "Transport error: "@ + message@,
        Error::Link { message } => "Link layer error: "@ + message@,
        Error::InvalidFrame { reason } => "Invalid frame: "@ + reason@,
        Error::UdsNegativeResponse { service, code, description } => "UDS negative response: service 0x"@
            + hex_width(service as nat, 2) + ", code 0x"@ + hex_width(code as nat, 2) + " ("@
            + description@ + ")"@,
        Error::Timeout => "Timeout waiting for response"@,
        Error::ConnectionLost => "Connection lost"@,
        Error::InvalidData { message } => "Invalid data: "@ + message@,
        Error::Unsupported { operation } => "Unsupported operation: "@ + operation@,
    }
}

impl Error {
    /// Creates a [`Error::Protocol`] variant with the given message.
    pub fn protocol(message: &str) -> (r: Error)
        ensures
            is_protocol_error(r, message@),
    {
        Error::Protocol { message: String::from_str(message) }
    }

    /// Creates a [`Error::Transport`] variant with the given message.
    pub fn transport(message: &str) -> (r: Error)
        ensures
            is_transport_error(r, message@),
    {
        Error::Transport { message: String::from_str(message) }
    }

    /// Creates a [`Error::Link`] variant with the given message.
    pub fn link(message: &str) -> (r: Error)
        ensures
            is_link_error(r, message@),
    {
        Error::Link { message: String::from_str(message) }
    }

    /// Creates a [`Error::InvalidFrame`] variant with the given reason.
    pub fn invalid_frame(reason: &str) -> (r: Error)
        ensures
            is_invalid_frame_error(r, reason@),
    {
        Error::InvalidFrame { reason: String::from_str(reason) }
    }

    /// Creates a [`Error::InvalidData`] variant with the given message.
    pub fn invalid_data(message: &str) -> (r: Error)
        ensures
            is_invalid_data_error(r, message@),
    {
        Error::InvalidData { message: String::from_str(message) }
    }

    /// Creates a [`Error::Unsupported`] variant describing the operation.
    pub fn unsupported(operation: &str) -> (r: Error)
        ensures
            is_unsupported_error(r, operation@),
    {
        Error::Unsupported { operation: String::from_str(operation) }
    }

    /// The human-readable text of the error.
    pub fn to_string(&self) -> (r: String)
        ensures
            r@ == error_text(*self),
    {
        let (prefix, body): (&str, &String) = match self {
            Error::Io { message } => ("I/O error: ", message),
            Error::Serial { message } => ("Serial port error: ", message),
            Error::Protocol { message } => ("Protocol error: ", message),
            Error::Transport { message } => ("Transport error: ", message),
            Error::Link { message } => ("Link layer error: ", message),
            Error::InvalidFrame { reason } => ("Invalid frame: ", reason),
            Error::InvalidData { message } => ("Invalid data: ", message),
            Error::Unsupported { operation } => ("Unsupported operation: ", operation),
            Error::UdsNegativeResponse { service, code, description } => {
                let mut s = String::from_str("UDS negative response: service 0x");
                push_hex_width(&mut s, *service as u64, 2);
                s.append(", code 0x");
                push_hex_width(&mut s, *code as u64, 2);
                s.append(" (");
                s.append(description.as_str());
                s.append(")");
                proof {
                    assert(s@ =~= error_text(*self));
                }
                return s;
            },
            Error::Timeout => {
                return String::from_str("Timeout waiting for response");
            },
            Error::ConnectionLost => {
                return String::from_str("Connection lost");
            },
        };
        let mut s = String::from_str(prefix);
        s.append(body.as_str());
        s
    }
}

} // verus!
