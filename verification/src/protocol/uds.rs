//! ISO 14229 (UDS) message coding and client state.
//!
//! Services: 0x10 DiagnosticSessionControl, 0x22 ReadDataByIdentifier, 0x27 SecurityAccess,
//! 0x2E WriteDataByIdentifier and 0x3E TesterPresent. Each service is a request built here
//! and a reply checked here; the client state (the active session and whether security
//! access was granted) changes only on a positive reply.

use vstd::prelude::*;
use crate::error::{Error, is_protocol_error};
use crate::text::{hex_width, push_hex_width};
use crate::transport::isotp::copy_range;

verus! {

/// A UDS diagnostic session.
#[derive(Clone, Copy, Debug, PartialEq, Eq, Hash, Structural)]
pub enum DiagnosticSession {
    Default,
    Programming,
    Extended,
}

/// The sub-function byte of a session.
pub open spec fn session_code(s: DiagnosticSession) -> u8 {
    match s {
        DiagnosticSession::Default => 0x01,
        DiagnosticSession::Programming => 0x02,
        DiagnosticSession::Extended => 0x03,
    }
}

/// The sessions carry their ISO 14229 sub-function values — default `0x01`, programming
/// `0x02`, extended `0x03` — so no two sessions share a request byte, and a request byte
/// names the session it was built for.
pub proof fn law_session_sub_functions(a: DiagnosticSession, b: DiagnosticSession)
    ensures
        session_code(DiagnosticSession::Default) == 0x01,
        session_code(DiagnosticSession::Programming) == 0x02,
        session_code(DiagnosticSession::Extended) == 0x03,
        session_code(a) == session_code(b) ==> a == b,
        1 <= session_code(a) <= 3,
{
}

impl DiagnosticSession {
    /// The sub-function byte of the session.
    pub fn code(&self) -> (r: u8)
        ensures
            r == session_code(*self),
    {
        match self {
            DiagnosticSession::Default => 0x01,
            DiagnosticSession::Programming => 0x02,
            DiagnosticSession::Extended => 0x03,
        }
    }
}

/// A UDS data identifier (DID).
#[derive(Clone, Copy, Debug, PartialEq, Eq, Hash, Structural)]
pub struct DataIdentifier(pub u16);

/// The values of the standard identification DIDs, and the high bytes of the DID ranges.
impl DataIdentifier {
    pub const VIN: u16 = 0xF190;
    pub const ECU_SOFTWARE_NUMBER: u16 = 0xF194;
    pub const ECU_HARDWARE_NUMBER: u16 = 0xF191;
    pub const SUPPLIER_IDENTIFIER: u16 = 0xF18A;
    pub const ECU_MANUFACTURING_DATE: u16 = 0xF18B;
    pub const ECU_SERIAL_NUMBER: u16 = 0xF18C;
    pub const PROGRAMMING_DID_PREFIX: u8 = 0xF0;
    pub const IDENTIFICATION_DID_PREFIX: u8 = 0xF1;
}

impl From<u16> for DataIdentifier {
    fn from(value: u16) -> (r: DataIdentifier) {
        DataIdentifier(value)
    }
}

impl vstd::std_specs::convert::FromSpecImpl<u16> for DataIdentifier {
    open spec fn obeys_from_spec() -> bool {
        true
    }

    open spec fn from_spec(v: u16) -> DataIdentifier {
        DataIdentifier(v)
    }
}

/// A SecurityAccess sub-function.
#[derive(Clone, Copy, Debug, PartialEq, Eq, Hash, Structural)]
pub enum SecurityAccessType {
    RequestSeed,
    SendKey,
}

impl SecurityAccessType {
    /// The sub-function byte.
    pub fn code(&self) -> (r: u8)
        ensures
            r == (match *self {
                SecurityAccessType::RequestSeed => 0x01u8,
                SecurityAccessType::SendKey => 0x02u8,
            }),
    {
        match self {
            SecurityAccessType::RequestSeed => 0x01,
            SecurityAccessType::SendKey => 0x02,
        }
    }
}

/// The description of a negative response code.
pub open spec fn nrc_description(nrc: u8) -> Seq<char> {
    if nrc == 0x10 {
        "General reject"@
    } else if nrc == 0x11 {
        "Service not supported"@
    } else if nrc == 0x12 {
        "Sub-function not supported"@
    } else if nrc == 0x13 {
        "Incorrect message length or invalid format"@
    } else if nrc == 0x14 {
        "Response too long"@
    } else if nrc == 0x21 {
        "Busy repeat request"@
    } else if nrc == 0x22 {
        "Conditions not correct"@
    } else if nrc == 0x24 {
        "Request sequence error"@
    } else if nrc == 0x25 {
        "No response from subnet component"@
    } else if nrc == 0x26 {
        "Failure prevents execution of requested action"@
    } else if nrc == 0x31 {
        "Request out of range"@
    } else if nrc == 0x33 {
        "Security access denied"@
    } else if nrc == 0x35 {
        "Invalid key"@
    } else if nrc == 0x36 {
        "Exceeded number of attempts"@
    } else if nrc == 0x37 {
        "Required time delay not expired"@
    } else if nrc == 0x78 {
        "Request correctly received - response pending"@
    } else {
        "Unknown error code"@
    }
}

/// A decoded negative response (`0x7F service nrc`).
#[derive(Clone, Debug)]
pub struct NegativeResponse {
    pub service: u8,
    pub nrc: u8,
    pub description: String,
}

impl NegativeResponse {
    pub fn new(service: u8, nrc: u8) -> (r: NegativeResponse)
        ensures
            r.service == service,
            r.nrc == nrc,
            r.description@ == nrc_description(nrc),
    {
        let description = if nrc == 0x10 {
            "General reject"
        } else if nrc == 0x11 {
            "Service not supported"
        } else if nrc == 0x12 {
            "Sub-function not supported"
        } else if nrc == 0x13 {
            "Incorrect message length or invalid format"
        } else if nrc == 0x14 {
            "Response too long"
        } else if nrc == 0x21 {
            "Busy repeat request"
        } else if nrc == 0x22 {
            "Conditions not correct"
        } else if nrc == 0x24 {
            "Request sequence error"
        } else if nrc == 0x25 {
            "No response from subnet component"
        } else if nrc == 0x26 {
            "Failure prevents execution of requested action"
        } else if nrc == 0x31 {
            "Request out of range"
        } else if nrc == 0x33 {
            "Security access denied"
        } else if nrc == 0x35 {
            "Invalid key"
        } else if nrc == 0x36 {
            "Exceeded number of attempts"
        } else if nrc == 0x37 {
            "Required time delay not expired"
        } else if nrc == 0x78 {
            "Request correctly received - response pending"
        } else {
            "Unknown error code"
        };
        NegativeResponse { service, nrc, description: String::from_str(description) }
    }

    /// The ECU asks for more time (NRC 0x78).
    pub fn is_response_pending(&self) -> (r: bool)
        ensures
            r == (self.nrc == 0x78),
    {
        self.nrc == 0x78
    }
}

/// `response` is a positive reply to `service` of at least `min_length` bytes.
pub open spec fn is_positive_reply(response: Seq<u8>, service: u8, min_length: nat) -> bool {
    response.len() >= min_length && response[0] != 0x7F && response[0] == service + 0x40
}

/// The message of a reply to the wrong service.
pub open spec fn unexpected_service_message(expected: int, got: u8) -> Seq<char> {
    "Unexpected response service: expected "@ + hex_width(expected as nat, 2) + ", got "@
        + hex_width(got as nat, 2)
}

/// `e` is the error with which a non-positive reply to `service` is refused.
pub open spec fn reply_error(e: Error, response: Seq<u8>, service: u8, min_length: nat) -> bool {
    if response.len() < min_length {
        is_protocol_error(e, "Response too short"@)
    } else if response[0] == 0x7F {
        if response.len() >= 3 {
            e matches Error::UdsNegativeResponse { service: s, code, description }
                && s == response[1] && code == response[2] && description@ == nrc_description(
                response[2],
            )
        } else {
            is_protocol_error(e, "Invalid negative response format"@)
        }
    } else {
        is_protocol_error(e, unexpected_service_message(service + 0x40, response[0]))
    }
}

/// The message of a reply that names another DID than the request.
pub open spec fn did_mismatch_message(requested: u16, got: int) -> Seq<char> {
    "DID mismatch: requested "@ + hex_width(requested as nat, 4) + ", got "@ + hex_width(
        got as nat,
        4,
    )
}

/// The DID echoed in bytes 1 and 2 of a reply.
pub open spec fn echoed_did(response: Seq<u8>) -> int {
    response[1] * 256 + response[2]
}

/// The big-endian bytes of a DID.
pub open spec fn did_bytes(did: u16) -> Seq<u8> {
    seq![(did / 256) as u8, (did % 256) as u8]
}

/// The state of a UDS client: the active session and whether security access was granted.
pub struct Uds {
    pub current_session: DiagnosticSession,
    pub security_access_granted: bool,
}

fn did_high_low(did: u16) -> (r: (u8, u8))
    ensures
        seq![r.0, r.1] == did_bytes(did),
{
    let hi = (did >> 8) as u8;
    let lo = (did & 0xFF) as u8;
    assert(hi == did / 256 && lo == did % 256) by (bit_vector)
        requires
            hi == (did >> 8) as u8,
            lo == (did & 0xFF) as u8,
    ;
    (hi, lo)
}

fn push_all(v: &mut Vec<u8>, data: &[u8])
    ensures
        final(v)@ == old(v)@ + data@,
{
    let ghost start = v@;
    let mut i: usize = 0;
    while i < data.len()
        invariant
            i <= data@.len(),
            v@ == start + data@.take(i as int),
        decreases data@.len() - i,
    {
        v.push(data[i]);
        i = i + 1;
        proof {
            assert(data@.take(i as int) =~= data@.take(i - 1).push(data@[i - 1]));
        }
    }
    proof {
        assert(data@.take(data@.len() as int) =~= data@);
    }
}

fn did_mismatch(requested: u16, got: u16) -> (e: Error)
    ensures
        is_protocol_error(e, did_mismatch_message(requested, got as int)),
{
    let mut m = String::from_str("DID mismatch: requested ");
    push_hex_width(&mut m, requested as u64, 4);
    m.append(", got ");
    push_hex_width(&mut m, got as u64, 4);
    Error::Protocol { message: m }
}

/// Reads the DID echoed in bytes 1 and 2 of a reply.
fn echoed(response: &[u8]) -> (r: u16)
    requires
        response@.len() >= 3,
    ensures
        r == echoed_did(response@),
{
    let hi = response[1];
    let lo = response[2];
    let r = ((hi as u16) << 8) | (lo as u16);
    assert(r == hi * 256 + lo) by (bit_vector)
        requires
            r == ((hi as u16) << 8) | (lo as u16),
    ;
    r
}

impl Uds {
    /// A client in the default session without security access.
    pub fn new() -> (r: Uds)
        ensures
            r.current_session == DiagnosticSession::Default,
            !r.security_access_granted,
    {
        Uds { current_session: DiagnosticSession::Default, security_access_granted: false }
    }

    /// The active session.
    pub fn current_session(&self) -> (r: DiagnosticSession)
        ensures
            r == self.current_session,
    {
        self.current_session
    }

    /// Whether a key was accepted.
    pub fn is_security_access_granted(&self) -> (r: bool)
        ensures
            r == self.security_access_granted,
    {
        self.security_access_granted
    }

    /// Checks that `response` is a positive reply to `expected_service` of at least
    /// `min_length` bytes; a negative reply is turned into its NRC error.
    pub fn check_positive_response(
        &self,
        response: &[u8],
        expected_service: u8,
        min_length: usize,
    ) -> (r: Result<(), Error>)
        requires
            expected_service < 0xC0,
            min_length >= 1,
        ensures
            r is Ok <==> is_positive_reply(response@, expected_service, min_length as nat),
            r matches Err(e) ==> reply_error(e, response@, expected_service, min_length as nat),
    {
        if response.len() < min_length {
            return Err(Error::protocol("Response too short"));
        }
        if response[0] == 0x7F {
            if response.len() >= 3 {
                let service = response[1];
                let nrc = response[2];
                let neg = NegativeResponse::new(service, nrc);
                return Err(
                    Error::UdsNegativeResponse {
                        service,
                        code: nrc,
                        description: neg.description,
                    },
                );
            } else {
                return Err(Error::protocol("Invalid negative response format"));
            }
        }
        let expected_response = expected_service + 0x40;
        if response[0] != expected_response {
            let mut m = String::from_str("Unexpected response service: expected ");
            push_hex_width(&mut m, expected_response as u64, 2);
            m.append(", got ");
            push_hex_width(&mut m, response[0] as u64, 2);
            return Err(Error::Protocol { message: m });
        }
        Ok(())
    }

    /// The DiagnosticSessionControl request.
    pub fn diagnostic_session_control_request(&self, session: DiagnosticSession) -> (r: Vec<u8>)
        ensures
            r@ == seq![0x10u8, session_code(session)],
    {
        vec![0x10, session.code()]
    }

    /// Handles the DiagnosticSessionControl reply: on a positive reply `session` becomes
    /// the active session.
    pub fn finish_diagnostic_session_control(
        &mut self,
        response: &[u8],
        session: DiagnosticSession,
    ) -> (r: Result<(), Error>)
        ensures
            r is Ok <==> is_positive_reply(response@, 0x10, 2),
            r matches Err(e) ==> reply_error(e, response@, 0x10, 2),
            final(self).current_session == (if r is Ok {
                session
            } else {
                old(self).current_session
            }),
            final(self).security_access_granted == old(self).security_access_granted,
    {
        self.check_positive_response(response, 0x10, 2)?;
        self.current_session = session;
        Ok(())
    }

    /// The ReadDataByIdentifier request.
    pub fn read_data_by_identifier_request(&self, did: DataIdentifier) -> (r: Vec<u8>)
        ensures
            r@ == seq![0x22u8] + did_bytes(did.0),
    {
        let (hi, lo) = did_high_low(did.0);
        let r = vec![0x22, hi, lo];
        proof {
            assert(r@ =~= seq![0x22u8] + did_bytes(did.0));
        }
        r
    }

    /// Handles the ReadDataByIdentifier reply: the data after the echoed DID.
    pub fn finish_read_data_by_identifier(&self, response: &[u8], did: DataIdentifier) -> (r:
        Result<Vec<u8>, Error>)
        ensures
            r is Ok <==> (is_positive_reply(response@, 0x22, 3) && echoed_did(response@)
                == did.0),
            r matches Ok(data) ==> data@ == response@.skip(3),
            r matches Err(e) ==> if !is_positive_reply(response@, 0x22, 3) {
                reply_error(e, response@, 0x22, 3)
            } else {
                is_protocol_error(e, did_mismatch_message(did.0, echoed_did(response@)))
            },
    {
        if response.len() < 3 {
            return Err(Error::protocol("Response too short"));
        }
        self.check_positive_response(response, 0x22, 3)?;
        let returned = echoed(response);
        if returned != did.0 {
            return Err(did_mismatch(did.0, returned));
        }
        let data = copy_range(response, 3, response.len());
        proof {
            assert(data@ =~= response@.skip(3));
        }
        Ok(data)
    }

    /// The SecurityAccess seed request.
    pub fn security_access_seed_request(&self, access_type: u8) -> (r: Vec<u8>)
        ensures
            r@ == seq![0x27u8, access_type],
    {
        vec![0x27, access_type]
    }

    /// Handles the seed reply: the seed is everything after the two-byte header.
    pub fn finish_security_access_request_seed(&self, response: &[u8]) -> (r: Result<
        Vec<u8>,
        Error,
    >)
        ensures
            r is Ok <==> is_positive_reply(response@, 0x27, 2),
            r matches Ok(seed) ==> seed@ == response@.skip(2),
            r matches Err(e) ==> reply_error(e, response@, 0x27, 2),
    {
        self.check_positive_response(response, 0x27, 2)?;
        let seed = copy_range(response, 2, response.len());
        proof {
            assert(seed@ =~= response@.skip(2));
        }
        Ok(seed)
    }

    /// The SecurityAccess key request, under the sub-function after the seed's.
    pub fn security_access_key_request(&self, access_type: u8, key: &[u8]) -> (r: Vec<u8>)
        requires
            access_type < 0xFF,
        ensures
            r@ == seq![0x27u8, (access_type + 1) as u8] + key@,
    {
        let mut request: Vec<u8> = vec![0x27, access_type + 1];
        push_all(&mut request, key);
        request
    }

    /// Handles the key reply: a positive reply grants security access.
    pub fn finish_security_access_send_key(&mut self, response: &[u8]) -> (r: Result<(), Error>)
        ensures
            r is Ok <==> is_positive_reply(response@, 0x27, 2),
            r matches Err(e) ==> reply_error(e, response@, 0x27, 2),
            final(self).security_access_granted == (r is Ok || old(
                self,
            ).security_access_granted),
            final(self).current_session == old(self).current_session,
    {
        self.check_positive_response(response, 0x27, 2)?;
        self.security_access_granted = true;
        Ok(())
    }

    /// The WriteDataByIdentifier request; refused until security access was granted.
    pub fn write_data_by_identifier_request(&self, did: DataIdentifier, data: &[u8]) -> (r:
        Result<Vec<u8>, Error>)
        ensures
            r is Ok <==> self.security_access_granted,
            r matches Ok(req) ==> req@ == seq![0x2Eu8] + did_bytes(did.0) + data@,
            r matches Err(e) ==> is_protocol_error(
                e,
                "Security access required for write operations"@,
            ),
    {
        if !self.security_access_granted {
            return Err(Error::protocol("Security access required for write operations"));
        }
        let (hi, lo) = did_high_low(did.0);
        let mut request: Vec<u8> = vec![0x2E, hi, lo];
        push_all(&mut request, data);
        proof {
            assert(request@ =~= seq![0x2Eu8] + did_bytes(did.0) + data@);
        }
        Ok(request)
    }

    /// Handles the WriteDataByIdentifier reply, which echoes the DID.
    pub fn finish_write_data_by_identifier(&self, response: &[u8], did: DataIdentifier) -> (r:
        Result<(), Error>)
        ensures
            r is Ok <==> (is_positive_reply(response@, 0x2E, 3) && echoed_did(response@)
                == did.0),
            r matches Err(e) ==> if !is_positive_reply(response@, 0x2E, 3) {
                reply_error(e, response@, 0x2E, 3)
            } else {
                is_protocol_error(e, did_mismatch_message(did.0, echoed_did(response@)))
            },
    {
        self.check_positive_response(response, 0x2E, 3)?;
        let returned = echoed(response);
        if returned != did.0 {
            return Err(did_mismatch(did.0, returned));
        }
        Ok(())
    }

    /// The TesterPresent request.
    pub fn tester_present_request(&self) -> (r: Vec<u8>)
        ensures
            r@ == seq![0x3Eu8, 0x00u8],
    {
        vec![0x3E, 0x00]
    }

    /// Handles the TesterPresent reply.
    pub fn finish_tester_present(&self, response: &[u8]) -> (r: Result<(), Error>)
        ensures
            r is Ok <==> is_positive_reply(response@, 0x3E, 2),
            r matches Err(e) ==> reply_error(e, response@, 0x3E, 2),
    {
        self.check_positive_response(response, 0x3E, 2)
    }
}

} // verus!
