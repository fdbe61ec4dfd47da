//! Vehicle and ECU identification: text-valued DIDs and the ECU information summary.

use vstd::prelude::*;
use crate::error::{Error, is_invalid_data_error};
use crate::protocol::uds::{
    did_bytes, echoed_did, is_positive_reply, reply_error, session_code, DataIdentifier,
    DiagnosticSession, Uds,
};
use crate::text::{trim_end_nul, trim_trailing_nul, utf8_decode};
use crate::types::Module;

verus! {

/// The text of a DID's data: UTF-8 without trailing NULs, or `None` when not UTF-8.
pub open spec fn did_text(data: Seq<u8>) -> Option<Seq<char>> {
    if vstd::utf8::valid_utf8(data) {
        Some(trim_trailing_nul(vstd::utf8::decode_utf8(data)))
    } else {
        None
    }
}

/// Decodes the data of a text-valued DID.
pub fn decode_string_did(data: Vec<u8>) -> (r: Result<String, Error>)
    ensures
        r is Ok <==> vstd::utf8::valid_utf8(data@),
        r matches Ok(s) ==> did_text(data@) == Some(s@),
        r matches Err(e) ==> is_invalid_data_error(e, "Invalid string encoding"@),
{
    match utf8_decode(data) {
        Some(s) => Ok(trim_end_nul(s.as_str())),
        None => Err(Error::invalid_data("Invalid string encoding")),
    }
}

/// The text read from a ReadDataByIdentifier reply for `did`, or `None` when the reply is
/// refused or its data is not text.
pub open spec fn string_did_value(response: Seq<u8>, did: u16) -> Option<Seq<char>> {
    if is_positive_reply(response, 0x22, 3) && echoed_did(response) == did {
        did_text(response.skip(3))
    } else {
        None
    }
}

/// Handles the reply to a text-valued DID read.
pub fn read_string_did_reply(response: &[u8], did: DataIdentifier) -> (r: Result<String, Error>)
    ensures
        r is Ok <==> string_did_value(response@, did.0) is Some,
        r matches Ok(s) ==> string_did_value(response@, did.0) == Some(s@),
{
    let uds = Uds::new();
    let data = uds.finish_read_data_by_identifier(response, did)?;
    decode_string_did(data)
}

/// Identification strings of an ECU; a field the ECU did not deliver is `None`.
#[derive(Debug, Clone)]
pub struct EcuInfo {
    pub module: Module,
    pub software_number: Option<String>,
    pub hardware_number: Option<String>,
    pub supplier_id: Option<String>,
    pub manufacturing_date: Option<String>,
    pub serial_number: Option<String>,
}

/// A text field as a character sequence.
pub open spec fn text_view(o: Option<String>) -> Option<Seq<char>> {
    match o {
        Some(s) => Some(s@),
        None => None,
    }
}

/// The DIDs of the identification fields, in the order they are read.
pub open spec fn ecu_info_did(k: int) -> u16 {
    if k == 0 {
        0xF194
    } else if k == 1 {
        0xF191
    } else if k == 2 {
        0xF18A
    } else if k == 3 {
        0xF18B
    } else {
        0xF18C
    }
}

/// The `k`-th identification field of an `EcuInfo`.
pub open spec fn ecu_info_field(info: EcuInfo, k: int) -> Option<String> {
    if k == 0 {
        info.software_number
    } else if k == 1 {
        info.hardware_number
    } else if k == 2 {
        info.supplier_id
    } else if k == 3 {
        info.manufacturing_date
    } else {
        info.serial_number
    }
}

fn ecu_info_did_at(k: usize) -> (r: u16)
    requires
        k < 5,
    ensures
        r == ecu_info_did(k as int),
{
    if k == 0 {
        DataIdentifier::ECU_SOFTWARE_NUMBER
    } else if k == 1 {
        DataIdentifier::ECU_HARDWARE_NUMBER
    } else if k == 2 {
        DataIdentifier::SUPPLIER_IDENTIFIER
    } else if k == 3 {
        DataIdentifier::ECU_MANUFACTURING_DATE
    } else {
        DataIdentifier::ECU_SERIAL_NUMBER
    }
}

/// Reading the identification of an ECU: the extended session, then the five text DIDs
/// in turn. A DID that cannot be read leaves its field empty; the command goes on.
pub struct EcuInfoRead {
    /// 0 while the session reply is awaited, then `k + 1` while DID `k` is read; 6 at the end.
    pub step: usize,
    pub info: EcuInfo,
}

impl EcuInfoRead {
    /// Starts reading the identification of `module`: the session request comes first.
    pub fn start(module: Module) -> (r: (EcuInfoRead, Vec<u8>))
        ensures
            r.0.step == 0,
            r.0.info.module == module,
            forall|k: int| 0 <= k < 5 ==> ecu_info_field(r.0.info, k) is None,
            r.1@ == seq![0x10u8, session_code(DiagnosticSession::Extended)],
    {
        let uds = Uds::new();
        (
            EcuInfoRead {
                step: 0,
                info: EcuInfo {
                    module,
                    software_number: None,
                    hardware_number: None,
                    supplier_id: None,
                    manufacturing_date: None,
                    serial_number: None,
                },
            },
            uds.diagnostic_session_control_request(DiagnosticSession::Extended),
        )
    }

    /// The session reply arrived: a refusal ends the command with its error; otherwise the
    /// first DID is requested.
    pub fn on_session_reply(&mut self, response: &[u8]) -> (r: Result<Vec<u8>, Error>)
        requires
            old(self).step == 0,
        ensures
            final(self).info.module == old(self).info.module,
            forall|k: int|
                0 <= k < 5 ==> ecu_info_field(final(self).info, k) == ecu_info_field(
                    old(self).info,
                    k,
                ),
            r is Ok <==> is_positive_reply(response@, 0x10, 2),
            r matches Ok(req) ==> final(self).step == 1 && req@ == seq![0x22u8] + did_bytes(
                ecu_info_did(0),
            ),
            r matches Err(e) ==> final(self).step == 6 && reply_error(e, response@, 0x10, 2),
    {
        let mut uds = Uds::new();
        match uds.finish_diagnostic_session_control(response, DiagnosticSession::Extended) {
            Ok(()) => {
                self.step = 1;
                Ok(uds.read_data_by_identifier_request(DataIdentifier(ecu_info_did_at(0))))
            },
            Err(e) => {
                self.step = 6;
                Err(e)
            },
        }
    }

    fn record(&mut self, value: Option<String>) -> (r: Option<Vec<u8>>)
        requires
            1 <= old(self).step <= 5,
        ensures
            final(self).step == old(self).step + 1,
            final(self).info.module == old(self).info.module,
            forall|k: int|
                0 <= k < 5 && k != old(self).step - 1 ==> ecu_info_field(final(self).info, k)
                    == ecu_info_field(old(self).info, k),
            ecu_info_field(final(self).info, old(self).step - 1) == value,
            old(self).step < 5 ==> (r matches Some(req) && req@ == seq![0x22u8] + did_bytes(
                ecu_info_did(old(self).step as int),
            )),
            old(self).step == 5 ==> r is None,
    {
        let k = self.step - 1;
        if k == 0 {
            self.info.software_number = value;
        } else if k == 1 {
            self.info.hardware_number = value;
        } else if k == 2 {
            self.info.supplier_id = value;
        } else if k == 3 {
            self.info.manufacturing_date = value;
        } else {
            self.info.serial_number = value;
        }
        self.step = self.step + 1;
        if self.step <= 5 {
            let uds = Uds::new();
            Some(uds.read_data_by_identifier_request(DataIdentifier(ecu_info_did_at(self.step - 1))))
        } else {
            None
        }
    }

    /// The reply to the DID being read arrived: its text fills the field (or leaves it empty
    /// when refused or not text). Returns the next request, or `None` when all were read.
    pub fn on_did_reply(&mut self, response: &[u8]) -> (r: Option<Vec<u8>>)
        requires
            1 <= old(self).step <= 5,
        ensures
            final(self).step == old(self).step + 1,
            final(self).info.module == old(self).info.module,
            forall|k: int|
                0 <= k < 5 && k != old(self).step - 1 ==> ecu_info_field(final(self).info, k)
                    == ecu_info_field(old(self).info, k),
            text_view(ecu_info_field(final(self).info, old(self).step - 1)) == string_did_value(
                response@,
                ecu_info_did(old(self).step - 1),
            ),
            old(self).step < 5 ==> (r matches Some(req) && req@ == seq![0x22u8] + did_bytes(
                ecu_info_did(old(self).step as int),
            )),
            old(self).step == 5 ==> r is None,
    {
        let did = ecu_info_did_at(self.step - 1);
        let value = match read_string_did_reply(response, DataIdentifier(did)) {
            Ok(s) => Some(s),
            Err(_) => None,
        };
        self.record(value)
    }

    /// The DID being read could not be exchanged at all: its field stays empty.
    pub fn on_did_failure(&mut self) -> (r: Option<Vec<u8>>)
        requires
            1 <= old(self).step <= 5,
        ensures
            final(self).step == old(self).step + 1,
            final(self).info.module == old(self).info.module,
            forall|k: int|
                0 <= k < 5 && k != old(self).step - 1 ==> ecu_info_field(final(self).info, k)
                    == ecu_info_field(old(self).info, k),
            ecu_info_field(final(self).info, old(self).step - 1) is None,
            old(self).step < 5 ==> (r matches Some(req) && req@ == seq![0x22u8] + did_bytes(
                ecu_info_did(old(self).step as int),
            )),
            old(self).step == 5 ==> r is None,
    {
        self.record(None)
    }
}

} // verus!
