//! Trouble-code commands: which OBD-II mode reads which memory bank.

use vstd::prelude::*;
use crate::protocol::j1979::J1979;
use crate::types::DtcKind;

verus! {

/// The OBD-II mode that reads a memory bank of trouble codes.
pub open spec fn dtc_mode(kind: DtcKind) -> u8 {
    match kind {
        DtcKind::Stored => 0x03,
        DtcKind::Pending => 0x07,
        DtcKind::Permanent => 0x0A,
    }
}

/// The request that reads the trouble codes of the given kind.
pub fn dtc_request(kind: DtcKind) -> (r: Vec<u8>)
    ensures
        r@ == seq![dtc_mode(kind)],
{
    let j1979 = J1979::new();
    match kind {
        DtcKind::Stored => j1979.stored_dtcs_request(),
        DtcKind::Pending => j1979.pending_dtcs_request(),
        DtcKind::Permanent => j1979.permanent_dtcs_request(),
    }
}

} // verus!
