//! The text the tool prints: trouble-code lists, DID data, as-built features and the
//! records of an as-built dump.

use vstd::prelude::*;
use crate::asbuilt::types::{AsBuiltBlock, FeatureValue};
use crate::protocol::j1979::Dtc;
use crate::text::{
    dec_chars, encode_lower, encode_upper, hex_lower, hex_upper, hex_width, push_decimal,
    push_hex_width,
};

verus! {

/// The heading above a non-empty trouble-code list.
pub fn dtc_count_header(count: usize) -> (r: String)
    ensures
        r@ == "Found "@ + dec_chars(count as nat) + " DTC(s)"@,
{
    let mut s = String::from_str("Found ");
    push_decimal(&mut s, count as u64);
    s.append(" DTC(s)");
    s
}

/// The line of one trouble code.
pub fn dtc_line(dtc: &Dtc) -> (r: String)
    ensures
        r@ == "  "@ + dtc.code@ + " - "@ + dtc.description@,
{
    let mut s = String::from_str("  ");
    s.append(dtc.code.as_str());
    s.append(" - ");
    s.append(dtc.description.as_str());
    s
}

/// The line of a DID's data: `DID XXXX: HEX`.
pub fn did_line(did: u16, data: &[u8]) -> (r: String)
    ensures
        r@ == "DID "@ + hex_width(did as nat, 4) + ": "@ + hex_upper(data@),
{
    let mut s = String::from_str("DID ");
    push_hex_width(&mut s, did as u64, 4);
    s.append(": ");
    let h = encode_upper(data);
    s.append(h.as_str());
    s
}

/// The DID in the four-digit form used in machine-readable output.
pub fn did_text(did: u16) -> (r: String)
    ensures
        r@ == hex_width(did as nat, 4),
{
    let mut s = String::new();
    push_hex_width(&mut s, did as u64, 4);
    s
}

/// The line of a live-data value that has no interpretation: `PID XX: hex (raw)`.
pub fn raw_pid_line(pid: u8, raw: &[u8]) -> (r: String)
    ensures
        r@ == "PID "@ + hex_width(pid as nat, 2) + ": "@ + hex_lower(raw@) + " (raw)"@,
{
    let mut s = String::from_str("PID ");
    push_hex_width(&mut s, pid as u64, 2);
    s.append(": ");
    let h = encode_lower(raw);
    s.append(h.as_str());
    s.append(" (raw)");
    s
}

/// The line of a decoded as-built feature: `name: value (raw: n)`.
pub fn feature_line(fv: &FeatureValue) -> (r: String)
    ensures
        r@ == fv.feature.name@ + ": "@ + fv.interpreted_value@ + " (raw: "@ + dec_chars(
            fv.raw_value as nat,
        ) + ")"@,
{
    let mut s = fv.feature.name.clone();
    s.append(": ");
    s.append(fv.interpreted_value.as_str());
    s.append(" (raw: ");
    push_decimal(&mut s, fv.raw_value as u64);
    s.append(")");
    s
}

/// The dump record of one decoded feature.
#[derive(Clone, Debug)]
pub struct FeatureRecord {
    pub name: String,
    pub description: String,
    pub value: String,
    pub raw: u8,
}

/// The dump record of one block.
#[derive(Clone, Debug)]
pub struct BlockRecord {
    pub id: String,
    pub description: String,
    pub did: String,
    pub data: String,
    pub features: Vec<FeatureRecord>,
}

/// `r` records feature value `fv`.
pub open spec fn records_feature(r: FeatureRecord, fv: FeatureValue) -> bool {
    &&& r.name@ == fv.feature.name@
    &&& r.description@ == fv.feature.description@
    &&& r.value@ == fv.interpreted_value@
    &&& r.raw == fv.raw_value
}

/// `r` records block `b` with its decoded features `fs`.
pub open spec fn records_block(r: BlockRecord, b: AsBuiltBlock, fs: Seq<FeatureValue>) -> bool {
    &&& r.id@ == b.id.module@ + "-"@ + b.id.id@
    &&& r.description@ == b.description@
    &&& r.did@ == "0x"@ + hex_width(b.did as nat, 4)
    &&& r.data@ == hex_upper(b.data@)
    &&& r.features@.len() == fs.len()
    &&& forall|j: int| 0 <= j < fs.len() ==> records_feature(#[trigger] r.features@[j], fs[j])
}

/// The dump record of a block and its decoded features.
pub fn block_record(block: &AsBuiltBlock, features: &Vec<FeatureValue>) -> (r: BlockRecord)
    ensures
        records_block(r, *block, features@),
{
    let mut recs: Vec<FeatureRecord> = Vec::new();
    let mut j: usize = 0;
    while j < features.len()
        invariant
            j <= features@.len(),
            recs@.len() == j,
            forall|k: int| 0 <= k < j ==> records_feature(#[trigger] recs@[k], features@[k]),
        decreases features@.len() - j,
    {
        let fv = &features[j];
        recs.push(
            FeatureRecord {
                name: fv.feature.name.clone(),
                description: fv.feature.description.clone(),
                value: fv.interpreted_value.clone(),
                raw: fv.raw_value,
            },
        );
        j = j + 1;
    }
    let mut did = String::from_str("0x");
    push_hex_width(&mut did, block.did as u64, 4);
    BlockRecord {
        id: block.id.to_string(),
        description: block.description.clone(),
        did,
        data: encode_upper(block.data.as_slice()),
        features: recs,
    }
}

} // verus!
