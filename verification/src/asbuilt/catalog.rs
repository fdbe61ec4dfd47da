//! Building blocks of the as-built catalogs: feature constructors with exact contracts,
//! the predicates that describe catalog entries, and block-list helpers.

use std::collections::HashMap;
use vstd::prelude::*;
use crate::asbuilt::types::{AsBuiltBlock, BitPosition, BlockId, Feature, FeatureType};
use crate::text::str_eq;

verus! {

broadcast use vstd::std_specs::hash::group_hash_axioms;

/// `f` is the boolean feature with the given name, description, position and texts.
pub open spec fn is_boolean_feature(
    f: Feature,
    name: Seq<char>,
    description: Seq<char>,
    byte: usize,
    bit: usize,
    true_text: Seq<char>,
    false_text: Seq<char>,
) -> bool {
    &&& f.name@ == name
    &&& f.description@ == description
    &&& f.bit_position == (BitPosition { byte, bit })
    &&& f.feature_type matches FeatureType::Boolean { true_description, false_description }
    &&& true_description@ == true_text
    &&& false_description@ == false_text
}

/// `f` is the numeric feature with the given name, description, position, range and unit.
pub open spec fn is_numeric_feature(
    f: Feature,
    name: Seq<char>,
    description: Seq<char>,
    byte: usize,
    bit: usize,
    min: u8,
    max: u8,
    unit: Seq<char>,
) -> bool {
    &&& f.name@ == name
    &&& f.description@ == description
    &&& f.bit_position == (BitPosition { byte, bit })
    &&& f.feature_type matches FeatureType::Numeric { min: lo, max: hi, unit: Some(u) }
    &&& lo == min
    &&& hi == max
    &&& u@ == unit
}

/// A map of strings holds exactly the given texts.
pub open spec fn texts_match(m: Map<u8, String>, texts: Map<u8, Seq<char>>) -> bool {
    &&& m.dom() == texts.dom()
    &&& forall|k: u8| #[trigger] m.contains_key(k) ==> m[k]@ == texts[k]
}

/// `f` is the enumerated feature with the given name, description, position and variants.
pub open spec fn is_enumerated_feature(
    f: Feature,
    name: Seq<char>,
    description: Seq<char>,
    byte: usize,
    bit: usize,
    variants: Map<u8, Seq<char>>,
) -> bool {
    &&& f.name@ == name
    &&& f.description@ == description
    &&& f.bit_position == (BitPosition { byte, bit })
    &&& f.feature_type matches FeatureType::Enumerated { values }
    &&& texts_match(values@, variants)
}

/// `b` has the given identifier, description, DID and all-zero placeholder data of `len` bytes.
pub open spec fn is_block_header(
    b: AsBuiltBlock,
    module: Seq<char>,
    id: Seq<char>,
    description: Seq<char>,
    did: u16,
    len: nat,
) -> bool {
    &&& b.id.module@ == module
    &&& b.id.id@ == id
    &&& b.description@ == description
    &&& b.did == did
    &&& b.data@ == Seq::new(len, |i: int| 0u8)
}

/// The features of a list of blocks, concatenated in order.
pub open spec fn flat_features(blocks: Seq<AsBuiltBlock>) -> Seq<Feature>
    decreases blocks.len(),
{
    if blocks.len() == 0 {
        Seq::empty()
    } else {
        blocks[0].features@ + flat_features(blocks.drop_first())
    }
}

/// A boolean feature.
pub fn boolean_feature(
    name: &str,
    description: &str,
    byte: usize,
    bit: usize,
    true_text: &str,
    false_text: &str,
) -> (f: Feature)
    ensures
        is_boolean_feature(f, name@, description@, byte, bit, true_text@, false_text@),
{
    Feature {
        name: String::from_str(name),
        description: String::from_str(description),
        bit_position: BitPosition { byte, bit },
        feature_type: FeatureType::Boolean {
            true_description: String::from_str(true_text),
            false_description: String::from_str(false_text),
        },
    }
}

/// A numeric feature with a unit.
pub fn numeric_feature(
    name: &str,
    description: &str,
    byte: usize,
    bit: usize,
    min: u8,
    max: u8,
    unit: &str,
) -> (f: Feature)
    ensures
        is_numeric_feature(f, name@, description@, byte, bit, min, max, unit@),
{
    Feature {
        name: String::from_str(name),
        description: String::from_str(description),
        bit_position: BitPosition { byte, bit },
        feature_type: FeatureType::Numeric { min, max, unit: Some(String::from_str(unit)) },
    }
}

/// An enumerated feature over the given variant table.
pub fn enumerated_feature(
    name: &str,
    description: &str,
    byte: usize,
    bit: usize,
    values: HashMap<u8, String>,
) -> (f: Feature)
    ensures
        f.name@ == name@,
        f.description@ == description@,
        f.bit_position == (BitPosition { byte, bit }),
        f.feature_type matches FeatureType::Enumerated { values: v } && v@ == values@,
{
    Feature {
        name: String::from_str(name),
        description: String::from_str(description),
        bit_position: BitPosition { byte, bit },
        feature_type: FeatureType::Enumerated { values },
    }
}

/// Adds one variant to a table under construction.
pub fn add_variant(values: &mut HashMap<u8, String>, key: u8, text: &str)
    ensures
        final(values)@ == old(values)@.insert(key, final(values)@[key]),
        final(values)@[key]@ == text@,
{
    values.insert(key, String::from_str(text));
}

/// The header part of a block: identifier, description, DID and zeroed data.
pub fn block(
    module: &str,
    id: &str,
    description: &str,
    did: u16,
    len: usize,
    features: Vec<Feature>,
) -> (b: AsBuiltBlock)
    ensures
        is_block_header(b, module@, id@, description@, did, len as nat),
        b.features@ == features@,
{
    let data = vec![0u8; len];
    proof {
        assert(data@ =~= Seq::new(len as nat, |i: int| 0u8));
    }
    AsBuiltBlock {
        id: BlockId::new(module, id),
        description: String::from_str(description),
        did,
        data,
        features,
    }
}

/// The features of all blocks, concatenated in catalog order.
pub fn all_features(blocks: Vec<AsBuiltBlock>) -> (r: Vec<Feature>)
    ensures
        r@ == flat_features(blocks@),
{
    let ghost orig = blocks@;
    let mut blocks = blocks;
    let mut r: Vec<Feature> = Vec::new();
    while blocks.len() > 0
        invariant
            r@ + flat_features(blocks@) == flat_features(orig),
        decreases blocks@.len(),
    {
        let ghost before = blocks@;
        let mut b = blocks.remove(0);
        proof {
            assert(blocks@ =~= before.drop_first());
        }
        let ghost r_before = r@;
        r.append(&mut b.features);
        proof {
            assert(r@ + flat_features(blocks@) =~= r_before + flat_features(before));
        }
    }
    proof {
        assert(r@ + flat_features(blocks@) =~= r@);
    }
    r
}

/// The first block whose index matches `id`.
pub fn find_block(catalog: Vec<AsBuiltBlock>, id: &str) -> (r: Option<AsBuiltBlock>)
    ensures
        match r {
            Some(b) => exists|i: int|
                0 <= i < catalog@.len() && catalog@[i] == b && b.id.id@ == id@ && forall|j: int|
                    0 <= j < i ==> (#[trigger] catalog@[j]).id.id@ != id@,
            None => forall|j: int| 0 <= j < catalog@.len() ==> (#[trigger] catalog@[j]).id.id@ != id@,
        },
{
    let ghost orig = catalog@;
    let mut i: usize = 0;
    while i < catalog.len()
        invariant
            orig == catalog@,
            i <= catalog@.len(),
            forall|j: int| 0 <= j < i ==> (#[trigger] orig[j]).id.id@ != id@,
        ensures
            i < catalog@.len() ==> orig[i as int].id.id@ == id@,
        decreases catalog@.len() - i,
    {
        if str_eq(catalog[i].id.id.as_str(), id) {
            break;
        }
        i = i + 1;
    }
    if i == catalog.len() {
        return None;
    }
    assert(orig[i as int].id.id@ == id@);
    let mut blocks = catalog;
    let b = blocks.remove(i);
    assert(orig[i as int] == b);
    return Some(b);
}

} // verus!
