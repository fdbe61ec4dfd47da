//! Powertrain Control Module (PCM) as-built configuration blocks for the 2017 Fusion SEL.
//!
//! The PCM controls engine and transmission parameters. Most PCM configuration is not
//! user-modifiable and relates to emissions compliance and performance.

use std::collections::HashMap;
use vstd::prelude::*;
use crate::asbuilt::catalog::{
    add_variant, all_features, block, boolean_feature, enumerated_feature, find_block,
    flat_features, is_block_header, is_boolean_feature, is_enumerated_feature, is_numeric_feature,
    numeric_feature,
};
use crate::asbuilt::types::{AsBuiltBlock, Feature};

verus! {

broadcast use vstd::std_specs::hash::group_hash_axioms;

/// The variants of the fuel-type feature.
pub open spec fn fuel_type_texts() -> Map<u8, Seq<char>> {
    map![0u8 => "Regular Gasoline"@, 1u8 => "Premium Gasoline"@, 2u8 => "Flex Fuel (E85)"@]
}

/// The features of block 7E0-01 (engine parameters).
pub open spec fn block_7e0_01_features(fs: Seq<Feature>) -> bool {
    &&& fs.len() == 3
    &&& is_enumerated_feature(
        fs[0],
        "fuel_type"@,
        "Fuel Type Configuration"@,
        2,
        0,
        fuel_type_texts(),
    )
    &&& is_boolean_feature(
        fs[1],
        "auto_start_stop"@,
        "Auto Start-Stop Feature"@,
        4,
        3,
        "Auto Start-Stop Enabled"@,
        "Auto Start-Stop Disabled"@,
    )
    &&& is_numeric_feature(
        fs[2],
        "idle_speed_offset"@,
        "Idle Speed Offset"@,
        6,
        0,
        0,
        15,
        "rpm x 10"@,
    )
}

/// `b` is PCM block 7E0-01, read and written through DID 0xE001.
pub open spec fn is_block_7e0_01(b: AsBuiltBlock) -> bool {
    &&& is_block_header(
        b,
        "7E0"@,
        "01"@,
        "PCM Configuration Block 01 - Engine Parameters"@,
        0xE001,
        8,
    )
    &&& block_7e0_01_features(b.features@)
}

/// Returns all known PCM as-built blocks with their feature catalog.
pub fn get_known_blocks() -> (r: Vec<AsBuiltBlock>)
    ensures
        r@.len() == 1,
        is_block_7e0_01(r@[0]),
{
    vec![create_block_7e0_01()]
}

/// PCM block 7E0-01: engine parameters.
pub fn create_block_7e0_01() -> (r: AsBuiltBlock)
    ensures
        is_block_7e0_01(r),
{
    let mut fuel_types: HashMap<u8, String> = HashMap::new();
    add_variant(&mut fuel_types, 0, "Regular Gasoline");
    add_variant(&mut fuel_types, 1, "Premium Gasoline");
    add_variant(&mut fuel_types, 2, "Flex Fuel (E85)");
    proof {
        assert(fuel_types@.dom() =~= fuel_type_texts().dom());
    }
    let features = vec![
        enumerated_feature("fuel_type", "Fuel Type Configuration", 2, 0, fuel_types),
        boolean_feature(
            "auto_start_stop",
            "Auto Start-Stop Feature",
            4,
            3,
            "Auto Start-Stop Enabled",
            "Auto Start-Stop Disabled",
        ),
        numeric_feature("idle_speed_offset", "Idle Speed Offset", 6, 0, 0, 15, "rpm x 10"),
    ];
    block("7E0", "01", "PCM Configuration Block 01 - Engine Parameters", 0xE001, 8, features)
}

/// Returns the PCM block whose index matches `id`, or `None` if not found.
pub fn get_block_by_id(id: &str) -> (r: Option<AsBuiltBlock>)
    ensures
        id@ == "01"@ ==> (r matches Some(b) && is_block_7e0_01(b)),
        id@ != "01"@ ==> r is None,
{
    let blocks = get_known_blocks();
    let ghost bs = blocks@;
    let r = find_block(blocks, id);
    proof {
        assert(bs[0].id.id@ == "01"@);
        if r is Some {
            let b = r.unwrap();
            let i = choose|i: int|
                0 <= i < bs.len() && bs[i] == b && b.id.id@ == id@ && forall|j: int|
                    0 <= j < i ==> (#[trigger] bs[j]).id.id@ != id@;
            assert(i == 0);
        }
    }
    r
}

/// Returns a flat list of every feature defined across all PCM blocks.
pub fn get_all_features() -> (r: Vec<Feature>)
    ensures
        block_7e0_01_features(r@),
{
    let blocks = get_known_blocks();
    let ghost bs = blocks@;
    let r = all_features(blocks);
    proof {
        reveal_with_fuel(flat_features, 2);
        assert(bs.drop_first() =~= Seq::<AsBuiltBlock>::empty());
        assert(r@ =~= bs[0].features@);
    }
    r
}

} // verus!
