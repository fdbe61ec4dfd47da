//! Body Control Module (BCM) as-built configuration blocks for the 2017 Fusion SEL.
//!
//! The BCM controls convenience and comfort features including lighting, locking and
//! other body functions.

use std::collections::HashMap;
use vstd::prelude::*;
use crate::asbuilt::catalog::{
    add_variant, all_features, block, boolean_feature, enumerated_feature, find_block,
    flat_features, is_block_header, is_boolean_feature, is_enumerated_feature, is_numeric_feature,
    numeric_feature,
};
use crate::asbuilt::types::{AsBuiltBlock, Feature};

verus! {

broadcast use vstd::std_specs::hash::group_hash_axioms;

/// The features of block 726-01 (lighting and DRL).
pub open spec fn block_726_01_features(fs: Seq<Feature>) -> bool {
    &&& fs.len() == 3
    &&& is_boolean_feature(
        fs[0],
        "drl_enabled"@,
        "Daytime Running Lights Enable"@,
        3,
        2,
        "DRL Enabled"@,
        "DRL Disabled"@,
    )
    &&& is_boolean_feature(
        fs[1],
        "auto_headlights"@,
        "Automatic Headlight Control"@,
        2,
        4,
        "Auto Headlights Enabled"@,
        "Manual Headlights Only"@,
    )
    &&& is_numeric_feature(
        fs[2],
        "welcome_lighting"@,
        "Welcome Lighting Duration"@,
        4,
        0,
        0,
        7,
        "seconds"@,
    )
}

/// The variants of the unlock-beeps feature.
pub open spec fn unlock_beep_texts() -> Map<u8, Seq<char>> {
    map![
        0u8 => "No Beeps"@,
        1u8 => "Single Beep"@,
        2u8 => "Double Beep"@,
        3u8 => "Triple Beep"@,
    ]
}

/// The features of block 726-02 (security and convenience).
pub open spec fn block_726_02_features(fs: Seq<Feature>) -> bool {
    &&& fs.len() == 3
    &&& is_boolean_feature(
        fs[0],
        "auto_lock_on_drive"@,
        "Auto Lock When Driving"@,
        1,
        3,
        "Auto Lock Enabled"@,
        "Auto Lock Disabled"@,
    )
    &&& is_enumerated_feature(
        fs[1],
        "unlock_beeps"@,
        "Number of Beeps on Unlock"@,
        2,
        0,
        unlock_beep_texts(),
    )
    &&& is_boolean_feature(
        fs[2],
        "remote_start_enabled"@,
        "Remote Start Feature"@,
        5,
        1,
        "Remote Start Enabled"@,
        "Remote Start Disabled"@,
    )
}

/// `b` is BCM block 726-01.
pub open spec fn is_block_726_01(b: AsBuiltBlock) -> bool {
    &&& is_block_header(
        b,
        "726"@,
        "01"@,
        "BCM Configuration Block 01 - Lighting and DRL"@,
        0x0701,
        8,
    )
    &&& block_726_01_features(b.features@)
}

/// `b` is BCM block 726-02.
pub open spec fn is_block_726_02(b: AsBuiltBlock) -> bool {
    &&& is_block_header(
        b,
        "726"@,
        "02"@,
        "BCM Configuration Block 02 - Security and Convenience"@,
        0x0702,
        8,
    )
    &&& block_726_02_features(b.features@)
}

/// Returns all known BCM as-built blocks with their feature catalog.
pub fn get_known_blocks() -> (r: Vec<AsBuiltBlock>)
    ensures
        r@.len() == 2,
        is_block_726_01(r@[0]),
        is_block_726_02(r@[1]),
{
    vec![create_block_726_01(), create_block_726_02()]
}

/// BCM block 726-01: lighting and daytime running lights.
pub fn create_block_726_01() -> (r: AsBuiltBlock)
    ensures
        is_block_726_01(r),
{
    let features = vec![
        boolean_feature(
            "drl_enabled",
            "Daytime Running Lights Enable",
            3,
            2,
            "DRL Enabled",
            "DRL Disabled",
        ),
        boolean_feature(
            "auto_headlights",
            "Automatic Headlight Control",
            2,
            4,
            "Auto Headlights Enabled",
            "Manual Headlights Only",
        ),
        numeric_feature("welcome_lighting", "Welcome Lighting Duration", 4, 0, 0, 7, "seconds"),
    ];
    block("726", "01", "BCM Configuration Block 01 - Lighting and DRL", 0x0701, 8, features)
}

/// BCM block 726-02: security and convenience.
pub fn create_block_726_02() -> (r: AsBuiltBlock)
    ensures
        is_block_726_02(r),
{
    let mut unlock_beeps: HashMap<u8, String> = HashMap::new();
    add_variant(&mut unlock_beeps, 0, "No Beeps");
    add_variant(&mut unlock_beeps, 1, "Single Beep");
    add_variant(&mut unlock_beeps, 2, "Double Beep");
    add_variant(&mut unlock_beeps, 3, "Triple Beep");
    proof {
        assert(unlock_beeps@.dom() =~= unlock_beep_texts().dom());
    }
    let features = vec![
        boolean_feature(
            "auto_lock_on_drive",
            "Auto Lock When Driving",
            1,
            3,
            "Auto Lock Enabled",
            "Auto Lock Disabled",
        ),
        enumerated_feature("unlock_beeps", "Number of Beeps on Unlock", 2, 0, unlock_beeps),
        boolean_feature(
            "remote_start_enabled",
            "Remote Start Feature",
            5,
            1,
            "Remote Start Enabled",
            "Remote Start Disabled",
        ),
    ];
    block(
        "726",
        "02",
        "BCM Configuration Block 02 - Security and Convenience",
        0x0702,
        8,
        features,
    )
}

/// Returns the BCM block whose index matches `id`, or `None` if not found.
pub fn get_block_by_id(id: &str) -> (r: Option<AsBuiltBlock>)
    ensures
        id@ == "01"@ ==> (r matches Some(b) && is_block_726_01(b)),
        id@ == "02"@ ==> (r matches Some(b) && is_block_726_02(b)),
        id@ != "01"@ && id@ != "02"@ ==> r is None,
{
    proof {
        reveal_strlit("01");
        reveal_strlit("02");
    }
    let blocks = get_known_blocks();
    let ghost bs = blocks@;
    let r = find_block(blocks, id);
    proof {
        assert(bs[0].id.id@ == "01"@);
        assert(bs[1].id.id@ == "02"@);
        if r is Some {
            let b = r.unwrap();
            let i = choose|i: int|
                0 <= i < bs.len() && bs[i] == b && b.id.id@ == id@ && forall|j: int|
                    0 <= j < i ==> (#[trigger] bs[j]).id.id@ != id@;
            assert(i == 0 || i == 1);
            if id@ == "02"@ {
                assert("01"@[1] != "02"@[1]);
                assert(i != 0);
                assert(b == bs[1]);
                assert(is_block_726_02(b));
            }
        }
        if id@ == "02"@ {
            assert(r is Some);
        }
    }
    r
}

/// Returns a flat list of every feature defined across all BCM blocks.
pub fn get_all_features() -> (r: Vec<Feature>)
    ensures
        r@.len() == 6,
        block_726_01_features(r@.subrange(0, 3)),
        block_726_02_features(r@.subrange(3, 6)),
{
    let blocks = get_known_blocks();
    let ghost bs = blocks@;
    let r = all_features(blocks);
    proof {
        reveal_with_fuel(flat_features, 3);
        assert(bs.drop_first().drop_first() =~= Seq::<AsBuiltBlock>::empty());
        assert(r@ =~= bs[0].features@ + bs[1].features@);
        assert(r@.subrange(0, 3) =~= bs[0].features@);
        assert(r@.subrange(3, 6) =~= bs[1].features@);
    }
    r
}

} // verus!
