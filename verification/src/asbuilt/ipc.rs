//! Instrument Panel Cluster (IPC) as-built configuration blocks for the 2017 Fusion SEL.
//!
//! The IPC controls the instrument cluster display, gauges, warning lights and display
//! preferences.

use std::collections::HashMap;
use vstd::prelude::*;
use crate::asbuilt::catalog::{
    add_variant, all_features, block, boolean_feature, enumerated_feature, find_block,
    flat_features, is_block_header, is_boolean_feature, is_enumerated_feature,
};
use crate::asbuilt::types::{AsBuiltBlock, Feature};
use crate::text::{dec_chars, push_decimal};

verus! {

broadcast use vstd::std_specs::hash::group_hash_axioms;

/// The variants of the speed-units feature.
pub open spec fn speed_unit_texts() -> Map<u8, Seq<char>> {
    map![0u8 => "km/h"@, 1u8 => "mph"@]
}

/// The variants of the temperature-units feature.
pub open spec fn temperature_unit_texts() -> Map<u8, Seq<char>> {
    map![0u8 => "Celsius"@, 1u8 => "Fahrenheit"@]
}

/// The eight brightness levels, named "Level 1" to "Level 8".
pub open spec fn brightness_texts() -> Map<u8, Seq<char>> {
    Map::new(|k: u8| k <= 7, |k: u8| "Level "@ + dec_chars((k + 1) as nat))
}

/// The variants of the TPMS display-units feature.
pub open spec fn tpms_unit_texts() -> Map<u8, Seq<char>> {
    map![4u8 => "psi"@, 8u8 => "kpa"@, 12u8 => "bar"@]
}

/// The features of block 720-01 (display settings).
pub open spec fn block_720_01_features(fs: Seq<Feature>) -> bool {
    &&& fs.len() == 4
    &&& is_boolean_feature(
        fs[0],
        "show_digital_speedometer"@,
        "Digital Speedometer Display"@,
        2,
        1,
        "Digital Speedometer Shown"@,
        "Analog Only"@,
    )
    &&& is_enumerated_feature(
        fs[1],
        "speed_units"@,
        "Speed Display Units"@,
        1,
        0,
        speed_unit_texts(),
    )
    &&& is_enumerated_feature(
        fs[2],
        "temperature_units"@,
        "Temperature Display Units"@,
        1,
        2,
        temperature_unit_texts(),
    )
    &&& is_boolean_feature(
        fs[3],
        "show_compass"@,
        "Compass Display"@,
        3,
        4,
        "Compass Enabled"@,
        "Compass Disabled"@,
    )
}

/// The features of block 720-02 (lighting and animation).
pub open spec fn block_720_02_features(fs: Seq<Feature>) -> bool {
    &&& fs.len() == 4
    &&& is_boolean_feature(
        fs[0],
        "welcome_animation"@,
        "Startup Welcome Animation"@,
        0,
        7,
        "Animation Enabled"@,
        "Animation Disabled"@,
    )
    &&& is_enumerated_feature(
        fs[1],
        "gauge_brightness"@,
        "Gauge Cluster Brightness"@,
        2,
        0,
        brightness_texts(),
    )
    &&& is_boolean_feature(
        fs[2],
        "show_ambient_temp"@,
        "Ambient Temperature Display"@,
        1,
        5,
        "Ambient Temp Shown"@,
        "Ambient Temp Hidden"@,
    )
    &&& is_boolean_feature(
        fs[3],
        "auto_dim_cluster"@,
        "Auto Dim Cluster at Night"@,
        4,
        2,
        "Auto Dim Enabled"@,
        "Manual Brightness Only"@,
    )
}

/// The features of block 720-04 (TPMS display settings).
pub open spec fn block_720_04_features(fs: Seq<Feature>) -> bool {
    &&& fs.len() == 1
    &&& is_enumerated_feature(
        fs[0],
        "tpms_display_units"@,
        "Tire Pressure Display Units"@,
        0,
        0,
        tpms_unit_texts(),
    )
}

/// `b` is IPC block 720-01.
pub open spec fn is_block_720_01(b: AsBuiltBlock) -> bool {
    &&& is_block_header(
        b,
        "720"@,
        "01"@,
        "IPC Configuration Block 01 - Display Settings"@,
        0x0101,
        8,
    )
    &&& block_720_01_features(b.features@)
}

/// `b` is IPC block 720-02.
pub open spec fn is_block_720_02(b: AsBuiltBlock) -> bool {
    &&& is_block_header(
        b,
        "720"@,
        "02"@,
        "IPC Configuration Block 02 - Lighting and Animation"@,
        0x0102,
        8,
    )
    &&& block_720_02_features(b.features@)
}

/// `b` is IPC block 720-04.
pub open spec fn is_block_720_04(b: AsBuiltBlock) -> bool {
    &&& is_block_header(
        b,
        "720"@,
        "04"@,
        "IPC Configuration Block 04 - TPMS Display Settings"@,
        0x0401,
        1,
    )
    &&& block_720_04_features(b.features@)
}

/// Returns all known IPC as-built blocks with their feature catalog.
pub fn get_known_blocks() -> (r: Vec<AsBuiltBlock>)
    ensures
        r@.len() == 3,
        is_block_720_01(r@[0]),
        is_block_720_02(r@[1]),
        is_block_720_04(r@[2]),
{
    vec![create_block_720_01(), create_block_720_02(), create_block_720_04()]
}

/// IPC block 720-01: display settings.
pub fn create_block_720_01() -> (r: AsBuiltBlock)
    ensures
        is_block_720_01(r),
{
    let mut speed_units: HashMap<u8, String> = HashMap::new();
    add_variant(&mut speed_units, 0, "km/h");
    add_variant(&mut speed_units, 1, "mph");
    proof {
        assert(speed_units@.dom() =~= speed_unit_texts().dom());
    }
    let mut temp_units: HashMap<u8, String> = HashMap::new();
    add_variant(&mut temp_units, 0, "Celsius");
    add_variant(&mut temp_units, 1, "Fahrenheit");
    proof {
        assert(temp_units@.dom() =~= temperature_unit_texts().dom());
    }
    let features = vec![
        boolean_feature(
            "show_digital_speedometer",
            "Digital Speedometer Display",
            2,
            1,
            "Digital Speedometer Shown",
            "Analog Only",
        ),
        enumerated_feature("speed_units", "Speed Display Units", 1, 0, speed_units),
        enumerated_feature("temperature_units", "Temperature Display Units", 1, 2, temp_units),
        boolean_feature("show_compass", "Compass Display", 3, 4, "Compass Enabled", "Compass Disabled"),
    ];
    block("720", "01", "IPC Configuration Block 01 - Display Settings", 0x0101, 8, features)
}

/// IPC block 720-02: lighting and animation.
pub fn create_block_720_02() -> (r: AsBuiltBlock)
    ensures
        is_block_720_02(r),
{
    let mut brightness_levels: HashMap<u8, String> = HashMap::new();
    let mut i: u8 = 0;
    while i <= 7
        invariant
            i <= 8,
            brightness_levels@.dom() == Set::new(|k: u8| k < i),
            forall|k: u8| #[trigger]
                brightness_levels@.contains_key(k) ==> brightness_levels@[k]@ == "Level "@
                    + dec_chars((k + 1) as nat),
        decreases 8 - i,
    {
        let mut text = String::from_str("Level ");
        push_decimal(&mut text, (i + 1) as u64);
        brightness_levels.insert(i, text);
        i = i + 1;
        proof {
            assert(brightness_levels@.dom() =~= Set::new(|k: u8| k < i));
        }
    }
    proof {
        assert(brightness_levels@.dom() =~= brightness_texts().dom());
    }
    let features = vec![
        boolean_feature(
            "welcome_animation",
            "Startup Welcome Animation",
            0,
            7,
            "Animation Enabled",
            "Animation Disabled",
        ),
        enumerated_feature("gauge_brightness", "Gauge Cluster Brightness", 2, 0, brightness_levels),
        boolean_feature(
            "show_ambient_temp",
            "Ambient Temperature Display",
            1,
            5,
            "Ambient Temp Shown",
            "Ambient Temp Hidden",
        ),
        boolean_feature(
            "auto_dim_cluster",
            "Auto Dim Cluster at Night",
            4,
            2,
            "Auto Dim Enabled",
            "Manual Brightness Only",
        ),
    ];
    block("720", "02", "IPC Configuration Block 02 - Lighting and Animation", 0x0102, 8, features)
}

/// IPC block 720-04: TPMS display settings.
pub fn create_block_720_04() -> (r: AsBuiltBlock)
    ensures
        is_block_720_04(r),
{
    let mut units: HashMap<u8, String> = HashMap::new();
    add_variant(&mut units, 4, "psi");
    add_variant(&mut units, 8, "kpa");
    add_variant(&mut units, 12, "bar");
    proof {
        assert(units@.dom() =~= tpms_unit_texts().dom());
    }
    let features = vec![
        enumerated_feature("tpms_display_units", "Tire Pressure Display Units", 0, 0, units),
    ];
    block("720", "04", "IPC Configuration Block 04 - TPMS Display Settings", 0x0401, 1, features)
}

/// Returns the IPC block whose index matches `id`, or `None` if not found.
pub fn get_block_by_id(id: &str) -> (r: Option<AsBuiltBlock>)
    ensures
        id@ == "01"@ ==> (r matches Some(b) && is_block_720_01(b)),
        id@ == "02"@ ==> (r matches Some(b) && is_block_720_02(b)),
        id@ == "04"@ ==> (r matches Some(b) && is_block_720_04(b)),
        id@ != "01"@ && id@ != "02"@ && id@ != "04"@ ==> r is None,
{
    proof {
        reveal_strlit("01");
        reveal_strlit("02");
        reveal_strlit("04");
    }
    let blocks = get_known_blocks();
    let ghost bs = blocks@;
    let r = find_block(blocks, id);
    proof {
        assert(bs[0].id.id@ == "01"@);
        assert(bs[1].id.id@ == "02"@);
        assert(bs[2].id.id@ == "04"@);
        assert("01"@[1] != "02"@[1] && "01"@[1] != "04"@[1] && "02"@[1] != "04"@[1]);
        if r is Some {
            let b = r.unwrap();
            let i = choose|i: int|
                0 <= i < bs.len() && bs[i] == b && b.id.id@ == id@ && forall|j: int|
                    0 <= j < i ==> (#[trigger] bs[j]).id.id@ != id@;
            assert(i == 0 || i == 1 || i == 2);
        }
    }
    r
}

/// Returns a flat list of every feature defined across all IPC blocks.
pub fn get_all_features() -> (r: Vec<Feature>)
    ensures
        r@.len() == 9,
        block_720_01_features(r@.subrange(0, 4)),
        block_720_02_features(r@.subrange(4, 8)),
        block_720_04_features(r@.subrange(8, 9)),
{
    let blocks = get_known_blocks();
    let ghost bs = blocks@;
    let r = all_features(blocks);
    proof {
        reveal_with_fuel(flat_features, 4);
        assert(bs.drop_first().drop_first().drop_first() =~= Seq::<AsBuiltBlock>::empty());
        assert(r@ =~= bs[0].features@ + bs[1].features@ + bs[2].features@);
        assert(r@.subrange(0, 4) =~= bs[0].features@);
        assert(r@.subrange(4, 8) =~= bs[1].features@);
        assert(r@.subrange(8, 9) =~= bs[2].features@);
    }
    r
}

} // verus!
