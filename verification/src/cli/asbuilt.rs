//! As-built commands of the tool: catalog lookup, value parsing, the write preparation and
//! the names of snapshot files.

use vstd::prelude::*;
use std::collections::HashMap;
use crate::asbuilt::encoder::{
    spec_position_check, spec_rejection_message, spec_value_admissible, spec_write_bit,
    AsBuiltEncoder,
};
use crate::asbuilt::error::error_text;
use crate::asbuilt::types::{same_feature, AsBuiltBlock, BitPosition, Feature, FeatureType};
use crate::cli::args::{module_of, ModuleArg};
use crate::scan::{parse_unsigned, parse_unsigned_radix};
use crate::text::{
    chars_of, dec_chars, eq_ignore_ascii_case, eq_ignore_case, lower_chars, push_char,
    push_decimal, str_eq, string_from_chars, to_ascii_lowercase, to_ascii_uppercase,
    upper_chars, hex_width, hex_chars, digit_char,
};
use crate::transport::isotp::copy_range;
use crate::types::{spec_request_id, Module};

verus! {

broadcast use vstd::std_specs::hash::group_hash_axioms;

/// `r` is the as-built catalog of `module`: BCM, IPC and PCM have one; the others none.
pub open spec fn is_catalog_of(module: ModuleArg, r: Seq<AsBuiltBlock>) -> bool {
    &&& module == ModuleArg::Bcm ==> r.len() == 2 && crate::asbuilt::bcm::is_block_726_01(r[0])
        && crate::asbuilt::bcm::is_block_726_02(r[1])
    &&& module == ModuleArg::Ipc ==> r.len() == 3 && crate::asbuilt::ipc::is_block_720_01(r[0])
        && crate::asbuilt::ipc::is_block_720_02(r[1]) && crate::asbuilt::ipc::is_block_720_04(r[2])
    &&& module == ModuleArg::Pcm ==> r.len() == 1 && crate::asbuilt::pcm::is_block_7e0_01(r[0])
    &&& module != ModuleArg::Bcm && module != ModuleArg::Ipc && module != ModuleArg::Pcm
        ==> r.len() == 0
}

/// Every feature of a module's catalog lies within the first eight bytes of its block.
pub proof fn lemma_catalog_positions(module: ModuleArg, cat: Seq<AsBuiltBlock>)
    requires
        is_catalog_of(module, cat),
    ensures
        forall|i: int, j: int|
            0 <= i < cat.len() && 0 <= j < cat[i].features@.len()
                ==> #[trigger] cat[i].features@[j].bit_position.byte < 8,
{
    assert forall|i: int, j: int|
        0 <= i < cat.len() && 0 <= j < cat[i].features@.len() implies
        #[trigger] cat[i].features@[j].bit_position.byte < 8 by {
        if j == 0 {
        } else if j == 1 {
        } else if j == 2 {
        }
    }
}

/// The as-built catalog of a module: BCM, IPC and PCM have one; the others have none.
pub fn known_blocks(module: ModuleArg) -> (r: Vec<AsBuiltBlock>)
    ensures
        is_catalog_of(module, r@),
{
    match module {
        ModuleArg::Bcm => crate::asbuilt::bcm::get_known_blocks(),
        ModuleArg::Ipc => crate::asbuilt::ipc::get_known_blocks(),
        ModuleArg::Pcm => crate::asbuilt::pcm::get_known_blocks(),
        _ => Vec::new(),
    }
}

/// `b` has a feature called `name`.
pub open spec fn has_feature(b: AsBuiltBlock, name: Seq<char>) -> bool {
    exists|j: int| 0 <= j < b.features@.len() && (#[trigger] b.features@[j]).name@ == name
}

/// `j` is the first feature of `b` called `name`.
pub open spec fn first_feature_at(b: AsBuiltBlock, name: Seq<char>, j: int) -> bool {
    &&& 0 <= j < b.features@.len()
    &&& b.features@[j].name@ == name
    &&& forall|l: int| 0 <= l < j ==> (#[trigger] b.features@[l]).name@ != name
}

fn find_in_block(b: &AsBuiltBlock, name: &str) -> (r: Option<usize>)
    ensures
        r matches Some(j) ==> first_feature_at(*b, name@, j as int),
        r is None ==> !has_feature(*b, name@),
{
    let mut j: usize = 0;
    while j < b.features.len()
        invariant
            j <= b.features@.len(),
            forall|l: int| 0 <= l < j ==> (#[trigger] b.features@[l]).name@ != name@,
        decreases b.features@.len() - j,
    {
        if str_eq(b.features[j].name.as_str(), name) {
            return Some(j);
        }
        j = j + 1;
    }
    None
}

/// Block `i` of `blocks` is the first that has a feature called `name`.
pub open spec fn first_block_with(blocks: Seq<AsBuiltBlock>, name: Seq<char>, i: int) -> bool {
    &&& 0 <= i < blocks.len()
    &&& has_feature(blocks[i], name)
    &&& forall|k: int| 0 <= k < i ==> !has_feature(#[trigger] blocks[k], name)
}

/// The position (block, feature) of the first feature called `name`.
pub fn locate_feature(blocks: &Vec<AsBuiltBlock>, name: &str) -> (r: Option<(usize, usize)>)
    ensures
        r is None ==> forall|i: int| 0 <= i < blocks@.len() ==> !has_feature(#[trigger] blocks@[i], name@),
        r matches Some(p) ==> first_block_with(blocks@, name@, p.0 as int) && first_feature_at(
            blocks@[p.0 as int],
            name@,
            p.1 as int,
        ),
{
    let mut i: usize = 0;
    while i < blocks.len()
        invariant
            i <= blocks@.len(),
            forall|k: int| 0 <= k < i ==> !has_feature(#[trigger] blocks@[k], name@),
        decreases blocks@.len() - i,
    {
        match find_in_block(&blocks[i], name) {
            Some(j) => {
                return Some((i, j));
            },
            None => {},
        }
        i = i + 1;
    }
    None
}

/// Block `i` of `blocks` is the first with a feature called `name`, `j` is the first such
/// feature of it, `b` is that block and `f` a copy of that feature.
pub open spec fn found_at(
    blocks: Seq<AsBuiltBlock>,
    name: Seq<char>,
    i: int,
    j: int,
    b: AsBuiltBlock,
    f: Feature,
) -> bool {
    &&& 0 <= i < blocks.len()
    &&& blocks[i] == b
    &&& first_feature_at(b, name, j)
    &&& same_feature(f, b.features@[j])
    &&& forall|k: int| 0 <= k < i ==> !has_feature(#[trigger] blocks[k], name)
}

/// Finds the first block that has a feature called `name`, and that feature; the block is
/// handed back with its feature list, the feature as a copy.
pub fn find_feature(blocks: Vec<AsBuiltBlock>, name: &str) -> (r: Option<(AsBuiltBlock, Feature)>)
    ensures
        r is None ==> forall|i: int| 0 <= i < blocks@.len() ==> !has_feature(#[trigger] blocks@[i], name@),
        r matches Some(p) ==> exists|i: int, j: int| #[trigger] found_at(blocks@, name@, i, j, p.0, p.1),
{
    let ghost orig = blocks@;
    let mut owned = blocks;
    let mut i: usize = 0;
    while i < owned.len()
        invariant
            orig == owned@,
            orig == blocks@,
            i <= owned@.len(),
            forall|k: int| 0 <= k < i ==> !has_feature(#[trigger] orig[k], name@),
        decreases owned@.len() - i,
    {
        match find_in_block(&owned[i], name) {
            Some(j) => {
                let f = owned[i].features[j].duplicate();
                let b = owned.remove(i);
                proof {
                    assert(orig[i as int] == b);
                }
                let res = Some((b, f));
                assert(res matches Some(p) && found_at(blocks@, name@, i as int, j as int, p.0, p.1));
                return res;
            },
            None => {},
        }
        i = i + 1;
    }
    None
}

/// A word accepted as boolean true (compared in ASCII lower case).
pub open spec fn is_true_word(l: Seq<char>) -> bool {
    l == "true"@ || l == "1"@ || l == "on"@ || l == "enabled"@ || l == "yes"@
}

/// A word accepted as boolean false (compared in ASCII lower case).
pub open spec fn is_false_word(l: Seq<char>) -> bool {
    l == "false"@ || l == "0"@ || l == "off"@ || l == "disabled"@ || l == "no"@
}

/// The smallest key from `k` on whose variant name equals `raw` up to ASCII case.
pub open spec fn first_variant_from(m: Map<u8, String>, raw: Seq<char>, k: int) -> Option<u8>
    decreases 256 - k,
{
    if k < 0 || k >= 256 {
        None
    } else if m.contains_key(k as u8) && eq_ignore_case(m[k as u8]@, raw) {
        Some(k as u8)
    } else {
        first_variant_from(m, raw, k + 1)
    }
}

/// The `key=name` entries of the variants with keys below `k`, in key order.
pub open spec fn option_entries(m: Map<u8, String>, k: int) -> Seq<Seq<char>>
    decreases k,
{
    if k <= 0 {
        seq![]
    } else {
        let key = (k - 1) as u8;
        option_entries(m, k - 1) + if m.contains_key(key) {
            seq![dec_chars(key as nat) + "="@ + m[key]@]
        } else {
            seq![]
        }
    }
}

/// `parts` joined with `sep` between consecutive parts.
pub open spec fn join_with(parts: Seq<Seq<char>>, sep: Seq<char>) -> Seq<char>
    decreases parts.len(),
{
    if parts.len() == 0 {
        seq![]
    } else if parts.len() == 1 {
        parts[0]
    } else {
        join_with(parts.drop_last(), sep) + sep + parts.last()
    }
}

/// The outcome of parsing the text `raw` as a value of a feature type: the raw value, or
/// the message of the refusal.
pub open spec fn parsed_value(t: FeatureType, raw: Seq<char>) -> Result<u8, Seq<char>> {
    match t {
        FeatureType::Boolean { .. } => {
            let l = lower_chars(raw);
            if is_true_word(l) {
                Ok(1)
            } else if is_false_word(l) {
                Ok(0)
            } else {
                Err("invalid boolean value '"@ + raw + "': use true/false/on/off/1/0"@)
            }
        },
        FeatureType::Enumerated { values } => {
            match first_variant_from(values@, raw, 0) {
                Some(k) => Ok(k),
                None => match parse_unsigned(raw, 10, 255) {
                    Some(v) if values@.contains_key(v as u8) => Ok(v as u8),
                    _ => Err(
                        "invalid value '"@ + raw + "': options are "@ + join_with(
                            option_entries(values@, 256),
                            ", "@,
                        ),
                    ),
                },
            }
        },
        FeatureType::Numeric { min, max, .. } => {
            match parse_unsigned(raw, 10, 255) {
                None => Err("'"@ + raw + "' is not a valid number"@),
                Some(v) => if v < min || v > max {
                    Err(
                        "value "@ + dec_chars(v) + " out of range ["@ + dec_chars(min as nat)
                            + ", "@ + dec_chars(max as nat) + "]"@,
                    )
                } else {
                    Ok(v as u8)
                },
            }
        },
    }
}

fn is_word(l: &str, w: &str) -> (r: bool)
    ensures
        r == (l@ == w@),
{
    str_eq(l, w)
}

fn first_variant(values: &HashMap<u8, String>, raw: &str) -> (r: Option<u8>)
    ensures
        r == first_variant_from(values@, raw@, 0),
{
    let mut k: u16 = 0;
    while k < 256
        invariant
            k <= 256,
            first_variant_from(values@, raw@, 0) == first_variant_from(values@, raw@, k as int),
        decreases 256 - k,
    {
        let key = k as u8;
        match values.get(&key) {
            Some(name) => {
                if eq_ignore_ascii_case(name.as_str(), raw) {
                    return Some(key);
                }
            },
            None => {},
        }
        k = k + 1;
    }
    None
}

fn options_text(values: &HashMap<u8, String>) -> (r: String)
    ensures
        r@ == join_with(option_entries(values@, 256), ", "@),
{
    let mut s = String::new();
    let mut any = false;
    let mut k: u16 = 0;
    while k < 256
        invariant
            k <= 256,
            any == (option_entries(values@, k as int).len() > 0),
            s@ == join_with(option_entries(values@, k as int), ", "@),
        decreases 256 - k,
    {
        let key = k as u8;
        let ghost before = option_entries(values@, k as int);
        match values.get(&key) {
            Some(name) => {
                if any {
                    s.append(", ");
                }
                any = true;
                push_decimal(&mut s, key as u64);
                s.append("=");
                s.append(name.as_str());
                proof {
                    let e = dec_chars(key as nat) + "="@ + values@[key]@;
                    let after = option_entries(values@, k + 1);
                    assert(after =~= before.push(e));
                    if before.len() > 0 {
                        assert(after.drop_last() =~= before);
                        assert(s@ =~= join_with(after, ", "@));
                    } else {
                        assert(s@ =~= join_with(after, ", "@));
                    }
                }
            },
            None => {
                proof {
                    assert(option_entries(values@, k + 1) =~= before);
                }
            },
        }
        k = k + 1;
    }
    s
}

/// Parses the text `raw` into a raw value for `feature`: boolean words; a variant name
/// (ASCII case ignored) or the decimal number of a variant key; or a number within the
/// numeric range.
pub fn parse_value(feature: &Feature, raw: &str) -> (r: Result<u8, String>)
    ensures
        match parsed_value(feature.feature_type, raw@) {
            Ok(v) => r == Ok::<u8, String>(v),
            Err(m) => r matches Err(e) && e@ == m,
        },
{
    match &feature.feature_type {
        FeatureType::Boolean { .. } => {
            let lower = to_ascii_lowercase(raw);
            let l = lower.as_str();
            if is_word(l, "true") || is_word(l, "1") || is_word(l, "on") || is_word(l, "enabled")
                || is_word(l, "yes") {
                Ok(1)
            } else if is_word(l, "false") || is_word(l, "0") || is_word(l, "off") || is_word(
                l,
                "disabled",
            ) || is_word(l, "no") {
                Ok(0)
            } else {
                let mut m = String::from_str("invalid boolean value '");
                m.append(raw);
                m.append("': use true/false/on/off/1/0");
                Err(m)
            }
        },
        FeatureType::Enumerated { values } => {
            if let Some(k) = first_variant(values, raw) {
                return Ok(k);
            }
            let key = match parse_unsigned_radix(raw, 10, 255) {
                Some(v) => if values.contains_key(&(v as u8)) {
                    Some(v as u8)
                } else {
                    None
                },
                None => None,
            };
            match key {
                Some(k) => Ok(k),
                None => {
                    let mut m = String::from_str("invalid value '");
                    m.append(raw);
                    m.append("': options are ");
                    let options = options_text(values);
                    m.append(options.as_str());
                    Err(m)
                },
            }
        },
        FeatureType::Numeric { min, max, .. } => {
            match parse_unsigned_radix(raw, 10, 255) {
                None => {
                    let mut m = String::from_str("'");
                    m.append(raw);
                    m.append("' is not a valid number");
                    Err(m)
                },
                Some(v) => {
                    if v < *min as u32 || v > *max as u32 {
                        let mut m = String::from_str("value ");
                        push_decimal(&mut m, v as u64);
                        m.append(" out of range [");
                        push_decimal(&mut m, *min as u64);
                        m.append(", ");
                        push_decimal(&mut m, *max as u64);
                        m.append("]");
                        Err(m)
                    } else {
                        Ok(v as u8)
                    }
                },
            }
        },
    }
}

/// The new contents of a block holding `current` once `value` is written into the feature
/// of type `t` at `pos`, or the message of the first check that refuses it: the parse of
/// the value, its admissibility for the type, then the position within the block.
pub open spec fn prepared_change(
    t: FeatureType,
    pos: BitPosition,
    value: Seq<char>,
    current: Seq<u8>,
) -> Result<Seq<u8>, Seq<char>> {
    match parsed_value(t, value) {
        Err(m) => Err(m),
        Ok(raw) => if !spec_value_admissible(t, raw) {
            Err("encode error: "@ + "Invalid block data: "@ + spec_rejection_message(t, raw))
        } else {
            match spec_position_check(current.len(), pos) {
                Err(err) => Err("encode error: "@ + error_text(err)),
                Ok(_) => Ok(spec_write_bit(current, pos, raw)),
            }
        },
    }
}

/// Prepares the write of `value` into `feature` of a block currently holding `current`:
/// the parsed raw value and the new block contents.
pub fn prepare_write(feature: &Feature, value: &str, current: &[u8]) -> (r: Result<
    (u8, Vec<u8>),
    String,
>)
    requires
        feature.bit_position.byte < usize::MAX,
    ensures
        match prepared_change(feature.feature_type, feature.bit_position, value@, current@) {
            Err(m) => r matches Err(e) && e@ == m,
            Ok(new) => r matches Ok(p) && parsed_value(feature.feature_type, value@) == Ok::<
                u8,
                Seq<char>,
            >(p.0) && p.1@ == new,
        },
{
    let raw = parse_value(feature, value)?;
    let mut new_data = copy_range(current, 0, current.len());
    proof {
        assert(new_data@ =~= current@);
    }
    match AsBuiltEncoder::encode_feature(new_data.as_mut_slice(), feature, raw) {
        Ok(()) => Ok((raw, new_data)),
        Err(e) => {
            let mut m = String::from_str("encode error: ");
            let text = e.to_string();
            m.append(text.as_str());
            Err(m)
        },
    }
}

/// The lower-case short name of a module argument.
pub open spec fn module_short_name(m: ModuleArg) -> Seq<char> {
    match m {
        ModuleArg::Bcm => "bcm"@,
        ModuleArg::Ipc => "ipc"@,
        ModuleArg::Pcm => "pcm"@,
        ModuleArg::Tcm => "tcm"@,
        ModuleArg::Abs => "abs"@,
        ModuleArg::Rcm => "rcm"@,
        ModuleArg::Pscm => "pscm"@,
        ModuleArg::Apim => "apim"@,
        ModuleArg::Pam => "pam"@,
        ModuleArg::Dsm => "dsm"@,
    }
}

/// The lower-case short name of a module argument.
pub fn module_name(module_arg: ModuleArg) -> (r: &'static str)
    ensures
        r@ == module_short_name(module_arg),
{
    match module_arg {
        ModuleArg::Bcm => "bcm",
        ModuleArg::Ipc => "ipc",
        ModuleArg::Pcm => "pcm",
        ModuleArg::Tcm => "tcm",
        ModuleArg::Abs => "abs",
        ModuleArg::Rcm => "rcm",
        ModuleArg::Pscm => "pscm",
        ModuleArg::Apim => "apim",
        ModuleArg::Pam => "pam",
        ModuleArg::Dsm => "dsm",
    }
}

/// The module argument named by its short name (ASCII case ignored).
pub open spec fn module_arg_named(s: Seq<char>) -> Option<ModuleArg> {
    let l = lower_chars(s);
    if l == "pcm"@ {
        Some(ModuleArg::Pcm)
    } else if l == "tcm"@ {
        Some(ModuleArg::Tcm)
    } else if l == "abs"@ {
        Some(ModuleArg::Abs)
    } else if l == "rcm"@ {
        Some(ModuleArg::Rcm)
    } else if l == "pscm"@ {
        Some(ModuleArg::Pscm)
    } else if l == "bcm"@ {
        Some(ModuleArg::Bcm)
    } else if l == "ipc"@ {
        Some(ModuleArg::Ipc)
    } else if l == "apim"@ {
        Some(ModuleArg::Apim)
    } else if l == "pam"@ {
        Some(ModuleArg::Pam)
    } else if l == "dsm"@ {
        Some(ModuleArg::Dsm)
    } else {
        None
    }
}

/// Parses a module's short name, ignoring ASCII case.
pub fn parse_module_arg(s: &str) -> (r: Option<ModuleArg>)
    ensures
        r == module_arg_named(s@),
{
    let lower = to_ascii_lowercase(s);
    let l = lower.as_str();
    if is_word(l, "pcm") {
        Some(ModuleArg::Pcm)
    } else if is_word(l, "tcm") {
        Some(ModuleArg::Tcm)
    } else if is_word(l, "abs") {
        Some(ModuleArg::Abs)
    } else if is_word(l, "rcm") {
        Some(ModuleArg::Rcm)
    } else if is_word(l, "pscm") {
        Some(ModuleArg::Pscm)
    } else if is_word(l, "bcm") {
        Some(ModuleArg::Bcm)
    } else if is_word(l, "ipc") {
        Some(ModuleArg::Ipc)
    } else if is_word(l, "apim") {
        Some(ModuleArg::Apim)
    } else if is_word(l, "pam") {
        Some(ModuleArg::Pam)
    } else if is_word(l, "dsm") {
        Some(ModuleArg::Dsm)
    } else {
        None
    }
}

/// The module whose request identifier is written (in hexadecimal, ASCII case ignored) as
/// a block's module field.
pub open spec fn module_with_can_id(s: Seq<char>) -> Option<Module> {
    let u = upper_chars(s);
    if u == "726"@ {
        Some(Module::Bcm)
    } else if u == "720"@ {
        Some(Module::Ipc)
    } else if u == "7E0"@ {
        Some(Module::Pcm)
    } else if u == "7E1"@ {
        Some(Module::Tcm)
    } else if u == "760"@ {
        Some(Module::Abs)
    } else if u == "737"@ {
        Some(Module::Rcm)
    } else if u == "730"@ {
        Some(Module::Pscm)
    } else if u == "7D0"@ {
        Some(Module::Apim)
    } else if u == "736"@ {
        Some(Module::Pam)
    } else if u == "754"@ {
        Some(Module::Dsm)
    } else {
        None
    }
}

/// The module fields of the BCM, IPC, PCM and TCM request identifiers.
proof fn lemma_can_id_literals()
    ensures
        module_with_can_id("726"@) == Some(Module::Bcm),
        module_with_can_id("720"@) == Some(Module::Ipc),
        module_with_can_id("7E0"@) == Some(Module::Pcm),
        module_with_can_id("7E1"@) == Some(Module::Tcm),
{
    reveal_strlit("726");
    reveal_strlit("720");
    reveal_strlit("7E0");
    reveal_strlit("7E1");
    assert(upper_chars("726"@) =~= "726"@);
    assert(upper_chars("720"@) =~= "720"@);
    assert(upper_chars("7E0"@) =~= "7E0"@);
    assert(upper_chars("7E1"@) =~= "7E1"@);
    assert("720"@[2] != "726"@[2]);
    assert("7E0"@[1] != "726"@[1]);
    assert("7E0"@[1] != "720"@[1]);
    assert("7E1"@[1] != "726"@[1]);
    assert("7E1"@[1] != "720"@[1]);
    assert("7E1"@[2] != "7E0"@[2]);
}

/// A block of a module's as-built catalog names that same module in its module field, so
/// a snapshot of catalog blocks is restored to the module it was read from.
pub proof fn law_catalog_blocks_name_their_module(arg: ModuleArg, cat: Seq<AsBuiltBlock>, i: int)
    requires
        is_catalog_of(arg, cat),
        0 <= i < cat.len(),
    ensures
        module_with_can_id(cat[i].id.module@) == Some(module_of(arg)),
{
    lemma_can_id_literals();
}

/// The module field of a block written as the module's request identifier, three
/// hexadecimal digits in either case, names that module (for the modules whose request
/// identifier the snapshot format uses: PCM, TCM, BCM and IPC).
pub proof fn law_request_id_names_module(m: Module)
    requires
        m == Module::Pcm || m == Module::Tcm || m == Module::Bcm || m == Module::Ipc,
    ensures
        module_with_can_id(hex_width(spec_request_id(m) as nat, 3)) == Some(m),
        module_with_can_id(lower_chars(hex_width(spec_request_id(m) as nat, 3))) == Some(m),
{
    reveal_strlit("726");
    reveal_strlit("720");
    reveal_strlit("7E0");
    reveal_strlit("7E1");
    let n = spec_request_id(m) as nat;
    reveal_with_fuel(hex_chars, 3);
    let h = hex_width(n, 3);
    assert(hex_chars(n / 256) == seq![digit_char((n / 256) as int)]);
    assert(hex_chars(n / 16) == seq![digit_char((n / 256) as int)].push(digit_char(((n / 16) % 16) as int)));
    assert(h == hex_chars(n));
    assert(upper_chars(lower_chars(h)) =~= upper_chars(h));
    lemma_can_id_literals();
    if m == Module::Pcm {
        assert(upper_chars(h) =~= "7E0"@);
    } else if m == Module::Tcm {
        assert(upper_chars(h) =~= "7E1"@);
    } else if m == Module::Bcm {
        assert(upper_chars(h) =~= "726"@);
    } else {
        assert(upper_chars(h) =~= "720"@);
    }
}

/// The module a block's module field names.
pub fn module_from_can_id(can_id_str: &str) -> (r: Option<Module>)
    ensures
        r == module_with_can_id(can_id_str@),
{
    let upper = to_ascii_uppercase(can_id_str);
    let u = upper.as_str();
    if is_word(u, "726") {
        Some(Module::Bcm)
    } else if is_word(u, "720") {
        Some(Module::Ipc)
    } else if is_word(u, "7E0") {
        Some(Module::Pcm)
    } else if is_word(u, "7E1") {
        Some(Module::Tcm)
    } else if is_word(u, "760") {
        Some(Module::Abs)
    } else if is_word(u, "737") {
        Some(Module::Rcm)
    } else if is_word(u, "730") {
        Some(Module::Pscm)
    } else if is_word(u, "7D0") {
        Some(Module::Apim)
    } else if is_word(u, "736") {
        Some(Module::Pam)
    } else if is_word(u, "754") {
        Some(Module::Dsm)
    } else {
        None
    }
}

/// `s` with every `:` replaced by `-`.
pub open spec fn colons_to_dashes(s: Seq<char>) -> Seq<char> {
    Seq::new(s.len(), |i: int| if s[i] == ':' { '-' } else { s[i] })
}

/// The file name of a snapshot: `<module>_<timestamp with ':' as '-'>.json`.
pub open spec fn snapshot_name(m: ModuleArg, timestamp: Seq<char>) -> Seq<char> {
    module_short_name(m) + "_"@ + colons_to_dashes(timestamp) + ".json"@
}

/// The file name of a snapshot of `module_arg` taken at `timestamp`.
pub fn snapshot_file_name(module_arg: ModuleArg, timestamp: &str) -> (r: String)
    ensures
        r@ == snapshot_name(module_arg, timestamp@),
{
    let mut s = String::from_str(module_name(module_arg));
    s.append("_");
    let cs = chars_of(timestamp);
    let ghost start = s@;
    let mut i: usize = 0;
    while i < cs.len()
        invariant
            cs@ == timestamp@,
            i <= cs@.len(),
            s@ == start + colons_to_dashes(timestamp@.take(i as int)),
        decreases cs@.len() - i,
    {
        let c = if cs[i] == ':' {
            '-'
        } else {
            cs[i]
        };
        push_char(&mut s, c);
        i = i + 1;
        proof {
            assert(colons_to_dashes(timestamp@.take(i as int)) =~= colons_to_dashes(
                timestamp@.take(i - 1),
            ).push(c));
        }
    }
    proof {
        assert(timestamp@.take(i as int) =~= timestamp@);
    }
    s.append(".json");
    s
}

/// The path of the snapshot of `module_arg` taken at `timestamp`, in `snapshot_dir`.
pub fn snapshot_output(module_arg: ModuleArg, timestamp: &str, snapshot_dir: &str) -> (r: String)
    ensures
        r@ == crate::cli::audit::path_join(snapshot_dir@, snapshot_name(module_arg, timestamp@)),
{
    let name = snapshot_file_name(module_arg, timestamp);
    crate::cli::audit::file_in(snapshot_dir, name.as_str())
}

/// The message of a feature name that no known block has.
pub fn unknown_feature_message(name: &str) -> (r: String)
    ensures
        r@ == "unknown feature: "@ + name@,
{
    let mut s = String::from_str("unknown feature: ");
    s.append(name);
    s
}

/// The message of a module without an as-built catalog.
pub fn no_blocks_message(module: Module) -> (r: String)
    ensures
        r@ == "no as-built blocks defined for module "@ + crate::types::spec_module_debug_name(
            module,
        ),
{
    let mut s = String::from_str("no as-built blocks defined for module ");
    s.append(module.debug_name());
    s
}

} // verus!
