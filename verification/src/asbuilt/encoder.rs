//! Bit-field encoder: writes feature values back into raw as-built block data.

use vstd::prelude::*;
use crate::asbuilt::decoder::{bit_of, spec_extract};
use crate::asbuilt::error::Error;
use crate::asbuilt::types::{BitPosition, Feature, FeatureType};
use crate::text::{dec_chars, push_decimal};

verus! {

broadcast use vstd::std_specs::hash::group_hash_axioms;

/// Stateless encoder that writes feature values into raw as-built block data.
pub struct AsBuiltEncoder;

/// The byte `b` with bit `bit` set to `value & 1`.
pub open spec fn spec_set_bit(b: u8, bit: usize, value: u8) -> u8 {
    if value & 1 == 1 {
        b | (1u8 << (bit as u8))
    } else {
        b & !(1u8 << (bit as u8))
    }
}

/// Why a bit position cannot be written into data of length `len`, if it cannot.
pub open spec fn spec_position_check(len: nat, pos: BitPosition) -> Result<(), Error> {
    if pos.byte >= len {
        Err(Error::DataTooShort { expected: (pos.byte + 1) as usize, actual: len as usize })
    } else if pos.bit > 7 {
        Err(Error::InvalidBitPosition { byte: pos.byte, bit: pos.bit })
    } else {
        Ok(())
    }
}

/// The data after writing `value & 1` at `pos` (unchanged when the position is unusable).
pub open spec fn spec_write_bit(data: Seq<u8>, pos: BitPosition, value: u8) -> Seq<u8> {
    if spec_position_check(data.len(), pos) is Ok {
        data.update(pos.byte as int, spec_set_bit(data[pos.byte as int], pos.bit, value))
    } else {
        data
    }
}

/// Whether `value` is an admissible raw value for the feature type.
pub open spec fn spec_value_admissible(t: FeatureType, value: u8) -> bool {
    match t {
        FeatureType::Boolean { .. } => value <= 1,
        FeatureType::Enumerated { values } => values@.contains_key(value),
        FeatureType::Numeric { min, max, .. } => min <= value && value <= max,
    }
}

/// The message of the error reporting an inadmissible value.
pub open spec fn spec_rejection_message(t: FeatureType, value: u8) -> Seq<char> {
    match t {
        FeatureType::Boolean { .. } => "boolean feature expects 0 or 1, got "@ + dec_chars(
            value as nat,
        ),
        FeatureType::Enumerated { .. } => "enumerated feature has no variant "@ + dec_chars(
            value as nat,
        ),
        FeatureType::Numeric { min, max, .. } => "numeric value "@ + dec_chars(value as nat)
            + " out of range ["@ + dec_chars(min as nat) + ", "@ + dec_chars(max as nat) + "]"@,
    }
}

/// Setting one bit then reading it back gives the written value's low bit; the other bits
/// of the byte are unchanged.
pub proof fn lemma_set_bit_facts(b: u8, bit: usize, value: u8)
    requires
        bit <= 7,
    ensures
        bit_of(spec_set_bit(b, bit, value), bit) == value & 1,
{
    let s = bit as u8;
    assert(s < 8);
    if value & 1 == 1 {
        assert(((b | (1u8 << s)) >> s) & 1 == 1) by (bit_vector)
            requires
                s < 8,
        ;
    } else {
        assert(value & 1 == 0) by (bit_vector)
            requires
                value & 1 != 1,
        ;
        assert(((b & !(1u8 << s)) >> s) & 1 == 0) by (bit_vector)
            requires
                s < 8,
        ;
    }
}

/// Writing a bit leaves every other bit of the same byte unchanged.
pub proof fn lemma_set_bit_keeps_others(b: u8, bit: usize, value: u8, other: usize)
    requires
        bit <= 7,
        other <= 7,
        other != bit,
    ensures
        bit_of(spec_set_bit(b, bit, value), other) == bit_of(b, other),
{
    let s = bit as u8;
    let t = other as u8;
    assert(((b | (1u8 << s)) >> t) & 1 == (b >> t) & 1) by (bit_vector)
        requires
            s < 8,
            t < 8,
            s != t,
    ;
    assert(((b & !(1u8 << s)) >> t) & 1 == (b >> t) & 1) by (bit_vector)
        requires
            s < 8,
            t < 8,
            s != t,
    ;
}

impl AsBuiltEncoder {
    /// Validates `raw_value` against `feature`'s type constraints and writes it into `data`.
    pub fn encode_feature(data: &mut [u8], feature: &Feature, raw_value: u8) -> (r: Result<
        (),
        Error,
    >)
        requires
            feature.bit_position.byte < usize::MAX,
        ensures
            !spec_value_admissible(feature.feature_type, raw_value) ==> {
                &&& r matches Err(Error::InvalidBlock { message }) && message@
                    == spec_rejection_message(feature.feature_type, raw_value)
                &&& final(data)@ == old(data)@
            },
            spec_value_admissible(feature.feature_type, raw_value) ==> {
                &&& r == spec_position_check(old(data)@.len(), feature.bit_position)
                &&& final(data)@ == spec_write_bit(old(data)@, feature.bit_position, raw_value)
            },
    {
        Self::validate_value(&feature.feature_type, raw_value)?;
        Self::set_bit_value(data, feature.bit_position, raw_value)
    }

    /// Sets or clears the single bit at `position` in `data` according to `value & 1`.
    pub fn set_bit_value(data: &mut [u8], position: BitPosition, value: u8) -> (r: Result<
        (),
        Error,
    >)
        requires
            position.byte < usize::MAX,
        ensures
            r == spec_position_check(old(data)@.len(), position),
            final(data)@ == spec_write_bit(old(data)@, position, value),
    {
        if position.byte >= data.len() {
            return Err(Error::data_too_short(position.byte + 1, data.len()));
        }
        if position.bit > 7 {
            return Err(Error::invalid_bit_position(position.byte, position.bit));
        }
        let shift = position.bit as u8;
        let old_byte = data[position.byte];
        if value & 1 == 1 {
            data[position.byte] = old_byte | (1u8 << shift);
        } else {
            data[position.byte] = old_byte & !(1u8 << shift);
        }
        Ok(())
    }

    /// Checks that `value` is admissible for `feature_type`.
    pub fn validate_value(feature_type: &FeatureType, value: u8) -> (r: Result<(), Error>)
        ensures
            spec_value_admissible(*feature_type, value) ==> r is Ok,
            !spec_value_admissible(*feature_type, value) ==> (r matches Err(
                Error::InvalidBlock { message },
            ) && message@ == spec_rejection_message(*feature_type, value)),
    {
        match feature_type {
            FeatureType::Boolean { .. } => {
                if value > 1 {
                    let mut m = String::from_str("boolean feature expects 0 or 1, got ");
                    push_decimal(&mut m, value as u64);
                    return Err(Error::InvalidBlock { message: m });
                }
            },
            FeatureType::Enumerated { values } => {
                if !values.contains_key(&value) {
                    let mut m = String::from_str("enumerated feature has no variant ");
                    push_decimal(&mut m, value as u64);
                    return Err(Error::InvalidBlock { message: m });
                }
            },
            FeatureType::Numeric { min, max, .. } => {
                if value < *min || value > *max {
                    let mut m = String::from_str("numeric value ");
                    push_decimal(&mut m, value as u64);
                    m.append(" out of range [");
                    push_decimal(&mut m, *min as u64);
                    m.append(", ");
                    push_decimal(&mut m, *max as u64);
                    m.append("]");
                    return Err(Error::InvalidBlock { message: m });
                }
            },
        }
        Ok(())
    }
}

/// Reading back a bit that was just written gives the written value's low bit.
pub proof fn law_write_then_read(data: Seq<u8>, pos: BitPosition, value: u8)
    requires
        pos.byte < data.len(),
        pos.bit <= 7,
    ensures
        spec_extract(spec_write_bit(data, pos, value), pos) == Ok::<u8, Error>(value & 1),
{
    lemma_set_bit_facts(data[pos.byte as int], pos.bit, value);
}

/// Writing a bit leaves every other bit position of the data readable with its old value.
pub proof fn law_write_keeps_other_bits(data: Seq<u8>, pos: BitPosition, value: u8, other: BitPosition)
    requires
        other != pos,
    ensures
        spec_extract(spec_write_bit(data, pos, value), other) == spec_extract(data, other),
{
    if spec_position_check(data.len(), pos) is Ok && other.byte < data.len() && other.bit <= 7 {
        if other.byte == pos.byte {
            lemma_set_bit_keeps_others(data[pos.byte as int], pos.bit, value, other.bit);
        }
    }
}

/// Writing the same value twice at the same position is the same as writing it once.
pub proof fn law_write_idempotent(data: Seq<u8>, pos: BitPosition, value: u8)
    ensures
        spec_write_bit(spec_write_bit(data, pos, value), pos, value) == spec_write_bit(
            data,
            pos,
            value,
        ),
{
    if spec_position_check(data.len(), pos) is Ok {
        let b = data[pos.byte as int];
        let s = pos.bit as u8;
        assert((b | (1u8 << s)) | (1u8 << s) == b | (1u8 << s)) by (bit_vector);
        assert((b & !(1u8 << s)) & !(1u8 << s) == b & !(1u8 << s)) by (bit_vector);
        assert(spec_write_bit(spec_write_bit(data, pos, value), pos, value) =~= spec_write_bit(
            data,
            pos,
            value,
        ));
    }
}

} // verus!
