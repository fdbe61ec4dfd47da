//! Bit-field decoder: reads feature values out of raw as-built block data.

use std::collections::HashMap;
use vstd::prelude::*;
use crate::asbuilt::error::Error;
use crate::asbuilt::types::{
    AsBuiltBlock, BitPosition, Feature, FeatureType, FeatureValue, feature_type_wf, same_feature,
};
use crate::text::{dec_chars, push_decimal};

verus! {

broadcast use vstd::std_specs::hash::group_hash_axioms;

/// Stateless decoder that interprets raw as-built block data.
pub struct AsBuiltDecoder;

/// The value of bit `bit` of the byte `b` (0 or 1).
pub open spec fn bit_of(b: u8, bit: usize) -> u8 {
    (b >> (bit as u8)) & 1
}

/// What reading the bit at `pos` out of `data` gives: the bit's value, or why it cannot be read.
pub open spec fn spec_extract(data: Seq<u8>, pos: BitPosition) -> Result<u8, Error> {
    if pos.byte >= data.len() {
        Err(Error::DataTooShort { expected: (pos.byte + 1) as usize, actual: data.len() as usize })
    } else if pos.bit > 7 {
        Err(Error::InvalidBitPosition { byte: pos.byte, bit: pos.bit })
    } else {
        Ok(bit_of(data[pos.byte as int], pos.bit))
    }
}

/// A number clamped into `[min, max]`.
pub open spec fn clamp(v: u8, min: u8, max: u8) -> u8 {
    if v < min {
        min
    } else if v > max {
        max
    } else {
        v
    }
}

/// The human-readable interpretation of a raw value under a feature type.
pub open spec fn spec_interpret(t: FeatureType, raw: u8) -> Seq<char> {
    match t {
        FeatureType::Boolean { true_description, false_description } => {
            if raw != 0 {
                true_description@
            } else {
                false_description@
            }
        },
        FeatureType::Enumerated { values } => {
            if values@.contains_key(raw) {
                values@[raw]@
            } else {
                "Unknown value: "@ + dec_chars(raw as nat)
            }
        },
        FeatureType::Numeric { min, max, unit } => {
            let c = clamp(raw, min, max);
            match unit {
                Some(u) => dec_chars(c as nat) + " "@ + u@,
                None => dec_chars(c as nat),
            }
        },
    }
}

/// `v` is the decoding of `feature` out of `data`, whose raw value is `raw`.
pub open spec fn decodes_to(v: FeatureValue, feature: Feature, raw: u8) -> bool {
    &&& same_feature(v.feature, feature)
    &&& v.raw_value == raw
    &&& v.interpreted_value@ == spec_interpret(feature.feature_type, raw)
}

/// No feature position of a block makes the decoder overflow while reporting an error.
pub open spec fn positions_in_range(features: Seq<Feature>) -> bool {
    forall|i: int| 0 <= i < features.len() ==> #[trigger] features[i].bit_position.byte < usize::MAX
}

/// Every feature of a list has a well-formed type.
pub open spec fn types_wf(features: Seq<Feature>) -> bool {
    forall|i: int| 0 <= i < features.len() ==> feature_type_wf(#[trigger] features[i].feature_type)
}

/// Index of the first feature whose bit cannot be read out of `data` (or the length when all can).
pub open spec fn first_unreadable(data: Seq<u8>, features: Seq<Feature>) -> int
    decreases features.len(),
{
    if features.len() == 0 {
        0
    } else if spec_extract(data, features[0].bit_position) is Err {
        0
    } else {
        1 + first_unreadable(data, features.drop_first())
    }
}

/// Bit-level facts about reading one bit of a byte.
pub proof fn lemma_bit_of_range(b: u8, bit: usize)
    requires
        bit <= 7,
    ensures
        bit_of(b, bit) <= 1,
{
    let s = bit as u8;
    assert((b >> s) & 1 <= 1) by (bit_vector);
}

impl AsBuiltDecoder {
    /// Decodes every feature of `block` from its data, in catalog order; fails with the
    /// error of the first feature whose bit cannot be read.
    pub fn decode_block(block: &AsBuiltBlock) -> (r: Result<Vec<FeatureValue>, Error>)
        requires
            positions_in_range(block.features@),
            types_wf(block.features@),
        ensures
            ({
                let k = first_unreadable(block.data@, block.features@);
                match r {
                    Ok(vs) => {
                        &&& k == block.features@.len()
                        &&& vs@.len() == block.features@.len()
                        &&& forall|i: int|
                            0 <= i < vs@.len() ==> #[trigger] spec_extract(
                                block.data@,
                                block.features@[i].bit_position,
                            ) == Ok::<u8, Error>(vs@[i].raw_value) && decodes_to(
                                vs@[i],
                                block.features@[i],
                                vs@[i].raw_value,
                            )
                    },
                    Err(e) => {
                        &&& 0 <= k < block.features@.len()
                        &&& spec_extract(block.data@, block.features@[k].bit_position) == Err::<
                            u8,
                            Error,
                        >(e)
                    },
                }
            }),
    {
        let mut values: Vec<FeatureValue> = Vec::new();
        let mut i: usize = 0;
        proof {
            lemma_first_unreadable_prefix(block.data@, block.features@, 0);
        }
        while i < block.features.len()
            invariant
                positions_in_range(block.features@),
                types_wf(block.features@),
                i <= block.features@.len(),
                values@.len() == i,
                i <= first_unreadable(block.data@, block.features@),
                forall|j: int|
                    0 <= j < i ==> #[trigger] spec_extract(
                        block.data@,
                        block.features@[j].bit_position,
                    ) == Ok::<u8, Error>(values@[j].raw_value) && decodes_to(
                        values@[j],
                        block.features@[j],
                        values@[j].raw_value,
                    ),
            decreases block.features@.len() - i,
        {
            let feature = &block.features[i];
            proof {
                lemma_first_unreadable_step(block.data@, block.features@, i as int);
            }
            let raw_value = match Self::extract_bit_value(&block.data, feature.bit_position) {
                Ok(v) => v,
                Err(e) => {
                    return Err(e);
                },
            };
            let interpreted_value = Self::interpret_value(&feature.feature_type, raw_value);
            values.push(FeatureValue { feature: feature.duplicate(), raw_value, interpreted_value });
            i = i + 1;
        }
        Ok(values)
    }

    /// Decodes one feature from raw block data.
    pub fn decode_feature(data: &[u8], feature: &Feature) -> (r: Result<FeatureValue, Error>)
        requires
            feature.bit_position.byte < usize::MAX,
            feature_type_wf(feature.feature_type),
        ensures
            match (r, spec_extract(data@, feature.bit_position)) {
                (Ok(v), Ok(raw)) => decodes_to(v, *feature, raw),
                (Err(e), Err(e2)) => e == e2,
                _ => false,
            },
    {
        let raw_value = Self::extract_bit_value(data, feature.bit_position)?;
        let interpreted_value = Self::interpret_value(&feature.feature_type, raw_value);
        Ok(FeatureValue { feature: feature.duplicate(), raw_value, interpreted_value })
    }

    /// Reads the single bit at `position` out of `data`.
    pub fn extract_bit_value(data: &[u8], position: BitPosition) -> (r: Result<u8, Error>)
        requires
            position.byte < usize::MAX,
        ensures
            r == spec_extract(data@, position),
            r matches Ok(v) ==> v <= 1,
    {
        if position.byte >= data.len() {
            return Err(Error::data_too_short(position.byte + 1, data.len()));
        }
        if position.bit > 7 {
            return Err(Error::invalid_bit_position(position.byte, position.bit));
        }
        let byte_value = data[position.byte];
        let shift = position.bit as u8;
        let bit_value = (byte_value >> shift) & 1;
        proof {
            lemma_bit_of_range(byte_value, position.bit);
        }
        Ok(bit_value)
    }

    /// Interprets a raw bit-field value according to the feature type.
    pub fn interpret_value(feature_type: &FeatureType, raw_value: u8) -> (r: String)
        requires
            feature_type_wf(*feature_type),
        ensures
            r@ == spec_interpret(*feature_type, raw_value),
    {
        match feature_type {
            FeatureType::Boolean { true_description, false_description } => {
                if raw_value != 0 {
                    true_description.clone()
                } else {
                    false_description.clone()
                }
            },
            FeatureType::Enumerated { values } => {
                match values.get(&raw_value) {
                    Some(v) => v.clone(),
                    None => {
                        let mut s = String::from_str("Unknown value: ");
                        push_decimal(&mut s, raw_value as u64);
                        s
                    },
                }
            },
            FeatureType::Numeric { min, max, unit } => {
                let clamped_value = if raw_value < *min {
                    *min
                } else if raw_value > *max {
                    *max
                } else {
                    raw_value
                };
                let mut s = String::new();
                push_decimal(&mut s, clamped_value as u64);
                match unit {
                    Some(u) => {
                        s.append(" ");
                        s.append(u.as_str());
                    },
                    None => {},
                }
                s
            },
        }
    }
}

/// The first unreadable index is within the list.
pub proof fn lemma_first_unreadable_prefix(data: Seq<u8>, features: Seq<Feature>, i: int)
    ensures
        0 <= first_unreadable(data, features) <= features.len(),
    decreases features.len(),
{
    if features.len() > 0 {
        lemma_first_unreadable_prefix(data, features.drop_first(), i);
    }
}

/// Before the first unreadable index every bit can be read; at it, reading fails.
pub proof fn lemma_first_unreadable_step(data: Seq<u8>, features: Seq<Feature>, i: int)
    requires
        0 <= i < features.len(),
        i <= first_unreadable(data, features),
    ensures
        i < first_unreadable(data, features) <==> spec_extract(
            data,
            features[i].bit_position,
        ) is Ok,
    decreases i,
{
    lemma_first_unreadable_prefix(data, features, 0);
    lemma_first_unreadable_prefix(data, features.drop_first(), 0);
    if i > 0 {
        assert(spec_extract(data, features[0].bit_position) is Ok);
        assert(first_unreadable(data, features) == 1 + first_unreadable(data, features.drop_first()));
        lemma_first_unreadable_step(data, features.drop_first(), i - 1);
        assert(features.drop_first()[i - 1] == features[i]);
    } else {
        if spec_extract(data, features[0].bit_position) is Ok {
            assert(first_unreadable(data, features) == 1 + first_unreadable(data, features.drop_first()));
        } else {
            assert(first_unreadable(data, features) == 0);
        }
    }
}

} // verus!
