//! Core data types for as-built block catalogs and feature decoding.

use std::collections::HashMap;
use vstd::prelude::*;

verus! {

/// Uniquely identifies an as-built block by module CAN ID and block index.
#[derive(Debug, Clone, PartialEq, Eq, Hash)]
pub struct BlockId {
    /// CAN ID of the ECU module (e.g. `"726"` for BCM).
    pub module: String,
    /// Block index within the module (e.g. `"01"`).
    pub id: String,
}

impl BlockId {
    /// Creates a new [`BlockId`] from the given module CAN ID and block index.
    pub fn new(module: &str, id: &str) -> (r: BlockId)
        ensures
            r.module@ == module@,
            r.id@ == id@,
    {
        BlockId { module: String::from_str(module), id: String::from_str(id) }
    }

    /// The `"<module>-<id>"` rendering of the identifier.
    pub fn to_string(&self) -> (r: String)
        ensures
            r@ == self.module@ + "-"@ + self.id@,
    {
        let mut s = self.module.clone();
        s.append("-");
        s.append(self.id.as_str());
        s
    }
}

/// One as-built block read from a vehicle ECU, along with its feature catalog.
#[derive(Debug, Clone)]
pub struct AsBuiltBlock {
    /// Logical identifier for this block (module + index).
    pub id: BlockId,
    /// Human-readable description of the block's purpose.
    pub description: String,
    /// UDS Data Identifier used to read and write this block.
    pub did: u16,
    /// Raw bytes returned by the ECU for this block.
    pub data: Vec<u8>,
    /// Catalog of features encoded in this block.
    pub features: Vec<Feature>,
}

/// A configurable feature encoded as a bit field within an as-built block.
#[derive(Debug, Clone)]
pub struct Feature {
    /// Short machine-readable name used for CLI lookup (e.g. `"drl_enabled"`).
    pub name: String,
    /// Human-readable description of the feature.
    pub description: String,
    /// Location of the bit field within the block data.
    pub bit_position: BitPosition,
    /// Type and valid values for this feature.
    pub feature_type: FeatureType,
}

/// Location of a feature's bit field within a byte array.
#[derive(Debug, Clone, Copy, PartialEq, Eq, Structural)]
pub struct BitPosition {
    /// Zero-based byte index within the block data.
    pub byte: usize,
    /// Bit index within the byte (0 = LSB, 7 = MSB).
    pub bit: usize,
}

/// Describes the valid encoding for a feature's bit field.
#[derive(Debug, Clone)]
pub enum FeatureType {
    /// A single-bit on/off flag.
    Boolean { true_description: String, false_description: String },
    /// A multi-bit field mapping raw values to named variants.
    Enumerated { values: HashMap<u8, String> },
    /// A numeric field with an inclusive valid range and optional unit.
    Numeric { min: u8, max: u8, unit: Option<String> },
}

/// A decoded feature value along with its source feature definition.
#[derive(Debug, Clone)]
pub struct FeatureValue {
    /// The feature definition that produced this value.
    pub feature: Feature,
    /// Raw bit-field value extracted from the block data.
    pub raw_value: u8,
    /// Human-readable interpretation of the raw value.
    pub interpreted_value: String,
}

/// A point-in-time snapshot of one or more as-built blocks read from a vehicle.
#[derive(Debug, Clone)]
pub struct AsBuiltSnapshot {
    /// ISO 8601 timestamp when the snapshot was taken.
    pub timestamp: String,
    /// Vehicle VIN, if available at snapshot time.
    pub vehicle_vin: Option<String>,
    /// As-built blocks included in this snapshot.
    pub blocks: Vec<AsBuiltBlock>,
}

/// A feature type is usable for decoding when a numeric range is not empty.
pub open spec fn feature_type_wf(t: FeatureType) -> bool {
    match t {
        FeatureType::Numeric { min, max, .. } => min <= max,
        _ => true,
    }
}

/// Two optional strings carry the same text.
pub open spec fn same_opt_string(a: Option<String>, b: Option<String>) -> bool {
    match (a, b) {
        (Some(x), Some(y)) => x@ == y@,
        (None, None) => true,
        _ => false,
    }
}

/// Two feature types describe the same encoding (texts compared by content).
pub open spec fn same_feature_type(a: FeatureType, b: FeatureType) -> bool {
    match (a, b) {
        (
            FeatureType::Boolean { true_description: t1, false_description: f1 },
            FeatureType::Boolean { true_description: t2, false_description: f2 },
        ) => t1@ == t2@ && f1@ == f2@,
        (FeatureType::Enumerated { values: v1 }, FeatureType::Enumerated { values: v2 }) => {
            &&& v1@.dom() == v2@.dom()
            &&& forall|k: u8| #[trigger] v1@.contains_key(k) ==> v1@[k]@ == v2@[k]@
        },
        (
            FeatureType::Numeric { min: a1, max: b1, unit: u1 },
            FeatureType::Numeric { min: a2, max: b2, unit: u2 },
        ) => a1 == a2 && b1 == b2 && same_opt_string(u1, u2),
        _ => false,
    }
}

/// Two features are copies of each other.
pub open spec fn same_feature(a: Feature, b: Feature) -> bool {
    &&& a.name@ == b.name@
    &&& a.description@ == b.description@
    &&& a.bit_position == b.bit_position
    &&& same_feature_type(a.feature_type, b.feature_type)
}

impl FeatureType {
    /// A copy of the feature type.
    pub fn duplicate(&self) -> (r: FeatureType)
        ensures
            same_feature_type(r, *self),
    {
        match self {
            FeatureType::Boolean { true_description, false_description } => FeatureType::Boolean {
                true_description: true_description.clone(),
                false_description: false_description.clone(),
            },
            FeatureType::Enumerated { values } => FeatureType::Enumerated { values: values.clone() },
            FeatureType::Numeric { min, max, unit } => {
                let u = match unit {
                    Some(s) => Some(s.clone()),
                    None => None,
                };
                FeatureType::Numeric { min: *min, max: *max, unit: u }
            },
        }
    }
}

impl Feature {
    /// A copy of the feature.
    pub fn duplicate(&self) -> (r: Feature)
        ensures
            same_feature(r, *self),
    {
        Feature {
            name: self.name.clone(),
            description: self.description.clone(),
            bit_position: self.bit_position,
            feature_type: self.feature_type.duplicate(),
        }
    }
}

} // verus!
