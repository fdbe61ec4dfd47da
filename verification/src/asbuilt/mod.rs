//! As-built configuration data for the 2017 Fusion SEL: block catalogs of the BCM, IPC
//! and PCM, and the bit-field decoder and encoder of their features.

pub mod bcm;
pub mod catalog;
pub mod decoder;
pub mod encoder;
pub mod error;
pub mod ipc;
pub mod pcm;
pub mod types;

pub use error::Error;
pub use types::{
    AsBuiltBlock, AsBuiltSnapshot, BitPosition, BlockId, Feature, FeatureType, FeatureValue,
};
