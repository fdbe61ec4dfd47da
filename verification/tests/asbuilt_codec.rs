use faraday::asbuilt::decoder::AsBuiltDecoder;
use faraday::asbuilt::encoder::AsBuiltEncoder;
use faraday::asbuilt::{bcm, BitPosition, Feature, FeatureType};
use std::collections::HashMap;

#[test]
fn test_extract_bit_value() {
    let data = vec![0b10101010, 0b11110000];

    assert_eq!(AsBuiltDecoder::extract_bit_value(&data, BitPosition { byte: 0, bit: 0 }).unwrap(), 0);
    assert_eq!(AsBuiltDecoder::extract_bit_value(&data, BitPosition { byte: 0, bit: 1 }).unwrap(), 1);
    assert_eq!(AsBuiltDecoder::extract_bit_value(&data, BitPosition { byte: 0, bit: 7 }).unwrap(), 1);

    assert_eq!(AsBuiltDecoder::extract_bit_value(&data, BitPosition { byte: 1, bit: 0 }).unwrap(), 0);
    assert_eq!(AsBuiltDecoder::extract_bit_value(&data, BitPosition { byte: 1, bit: 4 }).unwrap(), 1);
}

#[test]
fn test_interpret_boolean() {
    let feature_type = FeatureType::Boolean {
        true_description: "Enabled".to_string(),
        false_description: "Disabled".to_string(),
    };

    assert_eq!(AsBuiltDecoder::interpret_value(&feature_type, 1), "Enabled");
    assert_eq!(AsBuiltDecoder::interpret_value(&feature_type, 0), "Disabled");
}

#[test]
fn test_interpret_enumerated() {
    let mut values = HashMap::new();
    values.insert(0, "Off".to_string());
    values.insert(1, "On".to_string());
    values.insert(2, "Auto".to_string());

    let feature_type = FeatureType::Enumerated { values };

    assert_eq!(AsBuiltDecoder::interpret_value(&feature_type, 0), "Off");
    assert_eq!(AsBuiltDecoder::interpret_value(&feature_type, 2), "Auto");
    assert_eq!(AsBuiltDecoder::interpret_value(&feature_type, 5), "Unknown value: 5");
}

#[test]
fn interpret_numeric_clamps_and_appends_unit() {
    let with_unit = FeatureType::Numeric { min: 2, max: 9, unit: Some("s".to_string()) };
    assert_eq!(AsBuiltDecoder::interpret_value(&with_unit, 1), "2 s");
    assert_eq!(AsBuiltDecoder::interpret_value(&with_unit, 5), "5 s");
    assert_eq!(AsBuiltDecoder::interpret_value(&with_unit, 200), "9 s");
    let bare = FeatureType::Numeric { min: 0, max: 15, unit: None };
    assert_eq!(AsBuiltDecoder::interpret_value(&bare, 7), "7");
}

#[test]
fn extract_bit_value_reports_short_data_and_bad_bits() {
    let data = vec![0xFFu8];
    let short = AsBuiltDecoder::extract_bit_value(&data, BitPosition { byte: 1, bit: 0 });
    assert_eq!(
        short.unwrap_err().to_string(),
        "Data too short: expected at least 2 bytes, got 1"
    );
    let bad = AsBuiltDecoder::extract_bit_value(&data, BitPosition { byte: 0, bit: 8 });
    assert_eq!(bad.unwrap_err().to_string(), "Invalid bit position: byte 0, bit 8");
}

#[test]
fn decode_block_reads_every_feature() {
    let mut block = bcm::create_block_726_01();
    block.data = vec![0x00, 0x00, 0x00, 0x04, 0x03, 0x00, 0x00, 0x00];
    let values = AsBuiltDecoder::decode_block(&block).unwrap();
    assert_eq!(values.len(), 3);
    assert_eq!(values[0].raw_value, 1);
    assert_eq!(values[0].interpreted_value, "DRL Enabled");
    assert_eq!(values[1].raw_value, 0);
    assert_eq!(values[1].interpreted_value, "Manual Headlights Only");
    assert_eq!(values[2].raw_value, 1);
    assert_eq!(values[2].interpreted_value, "1 seconds");
}

#[test]
fn decode_block_fails_on_short_data() {
    let mut block = bcm::create_block_726_01();
    block.data = vec![0x00, 0x00];
    assert!(AsBuiltDecoder::decode_block(&block).is_err());
}

#[test]
fn set_bit_value_sets_bit_to_one() {
    let mut data = vec![0b0000_0000u8, 0b0000_0000u8];
    AsBuiltEncoder::set_bit_value(&mut data, BitPosition { byte: 0, bit: 3 }, 1).unwrap();
    assert_eq!(data[0], 0b0000_1000);
}

#[test]
fn set_bit_value_clears_bit_to_zero() {
    let mut data = vec![0b1111_1111u8];
    AsBuiltEncoder::set_bit_value(&mut data, BitPosition { byte: 0, bit: 5 }, 0).unwrap();
    assert_eq!(data[0], 0b1101_1111);
}

#[test]
fn set_then_read_roundtrips() {
    let mut data = vec![0u8; 4];
    let pos = BitPosition { byte: 2, bit: 6 };
    AsBuiltEncoder::set_bit_value(&mut data, pos, 1).unwrap();
    assert_eq!((data[2] >> 6) & 1, 1);

    AsBuiltEncoder::set_bit_value(&mut data, pos, 0).unwrap();
    assert_eq!((data[2] >> 6) & 1, 0);
}

fn feature_of(feature_type: FeatureType) -> Feature {
    Feature {
        name: "test".to_string(),
        description: "test".to_string(),
        bit_position: BitPosition { byte: 0, bit: 0 },
        feature_type,
    }
}

#[test]
fn validate_boolean_rejects_value_above_one() {
    let feature_type = FeatureType::Boolean {
        true_description: "On".to_string(),
        false_description: "Off".to_string(),
    };
    let mut data = vec![0u8];
    let feature = feature_of(feature_type);
    assert!(AsBuiltEncoder::encode_feature(&mut data, &feature, 2).is_err());
}

#[test]
fn validate_enumerated_rejects_unknown_variant() {
    let mut values = HashMap::new();
    values.insert(0u8, "Off".to_string());
    values.insert(1u8, "On".to_string());
    let feature_type = FeatureType::Enumerated { values };
    let mut data = vec![0u8];
    let feature = feature_of(feature_type);
    assert!(AsBuiltEncoder::encode_feature(&mut data, &feature, 5).is_err());
}

#[test]
fn validate_numeric_rejects_out_of_range() {
    let feature_type = FeatureType::Numeric { min: 1, max: 5, unit: None };
    let mut data = vec![0u8];
    let feature = feature_of(feature_type);
    assert!(AsBuiltEncoder::encode_feature(&mut data, &feature, 0).is_err());
    assert!(AsBuiltEncoder::encode_feature(&mut data, &feature, 6).is_err());
}

#[test]
fn rejection_messages_name_the_value() {
    let boolean = feature_of(FeatureType::Boolean {
        true_description: "On".to_string(),
        false_description: "Off".to_string(),
    });
    let mut data = vec![0u8];
    let e = AsBuiltEncoder::encode_feature(&mut data, &boolean, 2).unwrap_err();
    assert_eq!(e.to_string(), "Invalid block data: boolean feature expects 0 or 1, got 2");
    let numeric = feature_of(FeatureType::Numeric { min: 1, max: 5, unit: None });
    let e = AsBuiltEncoder::encode_feature(&mut data, &numeric, 6).unwrap_err();
    assert_eq!(e.to_string(), "Invalid block data: numeric value 6 out of range [1, 5]");
    assert_eq!(data, vec![0u8]);
}

#[test]
fn write_keeps_the_other_bits() {
    let mut data = vec![0b1010_0101u8, 0x3C];
    AsBuiltEncoder::set_bit_value(&mut data, BitPosition { byte: 0, bit: 1 }, 1).unwrap();
    assert_eq!(data, vec![0b1010_0111u8, 0x3C]);
    for bit in 0..8 {
        let before = (0b1010_0101u8 >> bit) & 1;
        let after = AsBuiltDecoder::extract_bit_value(&data, BitPosition { byte: 0, bit }).unwrap();
        if bit == 1 {
            assert_eq!(after, 1);
        } else {
            assert_eq!(after, before);
        }
    }
}

#[test]
fn writing_twice_is_writing_once() {
    let mut once = vec![0x5Au8];
    let mut twice = vec![0x5Au8];
    let pos = BitPosition { byte: 0, bit: 7 };
    AsBuiltEncoder::set_bit_value(&mut once, pos, 1).unwrap();
    AsBuiltEncoder::set_bit_value(&mut twice, pos, 1).unwrap();
    AsBuiltEncoder::set_bit_value(&mut twice, pos, 1).unwrap();
    assert_eq!(once, twice);
}

#[test]
fn set_bit_value_refuses_positions_outside_the_data() {
    let mut data = vec![0u8; 2];
    let e = AsBuiltEncoder::set_bit_value(&mut data, BitPosition { byte: 2, bit: 0 }, 1).unwrap_err();
    assert_eq!(e.to_string(), "Data too short: expected at least 3 bytes, got 2");
    assert!(AsBuiltEncoder::set_bit_value(&mut data, BitPosition { byte: 0, bit: 9 }, 1).is_err());
    assert_eq!(data, vec![0u8; 2]);
}
