use faraday::asbuilt::{bcm, ipc, pcm};
use faraday::asbuilt::catalog::all_features;

#[test]
fn bcm_test_get_known_blocks() {
    let blocks = bcm::get_known_blocks();
    assert_eq!(blocks.len(), 2);
    assert_eq!(blocks[0].id.to_string(), "726-01");
    assert_eq!(blocks[1].id.to_string(), "726-02");
}

#[test]
fn bcm_test_get_block_by_id() {
    let block = bcm::get_block_by_id("01").unwrap();
    assert_eq!(block.id.to_string(), "726-01");
    assert!(block.description.contains("Lighting"));
}

#[test]
fn test_block_726_01_features() {
    let block = bcm::create_block_726_01();
    assert_eq!(block.features.len(), 3);

    let drl_feature = &block.features[0];
    assert_eq!(drl_feature.name, "drl_enabled");
    assert_eq!(drl_feature.bit_position.byte, 3);
    assert_eq!(drl_feature.bit_position.bit, 2);
}

#[test]
fn bcm_test_block_dids() {
    let blocks = bcm::get_known_blocks();
    assert_eq!(blocks[0].did, 0x0701);
    assert_eq!(blocks[1].did, 0x0702);
}

#[test]
fn ipc_test_get_known_blocks() {
    let blocks = ipc::get_known_blocks();
    assert_eq!(blocks.len(), 3);
    assert_eq!(blocks[0].id.to_string(), "720-01");
    assert_eq!(blocks[1].id.to_string(), "720-02");
    assert_eq!(blocks[2].id.to_string(), "720-04");
}

#[test]
fn ipc_test_get_block_by_id() {
    let block = ipc::get_block_by_id("01").unwrap();
    assert_eq!(block.id.to_string(), "720-01");
    assert!(block.description.contains("Display Settings"));
}

#[test]
fn test_block_720_01_features() {
    let block = ipc::create_block_720_01();
    assert_eq!(block.features.len(), 4);

    let digital_speedo_feature = &block.features[0];
    assert_eq!(digital_speedo_feature.name, "show_digital_speedometer");
    assert_eq!(digital_speedo_feature.bit_position.byte, 2);
    assert_eq!(digital_speedo_feature.bit_position.bit, 1);
}

#[test]
fn ipc_test_block_dids() {
    let blocks = ipc::get_known_blocks();
    assert_eq!(blocks[0].did, 0x0101);
    assert_eq!(blocks[1].did, 0x0102);
    assert_eq!(blocks[2].did, 0x0401);
}

#[test]
fn test_block_720_04_tpms_feature() {
    let block = ipc::create_block_720_04();
    assert_eq!(block.features.len(), 1);
    assert_eq!(block.features[0].name, "tpms_display_units");
    assert_eq!(block.features[0].bit_position.byte, 0);
}

#[test]
fn pcm_test_get_known_blocks() {
    let blocks = pcm::get_known_blocks();
    assert_eq!(blocks.len(), 1);
    assert_eq!(blocks[0].id.to_string(), "7E0-01");
}

#[test]
fn pcm_test_get_block_by_id() {
    let block = pcm::get_block_by_id("01").unwrap();
    assert_eq!(block.id.to_string(), "7E0-01");
    assert!(block.description.contains("Engine Parameters"));
}

#[test]
fn test_block_7e0_01_features() {
    let block = pcm::create_block_7e0_01();
    assert_eq!(block.features.len(), 3);

    let fuel_type_feature = &block.features[0];
    assert_eq!(fuel_type_feature.name, "fuel_type");
    assert_eq!(fuel_type_feature.bit_position.byte, 2);
    assert_eq!(fuel_type_feature.bit_position.bit, 0);
}

#[test]
fn unknown_block_ids_are_not_found() {
    assert!(bcm::get_block_by_id("03").is_none());
    assert!(ipc::get_block_by_id("03").is_none());
    assert!(pcm::get_block_by_id("02").is_none());
}

#[test]
fn all_features_are_listed_in_catalog_order() {
    let names: Vec<String> = bcm::get_all_features().into_iter().map(|f| f.name).collect();
    assert_eq!(
        names,
        vec![
            "drl_enabled",
            "auto_headlights",
            "welcome_lighting",
            "auto_lock_on_drive",
            "unlock_beeps",
            "remote_start_enabled"
        ]
    );
    assert_eq!(ipc::get_all_features().len(), 9);
    assert_eq!(pcm::get_all_features().len(), 3);
    assert_eq!(all_features(ipc::get_known_blocks()).len(), 9);
}
