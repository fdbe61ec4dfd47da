use faraday::asbuilt::{bcm, ipc, pcm, BitPosition, Feature, FeatureType};
use faraday::cli::args::{
    command_label, dtc_kinds, parse_did_arg, parse_pid_arg, AsBuiltAction, Commands, ModuleArg,
    ProfileAction, SessionArg,
};
use faraday::cli::asbuilt::{
    find_feature, known_blocks, module_from_can_id, module_name, parse_module_arg, parse_value,
    prepare_write, snapshot_file_name,
};
use faraday::cli::audit::{audit_entry, data_dir, outcome, snapshot_dir, AuditOperation};
use faraday::cli::output::{did_line, feature_line, raw_pid_line};
use faraday::cli::profile::{
    apply_summary, validate_profile, validation_failure, ModuleCheck, ProfileModule,
    ProfileSetting,
};
use faraday::asbuilt::decoder::AsBuiltDecoder;
use faraday::protocol::uds::DiagnosticSession;
use faraday::{DtcKind, Module};
use std::collections::HashMap;

#[test]
fn known_blocks_per_module() {
    assert_eq!(known_blocks(ModuleArg::Bcm).len(), bcm::get_known_blocks().len());
    assert_eq!(known_blocks(ModuleArg::Ipc).len(), ipc::get_known_blocks().len());
    assert_eq!(known_blocks(ModuleArg::Pcm).len(), pcm::get_known_blocks().len());
    assert!(known_blocks(ModuleArg::Abs).is_empty());
}

#[test]
fn find_feature_returns_owning_block() {
    let (block, feature) = find_feature(known_blocks(ModuleArg::Bcm), "unlock_beeps").unwrap();
    assert_eq!(block.did, 0x0702);
    assert_eq!(feature.name, "unlock_beeps");
    assert!(find_feature(known_blocks(ModuleArg::Bcm), "nonexistent").is_none());
}

#[test]
fn parse_boolean_words() {
    let (_, drl) = find_feature(known_blocks(ModuleArg::Bcm), "drl_enabled").unwrap();
    for w in ["true", "1", "ON", "Enabled", "yes"] {
        assert_eq!(parse_value(&drl, w).unwrap(), 1);
    }
    for w in ["false", "0", "off", "DISABLED", "No"] {
        assert_eq!(parse_value(&drl, w).unwrap(), 0);
    }
    assert_eq!(
        parse_value(&drl, "maybe").unwrap_err(),
        "invalid boolean value 'maybe': use true/false/on/off/1/0"
    );
}

#[test]
fn parse_enumerated_names_numbers_and_options() {
    let (_, units) = find_feature(known_blocks(ModuleArg::Ipc), "speed_units").unwrap();
    assert_eq!(parse_value(&units, "MPH").unwrap(), 1);
    assert_eq!(parse_value(&units, "km/h").unwrap(), 0);
    assert_eq!(parse_value(&units, "mph").unwrap(), 1);
    assert_eq!(parse_value(&units, "0").unwrap(), 0);
    assert_eq!(parse_value(&units, "1").unwrap(), 1);
    assert_eq!(
        parse_value(&units, "9").unwrap_err(),
        "invalid value '9': options are 0=km/h, 1=mph"
    );
    assert_eq!(
        parse_value(&units, "7").unwrap_err(),
        "invalid value '7': options are 0=km/h, 1=mph"
    );
    assert_eq!(
        parse_value(&units, "knots").unwrap_err(),
        "invalid value 'knots': options are 0=km/h, 1=mph"
    );
}

#[test]
fn parse_numeric_range() {
    let (_, idle) = find_feature(known_blocks(ModuleArg::Pcm), "idle_speed_offset").unwrap();
    assert_eq!(parse_value(&idle, "12").unwrap(), 12);
    assert_eq!(parse_value(&idle, "+3").unwrap(), 3);
    assert_eq!(parse_value(&idle, "16").unwrap_err(), "value 16 out of range [0, 15]");
    assert_eq!(parse_value(&idle, "256").unwrap_err(), "'256' is not a valid number");
    assert_eq!(parse_value(&idle, "-1").unwrap_err(), "'-1' is not a valid number");
    assert_eq!(parse_value(&idle, "").unwrap_err(), "'' is not a valid number");
}

#[test]
fn prepare_write_encodes_into_the_current_block() {
    let (_, drl) = find_feature(known_blocks(ModuleArg::Bcm), "drl_enabled").unwrap();
    let current = vec![0u8; 8];
    let (raw, new_data) = prepare_write(&drl, "on", &current).unwrap();
    assert_eq!(raw, 1);
    assert_eq!(new_data, vec![0, 0, 0, 0x04, 0, 0, 0, 0]);
    let e = prepare_write(&drl, "on", &[0u8; 2]).unwrap_err();
    assert_eq!(e, "encode error: Data too short: expected at least 4 bytes, got 2");
    let (_, fuel) = find_feature(known_blocks(ModuleArg::Pcm), "fuel_type").unwrap();
    let e = prepare_write(&fuel, "9", &current).unwrap_err();
    assert_eq!(
        e,
        "invalid value '9': options are 0=Regular Gasoline, 1=Premium Gasoline, 2=Flex Fuel (E85)"
    );
    let (raw, _) = prepare_write(&fuel, "2", &current).unwrap();
    assert_eq!(raw, 2);
}

#[test]
fn module_names_and_can_ids() {
    assert_eq!(module_name(ModuleArg::Pscm), "pscm");
    assert_eq!(module_from_can_id("7e0"), Some(Module::Pcm));
    assert_eq!(module_from_can_id("726"), Some(Module::Bcm));
    assert_eq!(module_from_can_id("754"), Some(Module::Dsm));
    assert_eq!(module_from_can_id("7E8"), None);
    assert_eq!(parse_module_arg("BCM"), Some(ModuleArg::Bcm));
    assert_eq!(parse_module_arg("hvac"), None);
    assert_eq!(Module::from(ModuleArg::Apim), Module::Apim);
    assert_eq!(DiagnosticSession::from(SessionArg::Programming), DiagnosticSession::Programming);
}

#[test]
fn snapshot_names_and_dirs() {
    assert_eq!(
        snapshot_file_name(ModuleArg::Bcm, "2024-05-01T10:20:30Z"),
        "bcm_2024-05-01T10-20-30Z.json"
    );
    assert_eq!(data_dir(Some("/x/data"), Some("/home/u")), "/x/data/faraday");
    assert_eq!(data_dir(None, Some("/home/u")), "/home/u/.local/share/faraday");
    assert_eq!(data_dir(None, None), "./faraday");
    assert_eq!(data_dir(Some("/x/"), None), "/x/faraday");
    assert_eq!(snapshot_dir("/d/faraday"), "/d/faraday/snapshots");
}

#[test]
fn command_labels() {
    let read = Commands::ReadDid { module: ModuleArg::Pcm, did: "F190".to_string() };
    assert_eq!(command_label(&read), "read-did F190");
    let show = Commands::Asbuilt {
        action: AsBuiltAction::Show { module: ModuleArg::Bcm, feature: "drl_enabled".to_string() },
    };
    assert_eq!(command_label(&show), "asbuilt show drl_enabled");
    let validate = Commands::Profile { action: ProfileAction::Validate { file: "p.yaml".to_string() } };
    assert_eq!(command_label(&validate), "profile validate p.yaml");
    assert_eq!(command_label(&Commands::ClearDtc { module: ModuleArg::Pcm }), "clear-dtc");
}

#[test]
fn dtc_kinds_default_to_all() {
    assert_eq!(dtc_kinds(false, false, false), vec![DtcKind::Stored, DtcKind::Pending, DtcKind::Permanent]);
    assert_eq!(dtc_kinds(false, true, false), vec![DtcKind::Pending]);
    assert_eq!(dtc_kinds(true, false, true), vec![DtcKind::Stored, DtcKind::Permanent]);
}

#[test]
fn pid_and_did_arguments() {
    assert_eq!(parse_pid_arg("0C"), Some(0x0C));
    assert_eq!(parse_pid_arg("0x0D"), Some(0x0D));
    assert_eq!(parse_pid_arg("0x0x05"), Some(0x05));
    assert_eq!(parse_pid_arg("100"), None);
    assert_eq!(parse_did_arg("F190"), Some(0xF190));
    assert_eq!(parse_did_arg("0xf18c"), Some(0xF18C));
    assert_eq!(parse_did_arg("G1"), None);
}

#[test]
fn profile_validation_reports_each_setting() {
    let modules = vec![
        ProfileModule {
            module: "BCM".to_string(),
            settings: vec![
                ProfileSetting { feature: "drl_enabled".to_string(), value: "true".to_string() },
                ProfileSetting { feature: "unlock_beeps".to_string(), value: "Nine".to_string() },
                ProfileSetting { feature: "horn".to_string(), value: "1".to_string() },
            ],
        },
        ProfileModule { module: "xyz".to_string(), settings: vec![] },
    ];
    let checks = validate_profile(&modules);
    assert_eq!(checks.len(), 2);
    match &checks[0] {
        ModuleCheck::Checked(v) => {
            assert_eq!(v[0].as_ref().unwrap(), "  ok  BCM.drl_enabled = true");
            assert_eq!(
                v[1].as_ref().unwrap_err(),
                "BCM.unlock_beeps = Nine: invalid value 'Nine': options are 0=No Beeps, 1=Single Beep, 2=Double Beep, 3=Triple Beep"
            );
            assert_eq!(v[2].as_ref().unwrap_err(), "unknown feature: BCM.horn");
        }
        _ => panic!("BCM not checked"),
    }
    match &checks[1] {
        ModuleCheck::UnknownModule(e) => assert_eq!(e, "unknown module: xyz"),
        _ => panic!("unknown module accepted"),
    }
    assert_eq!(validation_failure(3), "profile validation failed (3 errors)");
    assert_eq!(apply_summary(2, 1), "Summary: 2 written, 1 failed");
}

#[test]
fn audit_records_and_outcomes() {
    let e = audit_entry(
        "t".to_string(),
        AuditOperation::Restore,
        Module::Bcm,
        0x0701,
        &[0x00, 0xAB],
        &[0x04, 0xAB],
        false,
        "ok",
    );
    assert_eq!(e.module, "Bcm");
    assert_eq!(e.before_hex, "00AB");
    assert_eq!(e.after_hex, "04AB");
    assert_eq!(outcome(None), "ok");
    assert_eq!(outcome(Some("boom")), "error: boom");
}

#[test]
fn output_lines() {
    assert_eq!(did_line(0xF190, &[0x31, 0xAB]), "DID F190: 31AB");
    assert_eq!(raw_pid_line(0xA6, &[0xAB, 0x01]), "PID A6: ab01 (raw)");
    let mut block = bcm::create_block_726_01();
    block.data = vec![0, 0, 0, 0x04, 0, 0, 0, 0];
    let values = AsBuiltDecoder::decode_block(&block).unwrap();
    assert_eq!(feature_line(&values[0]), "drl_enabled: DRL Enabled (raw: 1)");
}

#[test]
fn enumerated_parse_picks_the_smallest_matching_key() {
    let mut values = HashMap::new();
    values.insert(9u8, "Same".to_string());
    values.insert(3u8, "SAME".to_string());
    let f = Feature {
        name: "f".to_string(),
        description: "f".to_string(),
        bit_position: BitPosition { byte: 0, bit: 0 },
        feature_type: FeatureType::Enumerated { values },
    };
    assert_eq!(parse_value(&f, "same").unwrap(), 3);
}
