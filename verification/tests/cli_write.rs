use faraday::asbuilt::{AsBuiltBlock, BlockId};
use faraday::cli::args::ModuleArg;
use faraday::cli::asbuilt_write::{
    FeatureWrite, RestoreStep, SnapshotRestore, WriteOutcome, WriteStep,
};
use faraday::cli::profile::{count_settings, ApplyStep, ProfileApply, ProfileModule, ProfileSetting};
use faraday::{Error, Module};

fn started(module: ModuleArg, feature: &str, value: &str, dry_run: bool, yes: bool) -> (FeatureWrite, WriteStep) {
    match FeatureWrite::start(module, feature, value, dry_run, yes) {
        Ok(p) => p,
        Err(m) => panic!("write not started: {}", m),
    }
}

#[test]
fn feature_write_runs_review_snapshot_write_audit_in_order() {
    let (mut w, step) = started(ModuleArg::Bcm, "drl_enabled", "true", false, true);
    assert!(matches!(step, WriteStep::ReadBlock { module: Module::Bcm, did: 0x0701 }));
    let step = w.on_block_read(Ok(vec![0x00; 8]));
    assert!(matches!(step, WriteStep::Review { ask: false }));
    assert_eq!(w.before(), &[0x00; 8]);
    assert_eq!(w.after(), &[0x00, 0x00, 0x00, 0x04, 0x00, 0x00, 0x00, 0x00]);
    assert_eq!(w.block().data, vec![0x00; 8]);
    assert!(matches!(w.on_reviewed(true), WriteStep::SaveSnapshot));
    match w.on_snapshot_saved(Ok(())) {
        WriteStep::WriteBlock { module, did, data } => {
            assert_eq!(module, Module::Bcm);
            assert_eq!(did, 0x0701);
            assert_eq!(data, vec![0x00, 0x00, 0x00, 0x04, 0x00, 0x00, 0x00, 0x00]);
        }
        other => panic!("expected a write, got {:?}", other),
    }
    match w.on_written(Ok(())) {
        WriteStep::Audit { dry_run, result } => {
            assert!(!dry_run);
            assert_eq!(result, "ok");
        }
        other => panic!("expected an audit, got {:?}", other),
    }
    assert!(matches!(w.on_audited(Ok(())), WriteStep::Finished(Ok(WriteOutcome::Written))));
    assert_eq!(w.module(), Module::Bcm);
}

#[test]
fn feature_write_dry_run_saves_and_audits_without_writing() {
    let (mut w, _) = started(ModuleArg::Ipc, "speed_units", "mph", true, false);
    assert!(matches!(w.on_block_read(Ok(vec![0x00; 8])), WriteStep::Review { ask: false }));
    assert!(matches!(w.on_reviewed(true), WriteStep::SaveSnapshot));
    match w.on_snapshot_saved(Ok(())) {
        WriteStep::Audit { dry_run, result } => {
            assert!(dry_run);
            assert_eq!(result, "ok");
        }
        other => panic!("expected the dry-run audit, got {:?}", other),
    }
    assert!(matches!(w.on_audited(Ok(())), WriteStep::Finished(Ok(WriteOutcome::DryRun))));
}

#[test]
fn feature_write_declined_is_aborted() {
    let (mut w, _) = started(ModuleArg::Bcm, "auto_lock_on_drive", "off", false, false);
    assert!(matches!(w.on_block_read(Ok(vec![0xFF; 8])), WriteStep::Review { ask: true }));
    assert_eq!(w.after(), &[0xFF, 0xF7, 0xFF, 0xFF, 0xFF, 0xFF, 0xFF, 0xFF]);
    assert!(matches!(w.on_reviewed(false), WriteStep::Finished(Ok(WriteOutcome::Aborted))));
}

#[test]
fn feature_write_refusals() {
    match FeatureWrite::start(ModuleArg::Bcm, "warp_drive", "on", false, true) {
        Err(m) => assert_eq!(m, "unknown feature: warp_drive"),
        Ok(_) => panic!("unknown feature accepted"),
    }
    match FeatureWrite::start(ModuleArg::Abs, "drl_enabled", "on", false, true) {
        Err(m) => assert_eq!(m, "unknown feature: drl_enabled"),
        Ok(_) => panic!("feature found in a module without catalog"),
    }

    let (mut w, _) = started(ModuleArg::Bcm, "drl_enabled", "maybe", false, true);
    match w.on_block_read(Ok(vec![0x00; 8])) {
        WriteStep::Finished(Err(m)) => {
            assert_eq!(m, "invalid boolean value 'maybe': use true/false/on/off/1/0")
        }
        other => panic!("bad value accepted: {:?}", other),
    }

    let (mut w, _) = started(ModuleArg::Bcm, "drl_enabled", "on", false, true);
    match w.on_block_read(Err(Error::Timeout)) {
        WriteStep::Finished(Err(m)) => assert_eq!(m, "Timeout waiting for response"),
        other => panic!("failed read not reported: {:?}", other),
    }

    let (mut w, _) = started(ModuleArg::Bcm, "drl_enabled", "on", false, true);
    match w.on_block_read(Ok(vec![0x00; 2])) {
        WriteStep::Finished(Err(m)) => {
            assert_eq!(m, "encode error: Data too short: expected at least 4 bytes, got 2")
        }
        other => panic!("short block accepted: {:?}", other),
    }
}

#[test]
fn feature_write_failures_after_review() {
    let (mut w, _) = started(ModuleArg::Bcm, "drl_enabled", "on", false, true);
    w.on_block_read(Ok(vec![0x00; 8]));
    w.on_reviewed(true);
    match w.on_snapshot_saved(Err("disk full".to_string())) {
        WriteStep::Finished(Err(m)) => assert_eq!(m, "failed to save snapshot: disk full"),
        other => panic!("snapshot failure not reported: {:?}", other),
    }

    let (mut w, _) = started(ModuleArg::Bcm, "drl_enabled", "on", false, true);
    w.on_block_read(Ok(vec![0x00; 8]));
    w.on_reviewed(true);
    w.on_snapshot_saved(Ok(()));
    match w.on_written(Err(Error::Timeout)) {
        WriteStep::Audit { dry_run, result } => {
            assert!(!dry_run);
            assert_eq!(result, "error: Timeout waiting for response");
        }
        other => panic!("expected an audit, got {:?}", other),
    }
    match w.on_audited(Ok(())) {
        WriteStep::Finished(Err(m)) => assert_eq!(m, "write failed: Timeout waiting for response"),
        other => panic!("write failure not reported: {:?}", other),
    }

    let (mut w, _) = started(ModuleArg::Bcm, "drl_enabled", "on", false, true);
    w.on_block_read(Ok(vec![0x00; 8]));
    w.on_reviewed(true);
    w.on_snapshot_saved(Ok(()));
    w.on_written(Ok(()));
    match w.on_audited(Err("audit log unwritable".to_string())) {
        WriteStep::Finished(Err(m)) => assert_eq!(m, "audit log unwritable"),
        other => panic!("audit failure not reported: {:?}", other),
    }
}

fn snapshot_block(module: &str, id: &str, did: u16, data: Vec<u8>) -> AsBuiltBlock {
    AsBuiltBlock {
        id: BlockId::new(module, id),
        description: String::new(),
        did,
        data,
        features: Vec::new(),
    }
}

#[test]
fn snapshot_restore_reads_writes_and_audits_each_block_in_order() {
    let blocks = vec![
        snapshot_block("726", "01", 0x0701, vec![0x11; 8]),
        snapshot_block("7e0", "01", 0xE001, vec![0x22; 8]),
    ];
    let (mut run, step) = SnapshotRestore::start(blocks);
    assert!(matches!(step, RestoreStep::ReadBlock { module: Module::Bcm, did: 0x0701 }));
    match run.on_block_read(Ok(vec![0x00; 8])) {
        RestoreStep::WriteBlock { module, did, data } => {
            assert_eq!((module, did), (Module::Bcm, 0x0701));
            assert_eq!(data, vec![0x11; 8]);
        }
        other => panic!("expected a write, got {:?}", other),
    }
    assert_eq!(run.current(), &[0x00; 8]);
    match run.on_written(Ok(())) {
        RestoreStep::Audit { result } => assert_eq!(result, "ok"),
        other => panic!("expected an audit, got {:?}", other),
    }
    assert!(matches!(run.on_audited(Ok(())), RestoreStep::Restored(0)));
    assert_eq!(run.block().id.to_string(), "726-01");
    assert!(matches!(run.on_reported(), RestoreStep::ReadBlock { module: Module::Pcm, did: 0xE001 }));
    assert_eq!(run.module(), Module::Pcm);
    assert!(matches!(run.on_block_read(Ok(vec![0x00; 8])), RestoreStep::WriteBlock { .. }));
    run.on_written(Ok(()));
    assert!(matches!(run.on_audited(Ok(())), RestoreStep::Restored(1)));
    assert!(matches!(run.on_reported(), RestoreStep::Finished(Ok(()))));
}

#[test]
fn snapshot_restore_stops_at_the_first_failure() {
    let (_, step) = SnapshotRestore::start(Vec::new());
    assert!(matches!(step, RestoreStep::Finished(Ok(()))));

    let (_, step) = SnapshotRestore::start(vec![snapshot_block("999", "01", 0x0101, vec![0x00])]);
    match step {
        RestoreStep::Finished(Err(m)) => assert_eq!(m, "unknown module CAN ID: 999"),
        other => panic!("unknown module accepted: {:?}", other),
    }

    let blocks = vec![
        snapshot_block("720", "01", 0x0101, vec![0x33; 8]),
        snapshot_block("726", "01", 0x0701, vec![0x11; 8]),
    ];
    let (mut run, _) = SnapshotRestore::start(blocks);
    run.on_block_read(Ok(vec![0x00; 8]));
    match run.on_written(Err(Error::Timeout)) {
        RestoreStep::Audit { result } => assert_eq!(result, "error: Timeout waiting for response"),
        other => panic!("expected an audit, got {:?}", other),
    }
    match run.on_audited(Ok(())) {
        RestoreStep::Finished(Err(m)) => {
            assert_eq!(m, "restore failed for 720-01: Timeout waiting for response")
        }
        other => panic!("write failure not reported: {:?}", other),
    }

    let (mut run, _) = SnapshotRestore::start(vec![snapshot_block("726", "01", 0x0701, vec![0x11; 8])]);
    match run.on_block_read(Err(Error::ConnectionLost)) {
        RestoreStep::Finished(Err(m)) => assert_eq!(m, "Connection lost"),
        other => panic!("failed read not reported: {:?}", other),
    }
}

fn profile_module(name: &str, settings: &[(&str, &str)]) -> ProfileModule {
    ProfileModule {
        module: name.to_string(),
        settings: settings
            .iter()
            .map(|(f, v)| ProfileSetting { feature: f.to_string(), value: v.to_string() })
            .collect(),
    }
}

#[test]
fn profile_apply_writes_settings_in_order_and_counts_them() {
    let modules = vec![
        profile_module("BCM", &[("drl_enabled", "true"), ("auto_headlights", "false")]),
        profile_module("abs", &[]),
        profile_module("ipc", &[("speed_units", "mph")]),
    ];
    assert_eq!(count_settings(&modules), Some(3));
    let (mut run, step) = ProfileApply::start(modules);
    match step {
        ApplyStep::WriteSetting { module, feature, value } => {
            assert_eq!(module, ModuleArg::Bcm);
            assert_eq!(feature, "drl_enabled");
            assert_eq!(value, "true");
        }
        other => panic!("expected the first setting, got {:?}", other),
    }
    assert_eq!(run.module_text(), "BCM");
    match run.on_setting_written(true) {
        ApplyStep::WriteSetting { module, feature, .. } => {
            assert_eq!(module, ModuleArg::Bcm);
            assert_eq!(feature, "auto_headlights");
        }
        other => panic!("expected the second setting, got {:?}", other),
    }
    match run.on_setting_written(false) {
        ApplyStep::WriteSetting { module, feature, value } => {
            assert_eq!(module, ModuleArg::Ipc);
            assert_eq!(feature, "speed_units");
            assert_eq!(value, "mph");
        }
        other => panic!("expected the IPC setting, got {:?}", other),
    }
    assert_eq!(run.module_text(), "ipc");
    assert!(matches!(run.on_setting_written(true), ApplyStep::Done { written: 2, failed: 1 }));
}

#[test]
fn profile_apply_stops_at_an_unknown_module() {
    let (_, step) = ProfileApply::start(vec![profile_module("xyz", &[])]);
    match step {
        ApplyStep::Stopped(m) => assert_eq!(m, "unknown module: xyz"),
        other => panic!("unknown module accepted: {:?}", other),
    }
    let (mut run, _) = ProfileApply::start(vec![
        profile_module("pcm", &[("idle_rpm", "700")]),
        profile_module("gearbox", &[("x", "1")]),
    ]);
    match run.on_setting_written(true) {
        ApplyStep::Stopped(m) => assert_eq!(m, "unknown module: gearbox"),
        other => panic!("unknown module accepted: {:?}", other),
    }
    let (_, step) = ProfileApply::start(vec![profile_module("dsm", &[])]);
    assert!(matches!(step, ApplyStep::Done { written: 0, failed: 0 }));
}
