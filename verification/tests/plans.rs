use rplugin::Action;
use rplugin::Plan;
use rplugin::PluginError;
use rplugin::Rng;
use rplugin::Settings;
use rplugin::Subcommand;
use rplugin::error_message;
use rplugin::parse_subcommand;
use rplugin::plan_invocation;

fn settings() -> Settings {
    Settings {
        root: String::from("/tmp/rplugin"),
        inject_failure: false,
        inject_delay: false,
        delay_millis: 1000,
    }
}

fn plan(subcommand: Option<&str>, arg: Option<&str>) -> Result<Plan, PluginError> {
    let s = settings();
    let mut rng = Rng::new(1);
    plan_invocation(&s, subcommand, arg, &mut rng)
}

#[test]
fn every_subcommand_parses() {
    assert_eq!(
        parse_subcommand("setup_plugin_for_backup"),
        Some(Subcommand::SetupBackup)
    );
    assert_eq!(
        parse_subcommand("setup_plugin_for_restore"),
        Some(Subcommand::SetupRestore)
    );
    assert_eq!(
        parse_subcommand("cleanup_plugin_for_backup"),
        Some(Subcommand::CleanupBackup)
    );
    assert_eq!(
        parse_subcommand("cleanup_plugin_for_restore"),
        Some(Subcommand::CleanupRestore)
    );
    assert_eq!(parse_subcommand("backup_file"), Some(Subcommand::BackupFile));
    assert_eq!(parse_subcommand("restore_file"), Some(Subcommand::RestoreFile));
    assert_eq!(parse_subcommand("backup_data"), Some(Subcommand::BackupData));
    assert_eq!(parse_subcommand("restore_data"), Some(Subcommand::RestoreData));
    assert_eq!(parse_subcommand("delete_backup"), Some(Subcommand::DeleteBackup));
    assert_eq!(
        parse_subcommand("plugin_api_version"),
        Some(Subcommand::ApiVersion)
    );
    assert_eq!(parse_subcommand("--version"), Some(Subcommand::VersionFlag));
    assert_eq!(parse_subcommand("backup"), None);
    assert_eq!(parse_subcommand(""), None);
}

#[test]
fn setup_backup_plans_the_store_directory() {
    let p = plan(Some("setup_plugin_for_backup"), Some("/data/20240115/20240115-snap")).unwrap();
    assert_eq!(p.delay_millis, 0);
    assert_eq!(
        p.action,
        Action::CreateStoreDir {
            store_dir: String::from("/tmp/rplugin/20240115/20240115-snap"),
        }
    );
}

#[test]
fn setup_backup_without_path_fails() {
    assert_eq!(
        plan(Some("setup_plugin_for_backup"), None),
        Err(PluginError::NoLocalPath)
    );
}

#[test]
fn reserved_hooks_plan_nothing() {
    for cmd in [
        "setup_plugin_for_restore",
        "cleanup_plugin_for_backup",
        "cleanup_plugin_for_restore",
    ] {
        let p = plan(Some(cmd), None).unwrap();
        assert_eq!(p.delay_millis, 0);
        assert_eq!(p.action, Action::NoOp);
    }
}

#[test]
fn backup_file_plans_a_copy_into_the_store() {
    let p = plan(Some("backup_file"), Some("/data/20240115-snap/report.txt")).unwrap();
    assert_eq!(p.delay_millis, 0);
    assert_eq!(
        p.action,
        Action::CopyLocalToStore {
            local: String::from("/data/20240115-snap/report.txt"),
            store: String::from("/tmp/rplugin/20240115/20240115-snap/report.txt"),
        }
    );
}

#[test]
fn restore_file_plans_a_copy_out_of_the_store() {
    let p = plan(Some("restore_file"), Some("/data/20240115-snap/report.txt")).unwrap();
    assert_eq!(
        p.action,
        Action::CopyStoreToLocal {
            store: String::from("/tmp/rplugin/20240115/20240115-snap/report.txt"),
            local: String::from("/data/20240115-snap/report.txt"),
        }
    );
}

#[test]
fn backup_then_restore_agree_on_the_store_file() {
    let backup = plan(Some("backup_file"), Some("/data/20240115-snap/report.txt")).unwrap();
    let restore = plan(Some("restore_file"), Some("/data/20240115-snap/report.txt")).unwrap();
    let written = match backup.action {
        Action::CopyLocalToStore { store, .. } => store,
        other => panic!("backup planned {:?}", other),
    };
    let read = match restore.action {
        Action::CopyStoreToLocal { store, .. } => store,
        other => panic!("restore planned {:?}", other),
    };
    assert_eq!(written, read);
}

#[test]
fn data_streams_agree_on_the_store_file() {
    let backup = plan(Some("backup_data"), Some("/data/20240115-snap/blob.bin")).unwrap();
    let restore = plan(Some("restore_data"), Some("/data/20240115-snap/blob.bin")).unwrap();
    assert_eq!(
        backup.action,
        Action::StdinToStore {
            store: String::from("/tmp/rplugin/20240115/20240115-snap/blob.bin"),
        }
    );
    assert_eq!(
        restore.action,
        Action::StoreToStdout {
            store: String::from("/tmp/rplugin/20240115/20240115-snap/blob.bin"),
        }
    );
}

#[test]
fn short_day_seed_plans_nothing_anywhere() {
    for cmd in ["backup_file", "restore_file", "backup_data", "restore_data"] {
        assert_eq!(
            plan(Some(cmd), Some("/data/short/file.txt")),
            Err(PluginError::ShortDayName)
        );
    }
    assert_eq!(
        plan(Some("setup_plugin_for_backup"), Some("/data/short")),
        Err(PluginError::ShortDayName)
    );
}

#[test]
fn transfers_without_a_path_fail() {
    for cmd in ["backup_file", "restore_file", "backup_data", "restore_data"] {
        assert_eq!(plan(Some(cmd), None), Err(PluginError::NoLocalPath));
    }
}

#[test]
fn delete_backup_plans_the_subtree_removal() {
    let p = plan(Some("delete_backup"), Some("20240115-snap")).unwrap();
    assert_eq!(p.delay_millis, 0);
    assert_eq!(
        p.action,
        Action::RemoveStoreTree {
            store_dir: String::from("/tmp/rplugin/20240115/20240115-snap"),
        }
    );
}

#[test]
fn delete_backup_validates_before_touching_the_store() {
    assert_eq!(
        plan(Some("delete_backup"), Some("short")),
        Err(PluginError::InvalidBucketName)
    );
    assert_eq!(plan(Some("delete_backup"), None), Err(PluginError::NoTimestamp));
}

#[test]
fn version_reports_are_fixed_lines() {
    let api = plan(Some("plugin_api_version"), None).unwrap();
    assert_eq!(
        api.action,
        Action::PrintLine { text: String::from("0.5.0") }
    );
    let release = plan(Some("--version"), None).unwrap();
    assert_eq!(
        release.action,
        Action::PrintLine { text: String::from("rplugin version 0.0.1") }
    );
}

#[test]
fn unknown_or_missing_subcommands_fail() {
    assert_eq!(plan(Some("compress"), None), Err(PluginError::UnknownSubcommand));
    assert_eq!(plan(None, None), Err(PluginError::NoSubcommand));
}

#[test]
fn latency_injection_delays_transfers_only() {
    let mut s = settings();
    s.inject_delay = true;
    let mut rng = Rng::new(1);
    let transfer = plan_invocation(
        &s,
        Some("backup_file"),
        Some("/data/20240115-snap/report.txt"),
        &mut rng,
    )
    .unwrap();
    assert_eq!(transfer.delay_millis, 1000);
    let setup = plan_invocation(
        &s,
        Some("setup_plugin_for_backup"),
        Some("/data/20240115/20240115-snap"),
        &mut rng,
    )
    .unwrap();
    assert_eq!(setup.delay_millis, 0);
}

#[test]
fn injected_failure_plans_no_action_at_all() {
    let mut s = settings();
    s.inject_failure = true;
    // Seed 31 samples "fail" on the first draw.
    let mut rng = Rng::new(31);
    assert_eq!(
        plan_invocation(
            &s,
            Some("backup_file"),
            Some("/data/20240115-snap/report.txt"),
            &mut rng,
        ),
        Err(PluginError::FailTriggered)
    );
}

#[test]
fn injection_that_samples_a_pass_still_transfers() {
    let mut s = settings();
    s.inject_failure = true;
    // Seed 1 samples "pass" on the first draw.
    let mut rng = Rng::new(1);
    let p = plan_invocation(
        &s,
        Some("backup_file"),
        Some("/data/20240115-snap/report.txt"),
        &mut rng,
    )
    .unwrap();
    assert!(matches!(p.action, Action::CopyLocalToStore { .. }));
    assert_ne!(rng.state, 1);
}

#[test]
fn injection_never_samples_on_non_transfers() {
    let mut s = settings();
    s.inject_failure = true;
    // Seed 31 would fail a transfer, but deletion and setup never draw.
    let mut rng = Rng::new(31);
    assert!(plan_invocation(&s, Some("delete_backup"), Some("20240115-snap"), &mut rng).is_ok());
    assert_eq!(rng.state, 31);
}

#[test]
fn error_messages_are_the_diagnostic_lines() {
    assert_eq!(
        error_message(&PluginError::MissingFileName),
        "invalid local path for filename"
    );
    assert_eq!(
        error_message(&PluginError::MissingDirName),
        "invalid local path for dirname"
    );
    assert_eq!(
        error_message(&PluginError::ShortDayName),
        "invalid local path for daydirname"
    );
    assert_eq!(error_message(&PluginError::InvalidBucketName), "invalid dirname");
    assert_eq!(
        error_message(&PluginError::NoLocalPath),
        "no local path is provided"
    );
    assert_eq!(
        error_message(&PluginError::NoTimestamp),
        "no timestamp is provided"
    );
    assert_eq!(error_message(&PluginError::FailTriggered), "fail triggered");
    assert_eq!(
        error_message(&PluginError::UnknownSubcommand),
        "unknown subcommand"
    );
    assert_eq!(
        error_message(&PluginError::NoSubcommand),
        "no subcommand was provided"
    );
}
