use balladi_drive::connect::{
    engine_credentials, engine_status, has_gdrive_remote, parse_listremotes_output,
    prepare_google_connection, rollback_plan, transaction_error, ConnectAction, ConnectStep,
    ConnectTransaction, DefaultConnectStepExecutor, FileRestore, StepReport,
};
use balladi_drive::settings::{compute_client_fingerprint, AppSettings};

fn managed_original() -> AppSettings {
    AppSettings {
        oauth_mode: "managed".to_string(),
        connected_client_fingerprint: Some("sha256:v1:orig_fp".to_string()),
        custom_client_id: None,
        custom_client_secret: None,
        webhook_url: "".to_string(),
        notify_on_complete: false,
    }
}

#[derive(Default)]
struct MockSteps {
    fail_at_auth: bool,
    fail_at_probe: bool,
    fail_at_profile: bool,
    fail_at_config_commit: bool,
    fail_at_settings_commit: bool,
    fail_at_daemon_start: bool,
}

// Files on a simulated disk.
struct Disk {
    rclone_conf: Option<String>,
    settings_fp: Option<String>,
    settings_mode: String,
}

/// Runs the connect transaction with mock steps over a simulated disk, as
/// the application does with real ones, and rolls back on failure.
fn run_transaction(mock: &MockSteps, disk: &mut Disk) -> Result<Vec<String>, String> {
    let conf_snapshot = disk.rclone_conf.clone();
    let settings_snapshot = (disk.settings_fp.clone(), disk.settings_mode.clone());
    let candidate = "[gdrive]\ntype = drive\nscope = drive\ntoken = {\"access_token\":\"candidate_token\"}\n";
    let (mut tx, mut step) = ConnectTransaction::begin();
    loop {
        let report = match step {
            ConnectStep::Auth => {
                if mock.fail_at_auth {
                    StepReport::Failed("Simulated OAuth authorization failure".to_string())
                } else {
                    StepReport::Done
                }
            }
            ConnectStep::Probe => {
                if mock.fail_at_probe {
                    StepReport::Failed("Simulated probe failure".to_string())
                } else {
                    StepReport::Done
                }
            }
            ConnectStep::Profile => StepReport::Profile(!mock.fail_at_profile),
            ConnectStep::StopDaemon => StepReport::Done,
            ConnectStep::CommitConfig => {
                if mock.fail_at_config_commit {
                    StepReport::Failed("Simulated rclone config commit failure".to_string())
                } else {
                    disk.rclone_conf = Some(candidate.to_string());
                    StepReport::Done
                }
            }
            ConnectStep::CommitSettings => {
                if mock.fail_at_settings_commit {
                    StepReport::Failed("Simulated settings commit failure".to_string())
                } else {
                    disk.settings_fp = Some("sha256:v1:candidate_fp".to_string());
                    disk.settings_mode = "custom".to_string();
                    StepReport::Done
                }
            }
            ConnectStep::StartDaemon => {
                if mock.fail_at_daemon_start {
                    StepReport::Failed("Simulated daemon startup failure".to_string())
                } else {
                    StepReport::Done
                }
            }
            ConnectStep::ListRemotes => StepReport::Remotes(vec!["gdrive:".to_string()]),
        };
        match tx.advance(report) {
            ConnectAction::Run(next) => step = next,
            ConnectAction::Succeed(remotes) => return Ok(remotes),
            ConnectAction::RollBack(err) => {
                let plan = rollback_plan(&tx, conf_snapshot.is_some(), true, false, true);
                if plan.rclone_config == FileRestore::WriteSnapshot {
                    disk.rclone_conf = conf_snapshot.clone();
                }
                if plan.rclone_config == FileRestore::Remove {
                    disk.rclone_conf = None;
                }
                if plan.settings == FileRestore::WriteSnapshot {
                    disk.settings_fp = settings_snapshot.0.clone();
                    disk.settings_mode = settings_snapshot.1.clone();
                }
                assert!(!plan.restart_daemon);
                return Err(transaction_error(&err, &vec![]));
            }
        }
    }
}

#[test]
fn test_production_transaction_rollbacks_on_all_failures() {
    let original_rclone_conf = "[gdrive]\ntype = drive\ntoken = {\"access_token\":\"orig\"}\n";
    let original = managed_original();
    let mut disk = Disk {
        rclone_conf: Some(original_rclone_conf.to_string()),
        settings_fp: original.connected_client_fingerprint.clone(),
        settings_mode: original.oauth_mode.clone(),
    };

    let cases: Vec<(MockSteps, &str)> = vec![
        (MockSteps { fail_at_auth: true, ..Default::default() }, "Simulated OAuth authorization failure"),
        (MockSteps { fail_at_probe: true, ..Default::default() }, "Simulated probe failure"),
        (MockSteps { fail_at_profile: true, ..Default::default() }, "Could not verify authenticated Google user profile"),
        (MockSteps { fail_at_config_commit: true, ..Default::default() }, "Simulated rclone config commit failure"),
        // Failure at settings commit must roll rclone.conf back to the snapshot.
        (MockSteps { fail_at_settings_commit: true, ..Default::default() }, "Simulated settings commit failure"),
    ];
    for (mock, expected) in cases {
        let res = run_transaction(&mock, &mut disk);
        assert!(res.is_err());
        assert!(res.unwrap_err().contains(expected));
        assert_eq!(disk.rclone_conf.as_deref(), Some(original_rclone_conf));
        assert_eq!(disk.settings_fp, Some("sha256:v1:orig_fp".to_string()));
    }

    // Success commits both target rclone.conf and target settings
    let res = run_transaction(&MockSteps::default(), &mut disk);
    assert!(res.is_ok());
    assert!(disk.rclone_conf.as_ref().unwrap().contains("candidate_token"));
    assert_eq!(disk.settings_fp, Some("sha256:v1:candidate_fp".to_string()));
    assert_eq!(disk.settings_mode, "custom");
}

#[test]
fn test_rollback_aggregates_and_reports_rollback_failures() {
    let err = transaction_error(
        "Simulated settings commit failure",
        &vec![
            "Failed restoring rclone config: denied".to_string(),
            "Failed restarting original daemon: gone".to_string(),
        ],
    );
    assert!(err.contains("Simulated settings commit failure"));
    assert_eq!(
        err,
        "Simulated settings commit failure; rollback encountered errors: Failed restoring rclone config: denied, Failed restarting original daemon: gone"
    );
    assert_eq!(transaction_error("e", &vec![]), "e");
}

#[test]
fn daemon_failure_after_commits_restores_both_files() {
    let (mut tx, _) = ConnectTransaction::begin();
    for report in [StepReport::Done, StepReport::Done, StepReport::Profile(true), StepReport::Done, StepReport::Done, StepReport::Done] {
        match tx.advance(report) {
            ConnectAction::Run(_) => {}
            _ => panic!("unexpected end"),
        }
    }
    assert!(tx.config_committed && tx.settings_committed);
    match tx.advance(StepReport::Failed("boom".to_string())) {
        ConnectAction::RollBack(e) => assert_eq!(e, "boom"),
        _ => panic!("expected rollback"),
    }
    let plan = rollback_plan(&tx, true, false, true, true);
    assert_eq!(plan.rclone_config, FileRestore::WriteSnapshot);
    assert_eq!(plan.settings, FileRestore::Remove);
    assert!(plan.restart_daemon);
    let plan = rollback_plan(&tx, false, true, true, false);
    assert_eq!(plan.rclone_config, FileRestore::Remove);
    assert!(!plan.restart_daemon);
}

#[test]
fn missing_gdrive_remote_fails_the_transaction() {
    let (mut tx, _) = ConnectTransaction::begin();
    for report in [StepReport::Done, StepReport::Done, StepReport::Profile(true), StepReport::Done, StepReport::Done, StepReport::Done, StepReport::Done] {
        match tx.advance(report) {
            ConnectAction::Run(_) => {}
            _ => panic!("unexpected end"),
        }
    }
    assert!(tx.current == ConnectStep::ListRemotes);
    match tx.advance(StepReport::Remotes(vec!["backup:".to_string()])) {
        ConnectAction::RollBack(e) => {
            assert_eq!(e, "Authenticated gdrive remote was not found in daemon remotes list.")
        }
        _ => panic!("expected rollback"),
    }
}

#[test]
fn prepare_connection_custom_and_managed() {
    let original = managed_original();
    let (target, creds) = prepare_google_connection(
        &original,
        &Some("custom".to_string()),
        &Some("  my-id  ".to_string()),
        &Some("my-secret".to_string()),
        &None,
        &None,
    )
    .unwrap();
    assert_eq!(target.oauth_mode, "custom");
    assert_eq!(creds.client_id, "my-id");
    assert_eq!(creds.client_secret, "my-secret");
    assert_eq!(target.custom_client_id, Some("my-id".to_string()));
    assert_eq!(target.connected_client_fingerprint, Some(compute_client_fingerprint("my-id")));

    // Missing custom values are errors.
    let err = prepare_google_connection(&original, &Some("custom".into()), &None, &None, &None, &None);
    assert_eq!(err.err().unwrap(), "Custom OAuth Client ID is required");
    let err = prepare_google_connection(
        &original,
        &Some("custom".into()),
        &Some("id".into()),
        &Some("  ".into()),
        &None,
        &None,
    );
    assert_eq!(err.err().unwrap(), "Custom OAuth Client Secret is required");

    // Managed mode takes the baked client.
    let (target, creds) = prepare_google_connection(
        &original,
        &Some("managed".into()),
        &None,
        &None,
        &Some("baked".into()),
        &Some("baked-secret".into()),
    )
    .unwrap();
    assert_eq!(target.oauth_mode, "managed");
    assert_eq!(creds.client_id, "baked");
    assert_eq!(target.connected_client_fingerprint, Some(compute_client_fingerprint("baked")));
    let err = prepare_google_connection(&original, &None, &None, &None, &None, &None);
    assert_eq!(err.err().unwrap(), "This Balladi Drive build is missing managed Google OAuth credentials.");
}

#[test]
fn prepare_connection_keeps_stored_values_for_masked_input() {
    let mut original = managed_original();
    original.oauth_mode = "custom".to_string();
    original.custom_client_id = Some("stored-id".to_string());
    original.custom_client_secret = Some("stored-secret".to_string());
    let (target, creds) = prepare_google_connection(
        &original,
        &None,
        &Some("__PRESERVE__".into()),
        &Some("•••".into()),
        &None,
        &None,
    )
    .unwrap();
    assert_eq!(creds.client_id, "stored-id");
    assert_eq!(creds.client_secret, "stored-secret");
    assert_eq!(target.custom_client_secret, Some("stored-secret".to_string()));
}

#[test]
fn connected_settings_start_the_engine() {
    let original = managed_original();
    let (target, creds) = prepare_google_connection(
        &original,
        &Some("custom".into()),
        &Some("id-1".into()),
        &Some("secret-1".into()),
        &None,
        &None,
    )
    .unwrap();
    let engine = engine_credentials(&target, &None, &None).unwrap();
    assert_eq!(engine.client_id, creds.client_id);
    assert_eq!(engine.client_secret, creds.client_secret);

    // Settings without the matching fingerprint need a reconnection.
    assert_eq!(
        engine_credentials(&original, &Some("b".into()), &Some("c".into())).err().unwrap(),
        "Google account reconnection is required with Balladi Managed OAuth."
    );
    assert_eq!(engine_status(true, true), ("ready", true));
    assert_eq!(engine_status(true, false), ("needs_auth", false));
}

#[test]
fn listremotes_output_parsing() {
    let remotes = parse_listremotes_output("gdrive:\r\n\n  backup: \n");
    assert_eq!(remotes, vec!["gdrive:".to_string(), "backup:".to_string()]);
    assert!(has_gdrive_remote(&remotes));
    assert!(has_gdrive_remote(&vec!["gdrive".to_string()]));
    assert!(!has_gdrive_remote(&vec!["gdrive2:".to_string()]));
    assert!(parse_listremotes_output("").is_empty());
}

#[test]
fn executor_judges_auth_and_probe_runs() {
    let ex = DefaultConnectStepExecutor;
    assert!(ex.auth_result(true, "").is_ok());
    assert_eq!(ex.auth_result(false, "denied").unwrap_err(), "Authorization failed: denied");
    assert!(ex.probe_result(true, "").is_ok());
    assert_eq!(ex.probe_result(false, "bad").unwrap_err(), "Google Drive probe failed: bad");
    assert_eq!(
        ex.probe_result(true, "Using rclone's Shared Client").unwrap_err(),
        "rclone shared OAuth client detected"
    );
}
