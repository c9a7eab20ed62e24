use balladi_drive::engine::daemon::{after_ready_poll, daemon_not_ready_error, ReadyDecision};
use sha2::Digest;
use balladi_drive::engine::daemon::{
    bwlimit_rate, compute_credential_fingerprint, generate_rc_password, plan_daemon_start,
    rcd_arguments, ChildStatus, DaemonAction, DAEMON_READY_POLLS, DAEMON_READY_POLL_MS,
};
use balladi_drive::settings::RcloneOAuthCredentials;
use balladi_drive::system::power::{acquire_sleep_lock, release_sleep_lock, SleepLock};
use balladi_drive::system::storage::{best_mount, cloud_storage_summary, is_cloud_target, is_fat_filesystem, MountCandidate};

fn creds(id: &str, secret: &str) -> RcloneOAuthCredentials {
    RcloneOAuthCredentials { client_id: id.to_string(), client_secret: secret.to_string() }
}

#[test]
fn test_missing_oauth_credentials_prevents_daemon_creation() {
    let empty_creds = creds("", "");
    let res = plan_daemon_start(&empty_creds, ChildStatus::Absent, &None);
    assert!(res.is_err());
    let err_msg = res.err().unwrap();
    assert!(err_msg.contains("Private Google OAuth is required"));
    // Blank values count as missing too.
    assert!(plan_daemon_start(&creds("id", "  "), ChildStatus::Running, &None).is_err());
}

#[test]
fn test_credential_fingerprint_uniqueness_and_change_detection() {
    let creds1 = creds("client-1", "secret-1");
    let creds2 = creds("client-2", "secret-2");
    let fp1 = compute_credential_fingerprint(&creds1);
    let fp2 = compute_credential_fingerprint(&creds2);
    assert_ne!(fp1, fp2);
    assert_eq!(fp1, compute_credential_fingerprint(&creds1));
}

#[test]
fn credential_fingerprint_hashes_trimmed_pair() {
    // The SHA-256 of "a:b".
    assert_eq!(
        compute_credential_fingerprint(&creds(" a ", "b\n")),
        format!("sha256:v1:{}", sha256_of("a:b"))
    );
    // A different secret gives a different fingerprint.
    assert_ne!(
        compute_credential_fingerprint(&creds("a", "b")),
        compute_credential_fingerprint(&creds("a", "c"))
    );
}

fn sha256_of(s: &str) -> String {
    format!("{:x}", <sha2::Sha256 as Digest>::digest(s.as_bytes()))
}

#[test]
fn daemon_reuse_requires_same_credentials() {
    let c = creds("id", "secret");
    let fp = compute_credential_fingerprint(&c);
    let (action, planned) = plan_daemon_start(&c, ChildStatus::Running, &Some(fp.clone())).unwrap();
    assert_eq!(action, DaemonAction::Reuse);
    assert_eq!(planned, fp);
    let (action, _) = plan_daemon_start(&c, ChildStatus::Running, &Some("sha256:v1:other".into())).unwrap();
    assert_eq!(action, DaemonAction::Replace);
    let (action, _) = plan_daemon_start(&c, ChildStatus::Running, &None).unwrap();
    assert_eq!(action, DaemonAction::Replace);
    let (action, _) = plan_daemon_start(&c, ChildStatus::Exited, &Some(fp.clone())).unwrap();
    assert_eq!(action, DaemonAction::Spawn);
    let (action, _) = plan_daemon_start(&c, ChildStatus::Absent, &None).unwrap();
    assert_eq!(action, DaemonAction::Spawn);
}

#[test]
fn bandwidth_rate_normalization() {
    assert_eq!(bwlimit_rate(""), "off");
    assert_eq!(bwlimit_rate("unlimited"), "off");
    assert_eq!(bwlimit_rate("50M"), "50M");
    assert_eq!(bwlimit_rate("Unlimited"), "Unlimited");
}

#[test]
fn rc_password_is_24_alphanumerics() {
    let p = generate_rc_password();
    assert_eq!(p.len(), 24);
    assert!(p.chars().all(|c| c.is_ascii_alphanumeric()));
}

#[test]
fn sleep_lock_is_idempotent() {
    let mut lock = SleepLock::new();
    assert!(acquire_sleep_lock(&lock));
    lock.guard_started();
    // Acquiring again while held starts nothing.
    assert!(!acquire_sleep_lock(&lock));
    assert!(release_sleep_lock(&mut lock));
    assert!(!lock.held);
    // Releasing again has nothing to stop.
    assert!(!release_sleep_lock(&mut lock));
}

#[test]
fn storage_targets() {
    assert!(is_cloud_target("gdrive:/Uploads"));
    assert!(is_cloud_target("gdrive,root_folder_id=x:"));
    assert!(!is_cloud_target("/Volumes/gdrive:"));
    assert!(is_fat_filesystem("vfat"));
    assert!(is_fat_filesystem("FAT32"));
    assert!(is_fat_filesystem("msdos-fat"));
    assert!(!is_fat_filesystem("apfs"));
}

#[test]
fn best_mount_is_longest_containing() {
    let cs = vec![
        MountCandidate { contains_path: true, mount_len: 1 },
        MountCandidate { contains_path: false, mount_len: 30 },
        MountCandidate { contains_path: true, mount_len: 9 },
        MountCandidate { contains_path: true, mount_len: 9 },
    ];
    assert_eq!(best_mount(&cs), Some(2));
    assert_eq!(best_mount(&vec![MountCandidate { contains_path: false, mount_len: 3 }]), None);
    assert_eq!(best_mount(&vec![]), None);
}

#[test]
fn daemon_command_line() {
    let args = rcd_arguments(5572, "balladi", "pw");
    assert_eq!(&args[0..7], &["rcd", "--rc-addr", "127.0.0.1:5572", "--rc-user", "balladi", "--rc-pass", "pw"]);
    assert!(args.contains(&"--fast-list".to_string()));
    let i = args.iter().position(|a| a == "--drive-chunk-size").unwrap();
    assert_eq!(args[i + 1], "128M");
    assert_eq!(args.len(), 32);
    assert_eq!(DAEMON_READY_POLLS * DAEMON_READY_POLL_MS, 3000);
}

#[test]
fn fingerprints_have_fixed_form() {
    let fp = compute_credential_fingerprint(&creds("x", "y"));
    assert_eq!(fp.len(), 74);
    assert!(fp[10..].chars().all(|c| c.is_ascii_digit() || ('a'..='f').contains(&c)));
}

#[test]
fn cloud_storage_report() {
    let c = cloud_storage_summary("gdrive:/Shoot");
    assert_eq!(c.path, "gdrive:/Shoot");
    assert_eq!(c.mount_point, "Google Drive (Cloud)");
    assert_eq!(c.file_system, "Cloud");
    assert!(c.is_writable && !c.is_fat32);
    assert_eq!((c.total_bytes, c.free_bytes), (0, 0));
    assert!(c.error.is_none());
}

#[test]
fn daemon_readiness_polls() {
    assert_eq!(after_ready_poll(0, true), ReadyDecision::Ready);
    assert_eq!(after_ready_poll(0, false), ReadyDecision::PollAgain);
    assert_eq!(after_ready_poll(28, false), ReadyDecision::PollAgain);
    assert_eq!(after_ready_poll(29, false), ReadyDecision::GiveUp);
    assert!(daemon_not_ready_error().contains("within 3 seconds"));
}
