use balladi_drive::engine::rclone::{
    build_check_request, build_transfer_request, classify_transfer_error, directory_size_target,
    drive_file_target_of, is_google_drive_fs, is_os_junk_name, local_destination_dir,
    logical_size_source, needs_destination_directory, normalize_verification_route,
    os_junk_excludes_list, retry_error_flag, select_transfer_route, transfer_mode_from_name,
    transfer_mode_name, walk_action, CompletedFileStat, LocalSourceKind, LogicalSizeSource,
    RcParams, RequestContext, TransferFailureKind, TransferMode, WalkAction,
};

fn ctx(parent: &str, name: &str) -> RequestContext {
    RequestContext {
        source_parent: parent.to_string(),
        source_file_name: name.to_string(),
        destination_dir: Ok(()),
    }
}

#[test]
fn pause_resume_accounting_never_exceeds_total() {
    let total_file_size: u64 = 500_000_000;
    let transferring_bytes: u64 = 200_000_000; // in-flight partial bytes
    let total_transferred_in_session: u64 = 200_000_000;

    // When pausing, in-flight uncommitted bytes are deducted
    let in_flight = transferring_bytes;
    let resume_baseline_bytes = total_transferred_in_session.saturating_sub(in_flight);
    assert_eq!(resume_baseline_bytes, 0);

    // Upon resuming, transfer starts fresh from rclone perspective
    // and transfers all 500MB without double-counting baseline
    let session_completed_bytes = resume_baseline_bytes + total_file_size;
    assert_eq!(session_completed_bytes, total_file_size);
    assert!(session_completed_bytes <= total_file_size);
}

#[test]
fn test_classify_transfer_error_variants() {
    assert_eq!(
        classify_transfer_error("403 RATE_LIMIT_EXCEEDED Quota exceeded for quota metric 'Queries'"),
        TransferFailureKind::ApiQuota
    );
    assert_eq!(
        classify_transfer_error("userRateLimitExceeded: User Rate Limit Exceeded"),
        TransferFailureKind::ApiQuota
    );
    assert_eq!(
        classify_transfer_error("user rate limit exceeded"),
        TransferFailureKind::ApiQuota
    );
    assert_eq!(
        classify_transfer_error("750GB upload limit reached"),
        TransferFailureKind::DailyUploadLimit
    );
    assert_eq!(
        classify_transfer_error("dailyLimitExceeded: Drive storage limit reached"),
        TransferFailureKind::DailyUploadLimit
    );
    assert_eq!(
        classify_transfer_error("daily upload limit exceeded"),
        TransferFailureKind::DailyUploadLimit
    );
    assert_eq!(
        classify_transfer_error("oauth invalid_grant token expired"),
        TransferFailureKind::Authentication
    );
    assert_eq!(
        classify_transfer_error("ENOSPC: no space left on device"),
        TransferFailureKind::DiskSpace
    );
    assert_eq!(
        classify_transfer_error("MD5 hash mismatch"),
        TransferFailureKind::IntegrityMismatch
    );
    assert_eq!(
        classify_transfer_error("connection reset by peer"),
        TransferFailureKind::Network
    );
}

#[test]
fn classify_permission_and_unknown() {
    assert_eq!(
        classify_transfer_error("403 Forbidden: insufficientPermissions"),
        TransferFailureKind::PermissionDenied
    );
    assert_eq!(classify_transfer_error("something odd"), TransferFailureKind::Unknown);
    assert_eq!(classify_transfer_error(""), TransferFailureKind::Unknown);
}

#[test]
fn select_transfer_route_matrix() {
    // 1. Google Drive single file download
    assert_eq!(
        select_transfer_route("gdrive,root_folder_id=abc123xyz:", true, &LocalSourceKind::Other).unwrap(),
        TransferMode::DriveFileDownload
    );
    assert_eq!(
        select_transfer_route("gdrive:abc123xyz", true, &LocalSourceKind::Other).unwrap(),
        TransferMode::DriveFileDownload
    );

    // 2. Google Drive folder download
    assert_eq!(
        select_transfer_route("gdrive,root_folder_id=abc123xyz:", false, &LocalSourceKind::Other).unwrap(),
        TransferMode::DirectoryDownload
    );

    // 3. Local single file upload (the file system reports a regular file)
    let temp_file = "/tmp/balladi_route_test/sample_clip.mov";
    assert_eq!(
        select_transfer_route(temp_file, true, &LocalSourceKind::File).unwrap(),
        TransferMode::LocalFileUpload
    );
    // Even if requested_single_file is false, an actual local file routes as LocalFileUpload
    assert_eq!(
        select_transfer_route(temp_file, false, &LocalSourceKind::File).unwrap(),
        TransferMode::LocalFileUpload
    );

    // 4. Local directory upload
    let temp_dir = "/tmp/balladi_route_test";
    assert_eq!(
        select_transfer_route(temp_dir, false, &LocalSourceKind::Directory).unwrap(),
        TransferMode::DirectoryUpload
    );

    // 5. Type switch protection: Even if requested_single_file is true, an actual directory routes as DirectoryUpload
    assert_eq!(
        select_transfer_route(temp_dir, true, &LocalSourceKind::Directory).unwrap(),
        TransferMode::DirectoryUpload
    );
}

#[test]
fn select_transfer_route_rejections() {
    assert_eq!(
        select_transfer_route("/tmp/link", false, &LocalSourceKind::Symlink).unwrap_err(),
        "Symlink upload sources are not allowed."
    );
    assert_eq!(
        select_transfer_route("/dev/null", false, &LocalSourceKind::Other).unwrap_err(),
        "Local source is neither a regular file nor directory."
    );
    assert_eq!(
        select_transfer_route(
            "/missing",
            true,
            &LocalSourceKind::Unavailable("No such file or directory (os error 2)".to_string())
        )
        .unwrap_err(),
        "Local source is unavailable: No such file or directory (os error 2)"
    );
}

#[test]
fn directory_routing_and_filter_directionality() {
    let upload_req = build_transfer_request(
        "/tmp/my_project",
        "gdrive:/Uploads",
        TransferMode::DirectoryUpload,
        &ctx("/tmp", "my_project"),
    )
    .unwrap();

    let download_req = build_transfer_request(
        "gdrive:/Media",
        "/tmp/Media",
        TransferMode::DirectoryDownload,
        &ctx("gdrive:", "Media"),
    )
    .unwrap();

    // Upload request must include OS junk filter; the download must not
    // filter out files from Drive.
    let upload_filter = match &upload_req.params {
        RcParams::SyncCopy { exclude_rules, .. } => exclude_rules.clone(),
        _ => panic!("upload is not sync/copy"),
    };
    let download_filter = match &download_req.params {
        RcParams::SyncCopy { exclude_rules, .. } => exclude_rules.clone(),
        _ => panic!("download is not sync/copy"),
    };
    assert!(upload_filter.is_some());
    assert!(download_filter.is_none());
    assert_eq!(upload_filter.unwrap(), os_junk_excludes_list());
}

#[test]
fn destination_creation_failure_propagates_error() {
    let context = RequestContext {
        source_parent: String::new(),
        source_file_name: String::new(),
        destination_dir: Err("Not a directory (os error 20)".to_string()),
    };
    assert!(needs_destination_directory(TransferMode::DriveFileDownload));
    let err = build_transfer_request(
        "gdrive:file123",
        "/tmp/balladi_dest_fail_test/existing_file.txt/subfolder",
        TransferMode::DriveFileDownload,
        &context,
    );

    assert!(err.is_err());
    let msg = err.err().unwrap();
    assert!(msg.contains("Could not create download destination"));
    assert_eq!(
        msg,
        "Could not create download destination '/tmp/balladi_dest_fail_test/existing_file.txt/subfolder': Not a directory (os error 20)"
    );
}

#[test]
fn special_character_upload_uses_exact_copyfile_parameters() {
    let special_names = vec!["clip[1].mov", "shot?.mp4", "take*.wav", "{final}.jpg", "back\\slash.txt"];
    let temp_dir = "/tmp/balladi_spec_chars_test";

    for name in special_names {
        let file_path = format!("{}/{}", temp_dir, name);
        let request = build_transfer_request(
            &file_path,
            "gdrive:/Uploads",
            TransferMode::LocalFileUpload,
            &ctx(temp_dir, name),
        )
        .unwrap();

        assert_eq!(request.method, "operations/copyfile");
        match &request.params {
            RcParams::CopyFile { src_fs, src_remote, dst_fs, dst_remote } => {
                assert_eq!(src_remote.as_str(), name);
                assert_eq!(dst_remote.as_str(), name);
                assert_eq!(dst_fs.as_str(), "gdrive:/Uploads");
                assert_eq!(src_fs.as_str(), temp_dir);
            }
            _ => panic!("file upload is not operations/copyfile"),
        }
        assert_eq!(request.config.transfers, 1);
    }
}

#[test]
fn exclusion_rules_include_windows_and_mac_junk() {
    let request = build_transfer_request(
        "/tmp/test_dir",
        "gdrive:/Uploads",
        TransferMode::DirectoryUpload,
        &ctx("/tmp", "test_dir"),
    )
    .unwrap();

    assert_eq!(request.method, "sync/copy");
    let excludes = match &request.params {
        RcParams::SyncCopy { exclude_rules: Some(r), .. } => r.clone(),
        _ => panic!("no filter"),
    };
    assert!(excludes.contains(&"Thumbs.db".to_string()));
    assert!(excludes.contains(&"desktop.ini".to_string()));
    assert!(excludes.contains(&".DS_Store".to_string()));
    assert!(excludes.contains(&"._*".to_string()));
    assert!(excludes.contains(&".Trash*".to_string()));
}

#[test]
fn drive_file_download_uses_copyid() {
    let request = build_transfer_request(
        "gdrive,root_folder_id=FILEID,resource_key=0-key:",
        "/tmp/dl/",
        TransferMode::DriveFileDownload,
        &ctx("", ""),
    )
    .unwrap();
    assert_eq!(request.method, "backend/command");
    assert_eq!(request.normalized_destination, "/tmp/dl/");
    assert!(request.is_async);
    match &request.params {
        RcParams::BackendCommand { command, fs, args } => {
            assert_eq!(command, "copyid");
            assert_eq!(fs, "gdrive,resource_key=0-key:");
            assert_eq!(args, &vec!["FILEID".to_string(), "/tmp/dl/".to_string()]);
        }
        _ => panic!("not copyid"),
    }
    assert_eq!(request.config.multi_thread_streams, Some(4));
    assert_eq!(request.config.transfers, 4);
}

#[test]
fn drive_file_target_reads_key() {
    let (id, rk) = drive_file_target_of("gdrive,root_folder_id=ID1,resource_key=RK1:");
    assert_eq!(id, "ID1");
    assert_eq!(rk, Some("RK1".to_string()));
    let (id, rk) = drive_file_target_of("gdrive:plainid");
    assert_eq!(id, "plainid");
    assert_eq!(rk, None);
    assert_eq!(local_destination_dir("/tmp/dir//"), "/tmp/dir");
    assert_eq!(local_destination_dir("C:\\Media\\"), "C:\\Media");
}

#[test]
fn legacy_directory_mode_deserializes_cleanly() {
    let legacy_json = r#""directory""#;
    let name: String = serde_json::from_str(legacy_json).unwrap();
    let mode = transfer_mode_from_name(&name).unwrap();
    assert_eq!(mode, TransferMode::DirectoryDownload);
}

#[test]
fn legacy_directory_upload_uses_upload_direction() {
    let name: String = serde_json::from_str(r#""directory""#).unwrap();
    let mode = transfer_mode_from_name(&name).unwrap();

    let normalized_up = normalize_verification_route(mode, "/local/camera-card");
    assert_eq!(normalized_up, TransferMode::DirectoryUpload);

    let normalized_dl = normalize_verification_route(mode, "gdrive:/Media_Projects");
    assert_eq!(normalized_dl, TransferMode::DirectoryDownload);
}

#[test]
fn mode_names_round_trip() {
    for mode in [
        TransferMode::DirectoryUpload,
        TransferMode::DirectoryDownload,
        TransferMode::DriveFileDownload,
        TransferMode::LocalFileUpload,
    ] {
        assert_eq!(transfer_mode_from_name(transfer_mode_name(mode)), Some(mode));
    }
    assert_eq!(transfer_mode_name(TransferMode::LocalFileUpload), "local_file_upload");
    assert_eq!(transfer_mode_from_name("Directory"), None);
}

#[test]
fn drive_fs_detection() {
    assert!(is_google_drive_fs("gdrive:"));
    assert!(is_google_drive_fs("gdrive,root_folder_id=x:"));
    assert!(!is_google_drive_fs("/Users/me/gdrive:"));
    assert!(!is_google_drive_fs("gdrive"));
}

// A directory tree as the file system would report it: (name, kind, size, children).
struct Node {
    name: &'static str,
    kind: LocalSourceKind,
    len: u64,
    children: Vec<Node>,
}

fn walk(nodes: &[Node], count: &mut u64, bytes: &mut u64) {
    for n in nodes {
        match walk_action(n.name, &n.kind) {
            WalkAction::Skip => {}
            WalkAction::CountFile => {
                *count += 1;
                *bytes += n.len;
            }
            WalkAction::Descend => walk(&n.children, count, bytes),
        }
    }
}

#[test]
fn test_calculate_local_directory_logical_size_filters_junk() {
    let tree = vec![
        Node { name: "clip1.mov", kind: LocalSourceKind::File, len: 1024, children: vec![] },
        Node {
            name: "subfolder",
            kind: LocalSourceKind::Directory,
            len: 0,
            children: vec![
                Node { name: "clip2.mp4", kind: LocalSourceKind::File, len: 2048, children: vec![] },
                Node { name: "Thumbs.db", kind: LocalSourceKind::File, len: 8000, children: vec![] },
            ],
        },
        Node { name: ".DS_Store", kind: LocalSourceKind::File, len: 6000, children: vec![] },
    ];
    let (mut count, mut total_bytes) = (0u64, 0u64);
    walk(&tree, &mut count, &mut total_bytes);
    assert_eq!(count, 2);
    assert_eq!(total_bytes, 1024 + 2048);
}

#[test]
fn walk_skips_links_and_clutter() {
    assert_eq!(walk_action("a.mov", &LocalSourceKind::Symlink), WalkAction::Skip);
    assert_eq!(walk_action("._a.mov", &LocalSourceKind::File), WalkAction::Skip);
    assert_eq!(walk_action(".Trashes", &LocalSourceKind::Directory), WalkAction::Skip);
    assert_eq!(walk_action("Footage", &LocalSourceKind::Directory), WalkAction::Descend);
    assert_eq!(walk_action("x", &LocalSourceKind::Unavailable("e".to_string())), WalkAction::Skip);
    assert!(is_os_junk_name("desktop.ini"));
    assert!(!is_os_junk_name("Desktop.ini"));
}

#[test]
fn logical_size_sources_by_mode() {
    assert_eq!(logical_size_source(TransferMode::LocalFileUpload), LogicalSizeSource::LocalFile);
    assert_eq!(logical_size_source(TransferMode::DirectoryUpload), LogicalSizeSource::LocalDirectory);
    assert_eq!(logical_size_source(TransferMode::DriveFileDownload), LogicalSizeSource::DriveFile);
    assert_eq!(logical_size_source(TransferMode::DirectoryDownload), LogicalSizeSource::RemoteDirectory);
}

#[test]
fn size_target_prefers_path() {
    assert_eq!(directory_size_target(Some("/a".into()), Some("gdrive:".into())).unwrap(), "/a");
    assert_eq!(directory_size_target(None, Some("gdrive:".into())).unwrap(), "gdrive:");
    assert_eq!(directory_size_target(None, None).unwrap_err(), "Missing path/fs parameter");
}

#[test]
fn stats_defaults_and_retry_flag() {
    let c = CompletedFileStat::from_fields(Some("a.mov".into()), None, Some(7), None, None);
    assert_eq!(c.name, "a.mov");
    assert_eq!(c.size, 0);
    assert_eq!(c.bytes, 7);
    assert_eq!(c.error, "");
    assert!(!c.checked);
    assert!(retry_error_flag(Some(true), 0, true));
    assert!(retry_error_flag(None, 2, false));
    assert!(!retry_error_flag(None, 2, true));
    assert!(!retry_error_flag(Some(false), 0, false));
}

#[test]
fn check_request_filters_uploads_only() {
    let up = build_check_request("/src", "gdrive:/dst", TransferMode::DirectoryUpload);
    assert!(up.one_way && up.list_matches && !up.download);
    assert_eq!(up.exclude_rules, Some(os_junk_excludes_list()));
    let down = build_check_request("gdrive:/src", "/dst", TransferMode::DirectoryDownload);
    assert_eq!(down.exclude_rules, None);
    assert_eq!(down.src_fs, "gdrive:/src");
}

#[test]
fn directory_transfers_keep_empty_folders() {
    for (src, dst, mode) in [
        ("/Volumes/CARD", "gdrive:/Shoot", TransferMode::DirectoryUpload),
        ("gdrive:/Shoot", "/Volumes/SSD", TransferMode::DirectoryDownload),
    ] {
        let r = build_transfer_request(src, dst, mode, &ctx("/", "x")).unwrap();
        assert_eq!(r.config.create_empty_src_dirs, Some(true));
        assert_eq!(r.config.check_first, Some(false));
        assert_eq!(r.config.drive_chunk_size, "128M");
        assert!(r.is_async);
    }
    let file = build_transfer_request("/a/b.mov", "gdrive:/x", TransferMode::LocalFileUpload, &ctx("/a", "b.mov")).unwrap();
    assert_eq!(file.config.create_empty_src_dirs, None);
}

#[test]
fn classification_ignores_ascii_case() {
    for text in ["Connection Reset by peer", "ENOSPC", "User Rate Limit", "md5 HASH mismatch", "odd"] {
        let kind = classify_transfer_error(text);
        assert_eq!(classify_transfer_error(&text.to_ascii_uppercase()), kind);
        assert_eq!(classify_transfer_error(&text.to_ascii_lowercase()), kind);
    }
}

#[test]
fn classification_ignores_ascii_case_beyond_ascii() {
    let text = "Échec: Connection RESET — réessayer";
    let kind = classify_transfer_error(text);
    assert_eq!(kind, TransferFailureKind::Network);
    assert_eq!(classify_transfer_error(&text.to_ascii_uppercase()), kind);
    assert_eq!(classify_transfer_error(&text.to_ascii_lowercase()), kind);
}
