use balladi_drive::auth::drive::{
    build_connection_string, extract_gdrive_access_token, parse_google_drive_link, refresh_accepted,
    shared_client_reported, GoogleUserInfo,
};
use balladi_drive::engine::rclone::{
    drive_file_target_of, is_google_drive_fs, select_transfer_route, LocalSourceKind, TransferMode,
};

#[test]
fn test_parse_folder_links() {
    let parsed = parse_google_drive_link(
        "https://drive.google.com/drive/folders/1AaN85zoEOEDxc_zgVYIFdWVwX9wn7_aB?usp=sharing",
    );
    assert!(parsed.is_valid);
    assert!(parsed.is_folder);
    assert!(!parsed.is_file);
    assert_eq!(parsed.id, "1AaN85zoEOEDxc_zgVYIFdWVwX9wn7_aB");
    assert_eq!(
        parsed.connection_string,
        "gdrive,root_folder_id=1AaN85zoEOEDxc_zgVYIFdWVwX9wn7_aB:"
    );
}

#[test]
fn test_parse_single_file_links() {
    let parsed = parse_google_drive_link(
        "https://drive.google.com/file/d/1X9wn7_aB1AaN85zoEOEDxc_zgVYIFdWVw/view",
    );
    assert!(parsed.is_valid);
    assert!(!parsed.is_folder);
    assert!(parsed.is_file);
    assert_eq!(parsed.id, "1X9wn7_aB1AaN85zoEOEDxc_zgVYIFdWVw");
}

#[test]
fn test_parse_invalid_links() {
    let parsed = parse_google_drive_link("https://example.com/not-drive");
    assert!(!parsed.is_valid);
}

#[test]
fn test_resource_key_link_parsing() {
    let parsed = parse_google_drive_link(
        "https://drive.google.com/drive/folders/1AaN85zoEOEDxc_zgVYIFdWVwX9wn7_aB?resourcekey=0-AbCdEf12345",
    );
    assert!(parsed.is_valid);
    assert!(parsed.is_folder);
    assert_eq!(parsed.id, "1AaN85zoEOEDxc_zgVYIFdWVwX9wn7_aB");
    assert_eq!(parsed.resource_key, Some("0-AbCdEf12345".to_string()));
    assert_eq!(
        parsed.connection_string,
        "gdrive,root_folder_id=1AaN85zoEOEDxc_zgVYIFdWVwX9wn7_aB,resource_key=0-AbCdEf12345:"
    );
}

#[test]
fn parse_invalid_link_reports_error_text() {
    let parsed = parse_google_drive_link("not a link at all");
    assert!(!parsed.is_valid);
    assert!(!parsed.is_folder && !parsed.is_file);
    assert_eq!(parsed.id, "");
    assert_eq!(parsed.connection_string, "");
    assert_eq!(
        parsed.error,
        Some("Invalid Google Drive URL. Please paste a valid folder or file link.".to_string())
    );
}

#[test]
fn parse_legacy_id_query_link() {
    let parsed = parse_google_drive_link("https://drive.google.com/open?id=1AaN85zoEOEDxc_zgVYIF&x=1");
    assert!(parsed.is_valid);
    assert!(parsed.is_folder);
    assert_eq!(parsed.id, "1AaN85zoEOEDxc_zgVYIF");
    assert_eq!(parsed.connection_string, "gdrive,root_folder_id=1AaN85zoEOEDxc_zgVYIF:");
}

#[test]
fn parse_raw_id_with_surrounding_space() {
    let parsed = parse_google_drive_link("   1AaN85zoEOEDxc_zgVYIFdWVwX9wn7_aB \n");
    assert!(parsed.is_valid);
    assert!(parsed.is_folder);
    assert_eq!(parsed.id, "1AaN85zoEOEDxc_zgVYIFdWVwX9wn7_aB");
    assert_eq!(parsed.resource_key, None);
    // Too short for a bare ID.
    assert!(!parse_google_drive_link("abc123").is_valid);
}

#[test]
fn parse_file_link_with_resource_key_prefers_first_match() {
    let parsed = parse_google_drive_link(
        "https://drive.google.com/file/d/FILE_id-123/view?usp=drive_link&resourcekey=0-KEY_x",
    );
    assert!(parsed.is_file);
    assert_eq!(parsed.id, "FILE_id-123");
    assert_eq!(parsed.resource_key, Some("0-KEY_x".to_string()));
    assert_eq!(
        parsed.connection_string,
        "gdrive,root_folder_id=FILE_id-123,resource_key=0-KEY_x:"
    );
}

#[test]
fn build_connection_string_with_and_without_key() {
    assert_eq!(build_connection_string("abc", None), "gdrive,root_folder_id=abc:");
    assert_eq!(
        build_connection_string("abc", Some("0-k")),
        "gdrive,root_folder_id=abc,resource_key=0-k:"
    );
}

#[test]
fn parsed_single_file_connection_routes_to_copyid() {
    let parsed = parse_google_drive_link(
        "https://drive.google.com/file/d/1AaN85zoEOEDxc_zgVYIFdWVwX9wn7_aB/view",
    );
    assert!(parsed.is_file);
    assert!(is_google_drive_fs(&parsed.connection_string));
    assert_eq!(
        select_transfer_route(&parsed.connection_string, true, &LocalSourceKind::Other).unwrap(),
        TransferMode::DriveFileDownload
    );
}

#[test]
fn file_link_round_trips_to_download_target() {
    let parsed = parse_google_drive_link(
        "https://drive.google.com/file/d/FILE_id-123/view?resourcekey=0-KEY_x",
    );
    let (id, rk) = drive_file_target_of(&parsed.connection_string);
    assert_eq!(id, parsed.id);
    assert_eq!(rk, parsed.resource_key);

    let plain = parse_google_drive_link("https://drive.google.com/file/d/PLAIN_id/view");
    let (id, rk) = drive_file_target_of(&plain.connection_string);
    assert_eq!(id, "PLAIN_id");
    assert_eq!(rk, None);
}

#[test]
fn test_extract_gdrive_access_token_multi_section() {
    let conf = r#"
[other_remote]
type = s3
token = {"access_token":"s3_token_ignore"}

[gdrive]
type = drive
scope = drive
token = {"access_token":"valid_gdrive_access_token_xyz","token_type":"Bearer"}

[backup]
type = drive
token = {"access_token":"backup_token"}
"#;
    let token = extract_gdrive_access_token(conf);
    assert_eq!(token, Some("valid_gdrive_access_token_xyz".to_string()));
}

#[test]
fn test_extract_gdrive_access_token_missing() {
    let conf = r#"
[other]
type = drive
"#;
    let token = extract_gdrive_access_token(conf);
    assert_eq!(token, None);
}

#[test]
fn extract_token_section_name_is_case_insensitive() {
    let conf = "[GDrive]\r\ntoken = {\"access_token\":\"upper\"}\r\n";
    assert_eq!(extract_gdrive_access_token(conf), Some("upper".to_string()));
}

#[test]
fn extract_token_falls_back_to_multiline_object() {
    // The token object spans lines, so the line scan finds no JSON; the
    // fallback pattern reads the object after `token =` in the gdrive section.
    let conf = "[gdrive]\ntype = drive\ntoken = {\"access_token\":\n \"multi_line_tok\"}\n";
    assert_eq!(extract_gdrive_access_token(conf), Some("multi_line_tok".to_string()));
}

#[test]
fn extract_token_ignores_invalid_json() {
    let conf = "[gdrive]\ntoken = {not json}\n";
    assert_eq!(extract_gdrive_access_token(conf), None);
}

#[test]
fn user_info_from_about_parses_quota() {
    let info = GoogleUserInfo::from_about(
        Some("Ada".to_string()),
        Some("ada@example.com".to_string()),
        None,
        &Some("16106127360".to_string()),
        &Some("not-a-number".to_string()),
    );
    assert!(info.is_authenticated);
    assert_eq!(info.display_name, Some("Ada".to_string()));
    assert_eq!(info.email, Some("ada@example.com".to_string()));
    assert_eq!(info.photo_link, None);
    assert_eq!(info.storage_total, Some(16106127360));
    assert_eq!(info.storage_used, None);

    let none = GoogleUserInfo::unauthenticated();
    assert!(!none.is_authenticated);
    assert!(none.email.is_none() && none.storage_total.is_none());
}

#[test]
fn shared_client_detection_ignores_case() {
    assert!(shared_client_reported("NOTICE: Using rclone's SHARED CLIENT id"));
    assert!(!shared_client_reported("all good"));
    assert!(refresh_accepted(true, ""));
    assert!(!refresh_accepted(false, ""));
    assert!(!refresh_accepted(true, "using the Shared Client"));
}

use balladi_drive::auth::drive::{
    access_token_after_refresh, access_token_needs_refresh, profile_step, AboutAnswer, AboutFields,
    ProfileAction, ProfileEvent, ProfileFetch,
};

fn finished(a: ProfileAction) -> Option<GoogleUserInfo> {
    match a {
        ProfileAction::Finish(u) => Some(u),
        _ => None,
    }
}

#[test]
fn profile_fetch_refreshes_once_then_retries() {
    let (s, a) = profile_step(ProfileFetch::ReadingToken, ProfileEvent::TokenRead(true));
    assert_eq!(s, ProfileFetch::FirstRequest);
    assert!(matches!(a, ProfileAction::Request));
    let (s, a) = profile_step(s, ProfileEvent::Answer(AboutAnswer::Unauthorized));
    assert_eq!(s, ProfileFetch::Refreshing);
    assert!(matches!(a, ProfileAction::Refresh));
    let (s, a) = profile_step(s, ProfileEvent::Refreshed { accepted: true, token_read: true });
    assert_eq!(s, ProfileFetch::Retried);
    assert!(matches!(a, ProfileAction::Request));
    // A second 401 ends the fetch: no second refresh.
    let (s2, a2) = profile_step(s, ProfileEvent::Answer(AboutAnswer::Unauthorized));
    assert_eq!(s2, ProfileFetch::Done);
    assert!(!finished(a2).unwrap().is_authenticated);
    let (s, a) = profile_step(s, ProfileEvent::Answer(AboutAnswer::Success));
    assert_eq!(s, ProfileFetch::ReadingBody);
    assert!(matches!(a, ProfileAction::ReadBody));
    let body = AboutFields {
        display_name: Some("Ada".into()),
        email: None,
        photo_link: None,
        quota_limit: Some("100".into()),
        quota_usage: Some("7".into()),
    };
    let (s, a) = profile_step(s, ProfileEvent::Body(Some(body)));
    assert_eq!(s, ProfileFetch::Done);
    let user = finished(a).unwrap();
    assert!(user.is_authenticated);
    assert_eq!(user.display_name, Some("Ada".to_string()));
    assert_eq!((user.storage_total, user.storage_used), (Some(100), Some(7)));
}

#[test]
fn profile_fetch_gives_up_unauthenticated() {
    let (_, a) = profile_step(ProfileFetch::ReadingToken, ProfileEvent::TokenRead(false));
    assert!(!finished(a).unwrap().is_authenticated);
    let (_, a) = profile_step(ProfileFetch::Refreshing, ProfileEvent::Refreshed { accepted: false, token_read: true });
    assert!(!finished(a).unwrap().is_authenticated);
    let (_, a) = profile_step(ProfileFetch::FirstRequest, ProfileEvent::Answer(AboutAnswer::Failed));
    assert!(!finished(a).unwrap().is_authenticated);
    let (_, a) = profile_step(ProfileFetch::ReadingBody, ProfileEvent::Body(None));
    assert!(!finished(a).unwrap().is_authenticated);
}

#[test]
fn access_token_refresh_decisions() {
    assert!(access_token_needs_refresh(AboutAnswer::Unauthorized));
    assert!(!access_token_needs_refresh(AboutAnswer::OtherStatus));
    assert_eq!(access_token_after_refresh(true, Some("new".into())), Some("new".to_string()));
    assert_eq!(access_token_after_refresh(false, Some("new".into())), None);
    assert_eq!(access_token_after_refresh(true, None), None);
}
