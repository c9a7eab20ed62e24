use balladi_drive::digest::{md5_hex_of, Md5Stream};
use balladi_drive::engine::verification::{
    check_report_verdict, immediate_file_candidates, local_upload_verdict, single_file_after_hash,
    single_file_start, CheckField, CheckReport, DirEntryInfo, DriveFileMetadata, SingleFileStep,
    VerificationResult,
};

struct LocalFile {
    name: &'static str,
    regular: bool,
    content: &'static [u8],
}

/// Runs the single-file verification over the immediate entries of a
/// destination directory, hashing candidates as the application does.
fn verify_single(files: &[LocalFile], metadata: &DriveFileMetadata) -> VerificationResult {
    let entries: Vec<DirEntryInfo> = files
        .iter()
        .map(|f| DirEntryInfo { name: f.name.to_string(), is_regular_file: f.regular, len: f.content.len() as u64 })
        .collect();
    let picked = immediate_file_candidates(&entries, metadata);
    let names: Vec<String> = picked.iter().map(|&i| entries[i].name.clone()).collect();
    let mut step = single_file_start(metadata, picked.len());
    loop {
        match step {
            SingleFileStep::Done(r) => return r,
            SingleFileStep::Hash(i) => {
                let actual = md5_hex_of(files[picked[i]].content);
                step = single_file_after_hash(metadata, &names, i, &actual);
            }
        }
    }
}

fn meta(name: &str, size: Option<&str>, md5: Option<String>) -> DriveFileMetadata {
    DriveFileMetadata { name: name.to_string(), size: size.map(|s| s.to_string()), md5_checksum: md5 }
}

#[test]
fn single_file_verification_rejects_unrelated_nonempty_file() {
    let files = [LocalFile { name: "other_file.txt", regular: true, content: b"some content\n" }];
    let metadata = meta("expected_video.mp4", Some("13"), Some("985001f2f7b88494ff4c3b6b6770f3f6".to_string()));
    let res = verify_single(&files, &metadata);
    assert!(!res.success);
    assert_eq!(res.differ_count, 1);
}

#[test]
fn single_file_verification_rejects_md5_mismatch() {
    let files = [LocalFile { name: "sample.mp4", regular: true, content: b"corrupted content" }];
    let metadata = meta("sample.mp4", Some("17"), Some("00000000000000000000000000000000".to_string()));
    let res = verify_single(&files, &metadata);
    assert!(!res.success);
    assert_eq!(res.differ_count, 1);
}

#[test]
fn single_file_verification_accepts_matching_size_and_md5() {
    let content: &'static [u8] = b"hello balladi drive transfer engine";
    let files = [LocalFile { name: "video.mov", regular: true, content }];
    let expected_md5 = md5_hex_of(content);
    let metadata = meta("video.mov", Some(&content.len().to_string()), Some(expected_md5));
    let res = verify_single(&files, &metadata);
    assert!(res.success);
    assert_eq!(res.matching_files, 1);
    assert_eq!(res.differ_count, 0);
    assert_eq!(res.missing_on_dst, 0);
    assert_eq!(res.details, vec!["MD5 verified: video.mov".to_string()]);
}

#[test]
fn single_file_verification_does_not_claim_md5_when_remote_md5_is_missing() {
    let files = [LocalFile { name: "doc.gdoc", regular: true, content: b"google doc content" }];
    let metadata = meta("doc.gdoc", Some("18"), None);
    let res = verify_single(&files, &metadata);
    assert!(!res.success);
    assert_eq!(res.hash_type, "MD5 Unavailable");
    assert_eq!(res.error_count, 1);
}

#[test]
fn verification_accepts_rclone_encoded_windows_filename() {
    let content: &'static [u8] = b"scene 01 test content";
    let files = [LocalFile { name: "Scene：01？.mov", regular: true, content }];
    let metadata = meta("Scene:01?.mov", Some(&content.len().to_string()), Some(md5_hex_of(content)));
    let res = verify_single(&files, &metadata);
    assert!(res.success);
    assert_eq!(res.matching_files, 1);
}

#[test]
fn verification_accepts_rclone_encoded_slash_filename() {
    let content: &'static [u8] = b"episode movie data";
    let files = [LocalFile { name: "Project／Episode.mov", regular: true, content }];
    let metadata = meta("Project/Episode.mov", Some(&content.len().to_string()), Some(md5_hex_of(content)));
    let res = verify_single(&files, &metadata);
    assert!(res.success);
    assert_eq!(res.matching_files, 1);
}

#[test]
fn verification_never_traverses_parent_directory_for_dotdot_name() {
    // Only the immediate entries of the destination are looked at; the file
    // lies in the parent directory, so the destination holds nothing.
    let secret: &'static [u8] = b"secret outside subdir";
    let metadata = meta("../secret.txt", Some("21"), Some(md5_hex_of(secret)));
    let res = verify_single(&[], &metadata);
    assert!(!res.success);
    assert_eq!(res.missing_on_dst, 1);
}

#[test]
fn verification_rejects_symlink_candidate() {
    let target: &'static [u8] = b"target file content";
    let files = [LocalFile { name: "symlink.mp4", regular: false, content: target }];
    let metadata = meta("symlink.mp4", Some("19"), Some(md5_hex_of(target)));
    let res = verify_single(&files, &metadata);
    assert!(!res.success);
    assert_eq!(res.missing_on_dst, 1);
}

#[test]
fn md5_hex_values() {
    assert_eq!(md5_hex_of(b""), "d41d8cd98f00b204e9800998ecf8427e");
    assert_eq!(md5_hex_of(b"abc"), "900150983cd24fb0d6963f7d28e17f72");
    let mut s = Md5Stream::new();
    s.update(b"a");
    s.update(b"bc");
    assert_eq!(s.finalize_hex(), "900150983cd24fb0d6963f7d28e17f72");
}

#[test]
fn upload_verdicts() {
    let ok = local_upload_verdict("ABCDEF", &Some("abcdef".to_string())).unwrap();
    assert!(ok.success);
    assert_eq!(ok.hash_type, "MD5 (Local vs Google Drive Remote)");
    assert_eq!(ok.details, vec!["Verified MD5 checksum match: abcdef".to_string()]);
    let bad = local_upload_verdict("aa", &Some("bb".to_string())).unwrap();
    assert!(!bad.success);
    assert_eq!(bad.differ_count, 1);
    assert_eq!(bad.details, vec!["MD5 Mismatch: local=aa, remote=bb".to_string()]);
    assert_eq!(
        local_upload_verdict("aa", &Some("  ".to_string())).err().unwrap(),
        "Google Drive did not return an MD5 hash for the uploaded file"
    );
    assert!(local_upload_verdict("aa", &None).is_err());
}

fn list(items: &[&str]) -> CheckField {
    CheckField::List(items.iter().map(|s| Some(s.to_string())).collect())
}

#[test]
fn directory_check_is_strict() {
    let report = CheckReport {
        success: Some(true),
        hash_type: Some("md5".to_string()),
        matched: list(&["a", "b"]),
        missing_on_dst: CheckField::Number(Some(0)),
        differ: list(&[]),
        error: CheckField::Other,
    };
    let v = check_report_verdict(&report);
    assert!(v.success);
    assert_eq!(v.hash_type, "MD5");
    assert_eq!(v.matching_files, 2);
    assert!(v.details.is_empty());

    let report = CheckReport {
        success: Some(true),
        hash_type: None,
        matched: list(&["a"]),
        missing_on_dst: list(&["m"]),
        differ: list(&["d"]),
        error: CheckField::Number(None),
    };
    let v = check_report_verdict(&report);
    assert!(!v.success);
    assert_eq!(v.hash_type, "MD5 Unavailable");
    assert_eq!(v.missing_on_dst, 1);
    assert_eq!(v.differ_count, 1);
    assert_eq!(
        v.details,
        vec![
            "Remote or local filesystem does not support MD5 checksums.".to_string(),
            "Differing (corrupted): d".to_string(),
            "Missing on destination: m".to_string(),
        ]
    );

    // Nothing matched: not verified, even with no differences.
    let report = CheckReport {
        success: Some(true),
        hash_type: Some("MD5".to_string()),
        matched: CheckField::Number(Some(0)),
        missing_on_dst: CheckField::Other,
        differ: CheckField::Other,
        error: CheckField::Other,
    };
    assert!(!check_report_verdict(&report).success);
}

#[test]
fn md5_hex_has_fixed_form() {
    let h = md5_hex_of(b"balladi");
    assert_eq!(h.len(), 32);
    assert!(h.chars().all(|c| c.is_ascii_digit() || ('a'..='f').contains(&c)));
}
