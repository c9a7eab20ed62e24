//! Transfer routing, rclone remote-control requests and error classification.
use vstd::prelude::*;
use vstd::string::*;
use crate::auth::drive::{connection_string_spec, is_id_char, is_id_text, lemma_capture_is_id_text, parse_drive_link_spec};
use crate::text::{
    all_ascii, ascii_lowered, ascii_uppered, lemma_ascii_case_changes, to_ascii_lowercase_str,
    first_occurrence_from, lemma_first_occurrence_at, lemma_first_occurrence_none, lemma_trailing_in, occurs_at, trim,
    chars_of, concat, find_str, first_occurrence, opt_view, seq_contains, seq_ends_with,
    seq_starts_with, str_contains, str_ends_with, str_starts_with, string_of, string_of_all,
    string_views, str_eq, to_lowercase, trim_end_chars, trim_end_len, unicode_lowercase,
};

verus! {

broadcast use vstd::string::group_string_axioms;

/// How a transfer moves data.
#[derive(Clone, Copy, Debug, PartialEq, Eq, Structural)]
pub enum TransferMode {
    DirectoryUpload,
    DirectoryDownload,
    DriveFileDownload,
    LocalFileUpload,
}

/// What a failed transfer's error text points to.
#[derive(Clone, Copy, Debug, PartialEq, Eq, Structural)]
pub enum TransferFailureKind {
    Authentication,
    PermissionDenied,
    ApiQuota,
    DailyUploadLimit,
    Network,
    DiskSpace,
    IntegrityMismatch,
    Unknown,
}

/// The classification of an error text that is already lower-cased.
pub open spec fn classify_lowered(l: Seq<char>) -> TransferFailureKind {
    if seq_contains(l, "dailylimitexceeded"@) || seq_contains(l, "750gb"@) || seq_contains(
        l,
        "750 gb"@,
    ) || seq_contains(l, "daily upload limit"@) || seq_contains(l, "upload limit reached"@)
        || seq_contains(l, "upload limit exceeded"@) {
        TransferFailureKind::DailyUploadLimit
    } else if seq_contains(l, "userratelimitexceeded"@) || seq_contains(l, "user rate limit"@)
        || seq_contains(l, "rate_limit_exceeded"@) || seq_contains(l, "ratelimitexceeded"@)
        || seq_contains(l, "queries"@) || seq_contains(l, "quota exceeded for quota metric"@) || (
    seq_contains(l, "403"@) && seq_contains(l, "quota"@)) || seq_contains(l, "429"@) {
        TransferFailureKind::ApiQuota
    } else if seq_contains(l, "unauthorized"@) || seq_contains(l, "token"@) || seq_contains(
        l,
        "oauth"@,
    ) || seq_contains(l, "invalid_grant"@) || seq_contains(l, "auth"@) {
        TransferFailureKind::Authentication
    } else if seq_contains(l, "accessdenied"@) || seq_contains(l, "permission denied"@)
        || seq_contains(l, "403 forbidden"@) || seq_contains(l, "not found"@) {
        TransferFailureKind::PermissionDenied
    } else if seq_contains(l, "no space"@) || seq_contains(l, "disk full"@) || seq_contains(
        l,
        "enospc"@,
    ) {
        TransferFailureKind::DiskSpace
    } else if seq_contains(l, "connection reset"@) || seq_contains(l, "connection refused"@)
        || seq_contains(l, "timeout"@) || seq_contains(l, "network"@) || seq_contains(
        l,
        "broken pipe"@,
    ) {
        TransferFailureKind::Network
    } else if seq_contains(l, "corrupt"@) || seq_contains(l, "md5 mismatch"@) || seq_contains(
        l,
        "hash mismatch"@,
    ) || seq_contains(l, "differ"@) {
        TransferFailureKind::IntegrityMismatch
    } else {
        TransferFailureKind::Unknown
    }
}

/// The category of an error text: that of its lower-cased form. The ASCII
/// letters are lower-cased first, which `str::to_lowercase` does to them
/// anyway, so the category is that of the text's full lower-casing.
pub open spec fn error_category(s: Seq<char>) -> TransferFailureKind {
    classify_lowered(unicode_lowercase(ascii_lowered(s)))
}

/// Classifies a transfer error by the phrases that its lower-cased text holds;
/// daily upload limits are tested first, then API quotas, authentication,
/// permissions, disk space, network and integrity.
pub fn classify_transfer_error(error_str: &str) -> (res: TransferFailureKind)
    ensures
        res == error_category(error_str@),
        all_ascii(error_str@) ==> res == classify_lowered(ascii_lowered(error_str@)),
{
    let folded = to_ascii_lowercase_str(error_str);
    proof {
        lemma_ascii_case_changes(error_str@);
    }
    let lower_s = to_lowercase(folded.as_str());
    let l = lower_s.as_str();
    if str_contains(l, "dailylimitexceeded") || str_contains(l, "750gb") || str_contains(
        l,
        "750 gb",
    ) || str_contains(l, "daily upload limit") || str_contains(l, "upload limit reached")
        || str_contains(l, "upload limit exceeded") {
        TransferFailureKind::DailyUploadLimit
    } else if str_contains(l, "userratelimitexceeded") || str_contains(l, "user rate limit")
        || str_contains(l, "rate_limit_exceeded") || str_contains(l, "ratelimitexceeded")
        || str_contains(l, "queries") || str_contains(l, "quota exceeded for quota metric") || (
    str_contains(l, "403") && str_contains(l, "quota")) || str_contains(l, "429") {
        TransferFailureKind::ApiQuota
    } else if str_contains(l, "unauthorized") || str_contains(l, "token") || str_contains(
        l,
        "oauth",
    ) || str_contains(l, "invalid_grant") || str_contains(l, "auth") {
        TransferFailureKind::Authentication
    } else if str_contains(l, "accessdenied") || str_contains(l, "permission denied")
        || str_contains(l, "403 forbidden") || str_contains(l, "not found") {
        TransferFailureKind::PermissionDenied
    } else if str_contains(l, "no space") || str_contains(l, "disk full") || str_contains(
        l,
        "enospc",
    ) {
        TransferFailureKind::DiskSpace
    } else if str_contains(l, "connection reset") || str_contains(l, "connection refused")
        || str_contains(l, "timeout") || str_contains(l, "network") || str_contains(
        l,
        "broken pipe",
    ) {
        TransferFailureKind::Network
    } else if str_contains(l, "corrupt") || str_contains(l, "md5 mismatch") || str_contains(
        l,
        "hash mismatch",
    ) || str_contains(l, "differ") {
        TransferFailureKind::IntegrityMismatch
    } else {
        TransferFailureKind::Unknown
    }
}

/// The category of an error text does not depend on the case of its ASCII
/// letters: the text, its ASCII upper-cased and its ASCII lower-cased forms
/// fall in one category.
pub proof fn law_classification_ignores_ascii_case(s: Seq<char>)
    ensures
        error_category(ascii_uppered(s)) == error_category(s),
        error_category(ascii_lowered(s)) == error_category(s),
{
    lemma_ascii_case_changes(s);
}

/// A lower-cased error text names the daily upload limit.
pub open spec fn names_daily_limit(l: Seq<char>) -> bool {
    ||| seq_contains(l, "dailylimitexceeded"@)
    ||| seq_contains(l, "750gb"@)
    ||| seq_contains(l, "750 gb"@)
    ||| seq_contains(l, "daily upload limit"@)
    ||| seq_contains(l, "upload limit reached"@)
    ||| seq_contains(l, "upload limit exceeded"@)
}

/// A lower-cased error text names an API rate or quota limit.
pub open spec fn names_api_quota(l: Seq<char>) -> bool {
    ||| seq_contains(l, "userratelimitexceeded"@)
    ||| seq_contains(l, "user rate limit"@)
    ||| seq_contains(l, "rate_limit_exceeded"@)
    ||| seq_contains(l, "ratelimitexceeded"@)
    ||| seq_contains(l, "queries"@)
    ||| seq_contains(l, "quota exceeded for quota metric"@)
    ||| (seq_contains(l, "403"@) && seq_contains(l, "quota"@))
    ||| seq_contains(l, "429"@)
}

/// A lower-cased error text names an authentication problem.
pub open spec fn names_authentication(l: Seq<char>) -> bool {
    ||| seq_contains(l, "unauthorized"@)
    ||| seq_contains(l, "token"@)
    ||| seq_contains(l, "oauth"@)
    ||| seq_contains(l, "invalid_grant"@)
    ||| seq_contains(l, "auth"@)
}

/// A lower-cased error text names a refused access.
pub open spec fn names_permission(l: Seq<char>) -> bool {
    ||| seq_contains(l, "accessdenied"@)
    ||| seq_contains(l, "permission denied"@)
    ||| seq_contains(l, "403 forbidden"@)
    ||| seq_contains(l, "not found"@)
}

/// A lower-cased error text names a full disk.
pub open spec fn names_disk_space(l: Seq<char>) -> bool {
    ||| seq_contains(l, "no space"@)
    ||| seq_contains(l, "disk full"@)
    ||| seq_contains(l, "enospc"@)
}

/// A lower-cased error text names a network failure.
pub open spec fn names_network(l: Seq<char>) -> bool {
    ||| seq_contains(l, "connection reset"@)
    ||| seq_contains(l, "connection refused"@)
    ||| seq_contains(l, "timeout"@)
    ||| seq_contains(l, "network"@)
    ||| seq_contains(l, "broken pipe"@)
}

/// A lower-cased error text names corrupted or differing data.
pub open spec fn names_integrity(l: Seq<char>) -> bool {
    ||| seq_contains(l, "corrupt"@)
    ||| seq_contains(l, "md5 mismatch"@)
    ||| seq_contains(l, "hash mismatch"@)
    ||| seq_contains(l, "differ"@)
}

/// The category of a lower-cased error text is the first of these that it
/// names: the daily upload limit, an API quota, authentication, permission,
/// disk space, the network, integrity; a text that names none is `Unknown`.
/// So, for one, a text holding `timeout` and nothing of the earlier groups is
/// a network failure.
pub proof fn law_error_category_by_phrases(l: Seq<char>)
    ensures
        names_daily_limit(l) ==> classify_lowered(l) == TransferFailureKind::DailyUploadLimit,
        !names_daily_limit(l) && names_api_quota(l) ==> classify_lowered(l) == TransferFailureKind::ApiQuota,
        !names_daily_limit(l) && !names_api_quota(l) && names_authentication(l) ==> classify_lowered(l)
            == TransferFailureKind::Authentication,
        !names_daily_limit(l) && !names_api_quota(l) && !names_authentication(l) && names_permission(l)
            ==> classify_lowered(l) == TransferFailureKind::PermissionDenied,
        !names_daily_limit(l) && !names_api_quota(l) && !names_authentication(l) && !names_permission(l)
            && names_disk_space(l) ==> classify_lowered(l) == TransferFailureKind::DiskSpace,
        !names_daily_limit(l) && !names_api_quota(l) && !names_authentication(l) && !names_permission(l)
            && !names_disk_space(l) && names_network(l) ==> classify_lowered(l)
            == TransferFailureKind::Network,
        !names_daily_limit(l) && !names_api_quota(l) && !names_authentication(l) && !names_permission(l)
            && !names_disk_space(l) && !names_network(l) && names_integrity(l) ==> classify_lowered(l)
            == TransferFailureKind::IntegrityMismatch,
        !names_daily_limit(l) && !names_api_quota(l) && !names_authentication(l) && !names_permission(l)
            && !names_disk_space(l) && !names_network(l) && !names_integrity(l) ==> classify_lowered(l)
            == TransferFailureKind::Unknown,
{
}

/// An rclone file system string that names the Google Drive remote.
pub open spec fn is_drive_fs(s: Seq<char>) -> bool {
    seq_starts_with(s, "gdrive:"@) || seq_starts_with(s, "gdrive,"@)
}

/// Whether an rclone file system string names the Google Drive remote.
pub fn is_google_drive_fs(value: &str) -> (res: bool)
    ensures
        res == is_drive_fs(value@),
{
    str_starts_with(value, "gdrive:") || str_starts_with(value, "gdrive,")
}

/// The verification route for a recorded transfer mode: a directory transfer
/// takes its direction from the source.
pub open spec fn verification_route_spec(mode: TransferMode, src: Seq<char>) -> TransferMode {
    match mode {
        TransferMode::DirectoryDownload => if !is_drive_fs(src) {
            TransferMode::DirectoryUpload
        } else {
            mode
        },
        TransferMode::DirectoryUpload => if is_drive_fs(src) {
            TransferMode::DirectoryDownload
        } else {
            mode
        },
        _ => mode,
    }
}

/// Corrects the direction of a directory transfer mode by its source.
pub fn normalize_verification_route(mode: TransferMode, src: &str) -> (res: TransferMode)
    ensures
        res == verification_route_spec(mode, src@),
{
    match mode {
        TransferMode::DirectoryDownload => if !is_google_drive_fs(src) {
            TransferMode::DirectoryUpload
        } else {
            mode
        },
        TransferMode::DirectoryUpload => if is_google_drive_fs(src) {
            TransferMode::DirectoryDownload
        } else {
            mode
        },
        _ => mode,
    }
}

/// What the local file system reports for a source path (without following a
/// symbolic link).
pub enum LocalSourceKind {
    /// The metadata could not be read; the text of the error.
    Unavailable(String),
    Symlink,
    File,
    Directory,
    Other,
}

pub open spec fn route_view(r: Result<TransferMode, String>) -> Result<TransferMode, Seq<char>> {
    match r {
        Ok(m) => Ok(m),
        Err(e) => Err(e@),
    }
}

/// The transfer mode for a source: a Drive source is downloaded as one file
/// when the caller asks for it and as a folder otherwise; a local source is
/// uploaded as what it really is, a regular file or a directory.
pub open spec fn transfer_route_spec(src: Seq<char>, requested_single_file: bool, local: LocalSourceKind) -> Result<TransferMode, Seq<char>> {
    if is_drive_fs(src) {
        if requested_single_file {
            Ok(TransferMode::DriveFileDownload)
        } else {
            Ok(TransferMode::DirectoryDownload)
        }
    } else {
        match local {
            LocalSourceKind::Unavailable(e) => Err("Local source is unavailable: "@ + e@),
            LocalSourceKind::Symlink => Err("Symlink upload sources are not allowed."@),
            LocalSourceKind::File => Ok(TransferMode::LocalFileUpload),
            LocalSourceKind::Directory => Ok(TransferMode::DirectoryUpload),
            LocalSourceKind::Other => Err("Local source is neither a regular file nor directory."@),
        }
    }
}

/// Chooses how to transfer `src`; `local` is what the file system reports for
/// `src` when it is a local path.
pub fn select_transfer_route(src: &str, requested_single_file: bool, local: &LocalSourceKind) -> (res: Result<TransferMode, String>)
    ensures
        route_view(res) == transfer_route_spec(src@, requested_single_file, *local),
{
    if is_google_drive_fs(src) {
        if requested_single_file {
            Ok(TransferMode::DriveFileDownload)
        } else {
            Ok(TransferMode::DirectoryDownload)
        }
    } else {
        match local {
            LocalSourceKind::Unavailable(e) => Err(concat("Local source is unavailable: ", e.as_str())),
            LocalSourceKind::Symlink => Err(String::from_str("Symlink upload sources are not allowed.")),
            LocalSourceKind::File => Ok(TransferMode::LocalFileUpload),
            LocalSourceKind::Directory => Ok(TransferMode::DirectoryUpload),
            LocalSourceKind::Other => Err(
                String::from_str("Local source is neither a regular file nor directory."),
            ),
        }
    }
}

/// A local source is never routed to a Drive download, and a Drive source
/// never to an upload.
pub proof fn law_route_direction(src: Seq<char>, single: bool, local: LocalSourceKind)
    ensures
        transfer_route_spec(src, single, local) matches Ok(m) ==> (is_drive_fs(src) <==> (m
            == TransferMode::DriveFileDownload || m == TransferMode::DirectoryDownload)),
{
}

/// The route of every source: a Drive source is a single-file download when
/// one file is asked for and a folder download otherwise; a local regular
/// file is a file upload and a local directory a directory upload, whatever
/// was asked; a symbolic link, a special file or an unreadable path is
/// refused with its reason.
pub proof fn law_route_of_source(src: Seq<char>, single: bool, local: LocalSourceKind)
    ensures
        is_drive_fs(src) && single ==> transfer_route_spec(src, single, local) == Ok::<TransferMode, Seq<char>>(
            TransferMode::DriveFileDownload,
        ),
        is_drive_fs(src) && !single ==> transfer_route_spec(src, single, local) == Ok::<TransferMode, Seq<char>>(
            TransferMode::DirectoryDownload,
        ),
        !is_drive_fs(src) && local == LocalSourceKind::File ==> transfer_route_spec(src, single, local)
            == Ok::<TransferMode, Seq<char>>(TransferMode::LocalFileUpload),
        !is_drive_fs(src) && local == LocalSourceKind::Directory ==> transfer_route_spec(src, single, local)
            == Ok::<TransferMode, Seq<char>>(TransferMode::DirectoryUpload),
        !is_drive_fs(src) && local == LocalSourceKind::Symlink ==> transfer_route_spec(src, single, local)
            == Err::<TransferMode, Seq<char>>("Symlink upload sources are not allowed."@),
        !is_drive_fs(src) && local == LocalSourceKind::Other ==> transfer_route_spec(src, single, local)
            == Err::<TransferMode, Seq<char>>("Local source is neither a regular file nor directory."@),
        !is_drive_fs(src) ==> (local matches LocalSourceKind::Unavailable(e) ==> transfer_route_spec(
            src,
            single,
            local,
        ) == Err::<TransferMode, Seq<char>>("Local source is unavailable: "@ + e@)),
{
}

/// Normalising a route is idempotent, and it keeps what a route selection gave.
pub proof fn law_normalize_route_stable(src: Seq<char>, single: bool, local: LocalSourceKind, mode: TransferMode)
    ensures
        verification_route_spec(verification_route_spec(mode, src), src) == verification_route_spec(mode, src),
        transfer_route_spec(src, single, local) matches Ok(m) ==> verification_route_spec(m, src) == m,
{
}


// ---------------------------------------------------------------------------
// Files that never travel
// ---------------------------------------------------------------------------

/// Operating-system clutter that uploads leave out (`OS_JUNK_EXCLUDES`):
/// rules ending in `*` match by prefix, the others by the whole name.
pub open spec fn os_junk_excludes() -> Seq<Seq<char>> {
    seq![".DS_Store"@, "._*"@, ".Trash*"@, "Thumbs.db"@, "desktop.ini"@]
}

/// The exclusion rules, in order.
pub fn os_junk_excludes_list() -> (res: Vec<String>)
    ensures
        string_views(res@) == os_junk_excludes(),
{
    let mut v: Vec<String> = Vec::new();
    v.push(String::from_str(".DS_Store"));
    v.push(String::from_str("._*"));
    v.push(String::from_str(".Trash*"));
    v.push(String::from_str("Thumbs.db"));
    v.push(String::from_str("desktop.ini"));
    assert(string_views(v@) =~= os_junk_excludes());
    v
}

pub open spec fn junk_rule_matches(rule: Seq<char>, name: Seq<char>) -> bool {
    if seq_ends_with(rule, "*"@) {
        seq_starts_with(name, trim_end_chars(rule, "*"@))
    } else {
        name == rule
    }
}

pub open spec fn is_os_junk(name: Seq<char>) -> bool {
    exists|i: int| 0 <= i < os_junk_excludes().len() && junk_rule_matches(#[trigger] os_junk_excludes()[i], name)
}

fn junk_rule_matches_exec(rule: &str, name: &str) -> (res: bool)
    ensures
        res == junk_rule_matches(rule@, name@),
{
    if str_ends_with(rule, "*") {
        let rv = chars_of(rule);
        let star = chars_of("*");
        let keep = trim_end_len(&rv, &star);
        let prefix = string_of(&rv, 0, keep);
        str_starts_with(name, prefix.as_str())
    } else {
        crate::text::str_eq(name, rule)
    }
}

/// Whether a file name is operating-system clutter that local size counts and
/// uploads leave out.
pub fn is_os_junk_name(name: &str) -> (res: bool)
    ensures
        res == is_os_junk(name@),
{
    let rules = os_junk_excludes_list();
    let mut i: usize = 0;
    while i < rules.len()
        invariant
            i <= rules.len(),
            string_views(rules@) == os_junk_excludes(),
            forall|k: int| 0 <= k < i ==> !junk_rule_matches(#[trigger] os_junk_excludes()[k], name@),
        decreases rules.len() - i,
    {
        assert(rules@[i as int]@ == os_junk_excludes()[i as int]);
        if junk_rule_matches_exec(rules[i].as_str(), name) {
            return true;
        }
        i = i + 1;
    }
    false
}

// ---------------------------------------------------------------------------
// Remote-control requests
// ---------------------------------------------------------------------------

/// The `_config` block of a transfer request.
pub struct RcConfig {
    pub drive_chunk_size: String,
    pub drive_upload_cutoff: String,
    pub drive_acknowledge_abuse: bool,
    pub drive_stop_on_upload_limit: bool,
    pub buffer_size: String,
    pub checkers: u64,
    pub low_level_retries: u64,
    pub retries: u64,
    pub timeout: String,
    pub transfers: u64,
    pub multi_thread_streams: Option<u64>,
    pub multi_thread_cutoff: Option<String>,
    pub create_empty_src_dirs: Option<bool>,
    pub check_first: Option<bool>,
}

pub struct ConfigView {
    pub drive_chunk_size: Seq<char>,
    pub drive_upload_cutoff: Seq<char>,
    pub drive_acknowledge_abuse: bool,
    pub drive_stop_on_upload_limit: bool,
    pub buffer_size: Seq<char>,
    pub checkers: u64,
    pub low_level_retries: u64,
    pub retries: u64,
    pub timeout: Seq<char>,
    pub transfers: u64,
    pub multi_thread_streams: Option<u64>,
    pub multi_thread_cutoff: Option<Seq<char>>,
    pub create_empty_src_dirs: Option<bool>,
    pub check_first: Option<bool>,
}

impl View for RcConfig {
    type V = ConfigView;

    open spec fn view(&self) -> ConfigView {
        ConfigView {
            drive_chunk_size: self.drive_chunk_size@,
            drive_upload_cutoff: self.drive_upload_cutoff@,
            drive_acknowledge_abuse: self.drive_acknowledge_abuse,
            drive_stop_on_upload_limit: self.drive_stop_on_upload_limit,
            buffer_size: self.buffer_size@,
            checkers: self.checkers,
            low_level_retries: self.low_level_retries,
            retries: self.retries,
            timeout: self.timeout@,
            transfers: self.transfers,
            multi_thread_streams: self.multi_thread_streams,
            multi_thread_cutoff: opt_view(self.multi_thread_cutoff),
            create_empty_src_dirs: self.create_empty_src_dirs,
            check_first: self.check_first,
        }
    }
}

/// The tuned rclone options of each transfer mode: 128M Drive chunks, 16M
/// upload cut-off and buffers, 8 checkers, 10 low-level retries, 3 retries,
/// a 5 minute timeout; parallelism and directory handling by mode.
pub open spec fn config_spec(mode: TransferMode) -> ConfigView {
    let downloads = mode == TransferMode::DriveFileDownload || mode == TransferMode::DirectoryDownload;
    let directories = mode == TransferMode::DirectoryUpload || mode == TransferMode::DirectoryDownload;
    ConfigView {
        drive_chunk_size: "128M"@,
        drive_upload_cutoff: "16M"@,
        drive_acknowledge_abuse: true,
        drive_stop_on_upload_limit: true,
        buffer_size: "16M"@,
        checkers: 8,
        low_level_retries: 10,
        retries: 3,
        timeout: "5m"@,
        transfers: match mode {
            TransferMode::DirectoryUpload => 8,
            TransferMode::LocalFileUpload => 1,
            _ => 4,
        },
        multi_thread_streams: if downloads { Some(4) } else { None },
        multi_thread_cutoff: if downloads { Some("50M"@) } else { None },
        create_empty_src_dirs: if directories { Some(true) } else { None },
        check_first: if directories { Some(false) } else { None },
    }
}

fn config_for(mode: TransferMode) -> (res: RcConfig)
    ensures
        res@ == config_spec(mode),
{
    let downloads = mode == TransferMode::DriveFileDownload || mode == TransferMode::DirectoryDownload;
    let directories = mode == TransferMode::DirectoryUpload || mode == TransferMode::DirectoryDownload;
    RcConfig {
        drive_chunk_size: String::from_str("128M"),
        drive_upload_cutoff: String::from_str("16M"),
        drive_acknowledge_abuse: true,
        drive_stop_on_upload_limit: true,
        buffer_size: String::from_str("16M"),
        checkers: 8,
        low_level_retries: 10,
        retries: 3,
        timeout: String::from_str("5m"),
        transfers: match mode {
            TransferMode::DirectoryUpload => 8,
            TransferMode::LocalFileUpload => 1,
            _ => 4,
        },
        multi_thread_streams: if downloads { Some(4) } else { None },
        multi_thread_cutoff: if downloads { Some(String::from_str("50M")) } else { None },
        create_empty_src_dirs: if directories { Some(true) } else { None },
        check_first: if directories { Some(false) } else { None },
    }
}

/// The parameters of a transfer request.
pub enum RcParams {
    /// `backend/command` with a command, the file system and its arguments.
    BackendCommand { command: String, fs: String, args: Vec<String> },
    /// `operations/copyfile`.
    CopyFile { src_fs: String, src_remote: String, dst_fs: String, dst_remote: String },
    /// `sync/copy`, with the exclusion rules of its filter when it has one.
    SyncCopy { src_fs: String, dst_fs: String, exclude_rules: Option<Vec<String>> },
}

pub enum ParamsView {
    BackendCommand { command: Seq<char>, fs: Seq<char>, args: Seq<Seq<char>> },
    CopyFile { src_fs: Seq<char>, src_remote: Seq<char>, dst_fs: Seq<char>, dst_remote: Seq<char> },
    SyncCopy { src_fs: Seq<char>, dst_fs: Seq<char>, exclude_rules: Option<Seq<Seq<char>>> },
}

impl View for RcParams {
    type V = ParamsView;

    open spec fn view(&self) -> ParamsView {
        match self {
            RcParams::BackendCommand { command, fs, args } => ParamsView::BackendCommand {
                command: command@,
                fs: fs@,
                args: string_views(args@),
            },
            RcParams::CopyFile { src_fs, src_remote, dst_fs, dst_remote } => ParamsView::CopyFile {
                src_fs: src_fs@,
                src_remote: src_remote@,
                dst_fs: dst_fs@,
                dst_remote: dst_remote@,
            },
            RcParams::SyncCopy { src_fs, dst_fs, exclude_rules } => ParamsView::SyncCopy {
                src_fs: src_fs@,
                dst_fs: dst_fs@,
                exclude_rules: match exclude_rules {
                    Some(r) => Some(string_views(r@)),
                    None => None,
                },
            },
        }
    }
}

/// A transfer request for the rclone remote-control API.
pub struct TransferRequest {
    pub normalized_destination: String,
    pub method: &'static str,
    pub params: RcParams,
    pub config: RcConfig,
    /// The request runs as a background job (`_async`).
    pub is_async: bool,
    pub mode: TransferMode,
}

pub struct RequestView {
    pub normalized_destination: Seq<char>,
    pub method: Seq<char>,
    pub params: ParamsView,
    pub config: ConfigView,
    pub is_async: bool,
    pub mode: TransferMode,
}

impl View for TransferRequest {
    type V = RequestView;

    open spec fn view(&self) -> RequestView {
        RequestView {
            normalized_destination: self.normalized_destination@,
            method: self.method@,
            params: self.params@,
            config: self.config@,
            is_async: self.is_async,
            mode: self.mode,
        }
    }
}

/// What the environment tells about the paths of a transfer.
pub struct RequestContext {
    /// The parent directory of a local source file (`Path::parent`).
    pub source_parent: String,
    /// The file name of a local source file (`Path::file_name`).
    pub source_file_name: String,
    /// The outcome of creating the destination directory of a Drive file
    /// download (`create_dir_all`); not consulted for other modes.
    pub destination_dir: Result<(), String>,
}

/// Only a single-file Drive download creates its destination directory.
pub open spec fn needs_destination_dir(mode: TransferMode) -> bool {
    mode == TransferMode::DriveFileDownload
}

/// Whether the destination directory must be created before the request is built.
pub fn needs_destination_directory(mode: TransferMode) -> (res: bool)
    ensures
        res == needs_destination_dir(mode),
{
    mode == TransferMode::DriveFileDownload
}

/// Splits `s` at its first comma: the part before it, and the rclone file
/// system string `gdrive,<rest>:` (or `gdrive:` without a comma).
pub open spec fn split_id_and_fs(s: Seq<char>) -> (Seq<char>, Seq<char>) {
    match first_occurrence(s, ","@) {
        Some(c) => (s.take(c), "gdrive,"@ + s.skip(c + 1) + ":"@),
        None => (s, "gdrive:"@),
    }
}

/// The file ID and file system for `copyid` of a Drive source: the ID is
/// read after `root_folder_id=` (trailing `:` dropped) or after `gdrive:`.
pub open spec fn copyid_target(src: Seq<char>) -> (Seq<char>, Seq<char>) {
    match first_occurrence(src, "root_folder_id="@) {
        Some(idx) => split_id_and_fs(trim_end_chars(src.skip(idx + 15), ":"@)),
        None => if seq_starts_with(src, "gdrive:"@) {
            split_id_and_fs(src.skip(7))
        } else {
            (src, "gdrive:"@)
        },
    }
}

pub open spec fn context_dir_view(ctx: RequestContext) -> Result<(), Seq<char>> {
    match ctx.destination_dir {
        Ok(_) => Ok(()),
        Err(e) => Err(e@),
    }
}

/// What [`build_transfer_request`] returns.
pub open spec fn transfer_request_spec(
    src: Seq<char>,
    dst: Seq<char>,
    mode: TransferMode,
    parent: Seq<char>,
    file_name: Seq<char>,
    dir: Result<(), Seq<char>>,
) -> Result<RequestView, Seq<char>> {
    match mode {
        TransferMode::DriveFileDownload => match dir {
            Err(e) => Err("Could not create download destination '"@ + dst + "': "@ + e),
            Ok(_) => {
                let d = trim_end_chars(dst, "/"@) + "/"@;
                let (id, fs) = copyid_target(src);
                Ok(
                    RequestView {
                        normalized_destination: d,
                        method: "backend/command"@,
                        params: ParamsView::BackendCommand { command: "copyid"@, fs: fs, args: seq![id, d] },
                        config: config_spec(mode),
                        is_async: true,
                        mode: mode,
                    },
                )
            },
        },
        TransferMode::LocalFileUpload => Ok(
            RequestView {
                normalized_destination: dst,
                method: "operations/copyfile"@,
                params: ParamsView::CopyFile {
                    src_fs: parent,
                    src_remote: file_name,
                    dst_fs: dst,
                    dst_remote: file_name,
                },
                config: config_spec(mode),
                is_async: true,
                mode: mode,
            },
        ),
        TransferMode::DirectoryUpload => Ok(
            RequestView {
                normalized_destination: dst,
                method: "sync/copy"@,
                params: ParamsView::SyncCopy { src_fs: src, dst_fs: dst, exclude_rules: Some(os_junk_excludes()) },
                config: config_spec(mode),
                is_async: true,
                mode: mode,
            },
        ),
        TransferMode::DirectoryDownload => Ok(
            RequestView {
                normalized_destination: dst,
                method: "sync/copy"@,
                params: ParamsView::SyncCopy { src_fs: src, dst_fs: dst, exclude_rules: None },
                config: config_spec(mode),
                is_async: true,
                mode: mode,
            },
        ),
    }
}

pub open spec fn request_view(r: Result<TransferRequest, String>) -> Result<RequestView, Seq<char>> {
    match r {
        Ok(q) => Ok(q@),
        Err(e) => Err(e@),
    }
}

fn split_id_and_fs_exec(s: &Vec<char>) -> (res: (String, String))
    ensures
        (res.0@, res.1@) == split_id_and_fs(s@),
{
    match find_str(s, ",") {
        Some(c) => {
            proof {
                reveal_strlit(",");
                assert(","@.len() == 1);
                assert(s@.len() == s.len());
            }
            let id = string_of(s, 0, c);
            let rest = string_of(s, c + 1, s.len());
            let mut fs = concat("gdrive,", rest.as_str());
            fs.append(":");
            assert(s@.subrange(0, c as int) == s@.take(c as int));
            assert(s@.subrange(c + 1, s@.len() as int) == s@.skip(c + 1));
            (id, fs)
        },
        None => (string_of_all(s), String::from_str("gdrive:")),
    }
}

fn copyid_target_exec(src: &str) -> (res: (String, String))
    ensures
        (res.0@, res.1@) == copyid_target(src@),
{
    let sv = chars_of(src);
    match find_str(&sv, "root_folder_id=") {
        Some(idx) => {
            proof {
                reveal_strlit("root_folder_id=");
            }
            let after = crate::text::slice_vec(&sv, idx + 15, sv.len());
            let colon = chars_of(":");
            let keep = trim_end_len(&after, &colon);
            let clean = crate::text::slice_vec(&after, 0, keep);
            assert(after@ == sv@.skip(idx + 15));
            assert(clean@ == after@.take(keep as int));
            split_id_and_fs_exec(&clean)
        },
        None => {
            if str_starts_with(src, "gdrive:") {
                proof {
                    reveal_strlit("gdrive:");
                }
                let stripped = crate::text::slice_vec(&sv, 7, sv.len());
                assert(stripped@ == sv@.skip(7));
                split_id_and_fs_exec(&stripped)
            } else {
                (String::from_str(src), String::from_str("gdrive:"))
            }
        },
    }
}

/// `dst` without trailing `/`, then one `/`.
fn directory_with_slash(dst: &str) -> (res: String)
    ensures
        res@ == trim_end_chars(dst@, "/"@) + "/"@,
{
    let dv = chars_of(dst);
    let slash = chars_of("/");
    let keep = trim_end_len(&dv, &slash);
    let mut d = string_of(&dv, 0, keep);
    d.append("/");
    d
}

/// Builds the remote-control request for a transfer of `src` to `dst` in the
/// given mode; `ctx` holds what the file system told about the paths.
pub fn build_transfer_request(src: &str, dst: &str, mode: TransferMode, ctx: &RequestContext) -> (res: Result<TransferRequest, String>)
    ensures
        request_view(res) == transfer_request_spec(
            src@,
            dst@,
            mode,
            ctx.source_parent@,
            ctx.source_file_name@,
            context_dir_view(*ctx),
        ),
{
    match mode {
        TransferMode::DriveFileDownload => {
            match &ctx.destination_dir {
                Err(e) => {
                    let mut msg = concat("Could not create download destination '", dst);
                    msg.append("': ");
                    msg.append(e.as_str());
                    return Err(msg);
                },
                Ok(_) => {},
            }
            let dst_dir = directory_with_slash(dst);
            let (file_id, fs_name) = copyid_target_exec(src);
            let mut args: Vec<String> = Vec::new();
            args.push(file_id);
            args.push(dst_dir.clone());
            assert(string_views(args@) =~= seq![args@[0]@, dst_dir@]);
            Ok(
                TransferRequest {
                    normalized_destination: dst_dir,
                    method: "backend/command",
                    params: RcParams::BackendCommand {
                        command: String::from_str("copyid"),
                        fs: fs_name,
                        args: args,
                    },
                    config: config_for(mode),
                    is_async: true,
                    mode: mode,
                },
            )
        },
        TransferMode::LocalFileUpload => Ok(
            TransferRequest {
                normalized_destination: String::from_str(dst),
                method: "operations/copyfile",
                params: RcParams::CopyFile {
                    src_fs: ctx.source_parent.clone(),
                    src_remote: ctx.source_file_name.clone(),
                    dst_fs: String::from_str(dst),
                    dst_remote: ctx.source_file_name.clone(),
                },
                config: config_for(mode),
                is_async: true,
                mode: mode,
            },
        ),
        TransferMode::DirectoryUpload => Ok(
            TransferRequest {
                normalized_destination: String::from_str(dst),
                method: "sync/copy",
                params: RcParams::SyncCopy {
                    src_fs: String::from_str(src),
                    dst_fs: String::from_str(dst),
                    exclude_rules: Some(os_junk_excludes_list()),
                },
                config: config_for(mode),
                is_async: true,
                mode: mode,
            },
        ),
        TransferMode::DirectoryDownload => Ok(
            TransferRequest {
                normalized_destination: String::from_str(dst),
                method: "sync/copy",
                params: RcParams::SyncCopy {
                    src_fs: String::from_str(src),
                    dst_fs: String::from_str(dst),
                    exclude_rules: None,
                },
                config: config_for(mode),
                is_async: true,
                mode: mode,
            },
        ),
    }
}

/// Uploads of directories always carry the clutter filter, downloads never.
pub proof fn law_filter_directionality(
    src: Seq<char>,
    dst: Seq<char>,
    mode: TransferMode,
    parent: Seq<char>,
    file_name: Seq<char>,
    dir: Result<(), Seq<char>>,
)
    ensures
        transfer_request_spec(src, dst, mode, parent, file_name, dir) matches Ok(r) ==> (match r.params {
            ParamsView::SyncCopy { exclude_rules, .. } => (exclude_rules is Some) == (mode
                == TransferMode::DirectoryUpload),
            _ => mode == TransferMode::DriveFileDownload || mode == TransferMode::LocalFileUpload,
        }),
{
}

/// Directory transfers keep empty folders (camera cards rely on them), and
/// every transfer streams Drive data in 128M chunks as a background job.
pub proof fn law_directory_transfers_keep_empty_folders(
    src: Seq<char>,
    dst: Seq<char>,
    mode: TransferMode,
    parent: Seq<char>,
    file_name: Seq<char>,
    dir: Result<(), Seq<char>>,
)
    ensures
        transfer_request_spec(src, dst, mode, parent, file_name, dir) matches Ok(r) ==> {
            &&& (mode == TransferMode::DirectoryUpload || mode == TransferMode::DirectoryDownload)
                ==> r.config.create_empty_src_dirs == Some(true)
            &&& r.config.drive_chunk_size == "128M"@
            &&& r.is_async
        },
{
}

/// Every request copies from the source towards the destination: a directory
/// transfer (upload or download) is a `sync/copy` from `src` to `dst`; a
/// file upload copies into `dst`; a Drive file download copies into the
/// destination directory, which is `dst` with one trailing `/`. Each request
/// carries the mode it was built for.
pub proof fn law_request_direction(
    src: Seq<char>,
    dst: Seq<char>,
    mode: TransferMode,
    parent: Seq<char>,
    file_name: Seq<char>,
    dir: Result<(), Seq<char>>,
)
    ensures
        transfer_request_spec(src, dst, mode, parent, file_name, dir) matches Ok(r) ==> {
            &&& r.mode == mode
            &&& (mode == TransferMode::DirectoryUpload || mode == TransferMode::DirectoryDownload) ==> {
                &&& r.method == "sync/copy"@
                &&& r.normalized_destination == dst
                &&& r.params matches ParamsView::SyncCopy { src_fs, dst_fs, .. } && src_fs == src && dst_fs
                    == dst
            }
            &&& mode == TransferMode::LocalFileUpload ==> {
                &&& r.method == "operations/copyfile"@
                &&& r.normalized_destination == dst
                &&& r.params matches ParamsView::CopyFile { dst_fs, .. } && dst_fs == dst
            }
            &&& mode == TransferMode::DriveFileDownload ==> {
                &&& r.method == "backend/command"@
                &&& r.normalized_destination == trim_end_chars(dst, "/"@) + "/"@
                &&& r.params matches ParamsView::BackendCommand { command, args, .. } && command
                    == "copyid"@ && args.len() == 2 && args[1] == r.normalized_destination
            }
        },
        mode != TransferMode::DriveFileDownload ==> transfer_request_spec(
            src,
            dst,
            mode,
            parent,
            file_name,
            dir,
        ) is Ok,
{
}

/// A single-file upload copies the file under its own name.
pub proof fn law_copyfile_keeps_name(
    src: Seq<char>,
    dst: Seq<char>,
    parent: Seq<char>,
    file_name: Seq<char>,
    dir: Result<(), Seq<char>>,
)
    ensures
        transfer_request_spec(src, dst, TransferMode::LocalFileUpload, parent, file_name, dir) matches Ok(r)
            && r.params == (ParamsView::CopyFile {
                src_fs: parent,
                src_remote: file_name,
                dst_fs: dst,
                dst_remote: file_name,
            }),
{
}


// ---------------------------------------------------------------------------
// Verification requests
// ---------------------------------------------------------------------------

/// The Drive file and resource key that a single-file Drive source names:
/// after `root_folder_id=` (trailing `:` dropped) the ID runs to the first
/// comma, and a `resource_key=` after it gives the key; after `gdrive:` the
/// rest is the ID.
pub open spec fn drive_file_target(src: Seq<char>) -> (Seq<char>, Option<Seq<char>>) {
    match first_occurrence(src, "root_folder_id="@) {
        Some(idx) => {
            let clean = trim_end_chars(src.skip(idx + 15), ":"@);
            match first_occurrence(clean, ","@) {
                Some(c) => {
                    let rest = clean.skip(c + 1);
                    (clean.take(c), match first_occurrence(rest, "resource_key="@) {
                        Some(k) => Some(rest.skip(k + 13)),
                        None => None,
                    })
                },
                None => (clean, None),
            }
        },
        None => if seq_starts_with(src, "gdrive:"@) {
            (src.skip(7), None)
        } else {
            (src, None)
        },
    }
}

proof fn lemma_no_comma_in_id(id: Seq<char>)
    requires
        is_id_text(id),
    ensures
        forall|k: int| 0 <= k < id.len() ==> #[trigger] id[k] != ',' && id[k] != ':',
{
    assert forall|k: int| 0 <= k < id.len() implies #[trigger] id[k] != ',' && id[k] != ':' by {
        assert(is_id_char(id[k]));
    }
}

/// The connection string of a Drive ID (and resource key) names the Drive
/// remote, and reading a single-file target back from it gives the ID and
/// the key that went in.
pub proof fn lemma_connection_string_target(id: Seq<char>, rk: Option<Seq<char>>)
    requires
        is_id_text(id),
        rk matches Some(k) ==> is_id_text(k),
    ensures
        is_drive_fs(connection_string_spec(id, rk)),
        drive_file_target(connection_string_spec(id, rk)) == (id, rk),
        copyid_target(connection_string_spec(id, rk)) == (id, match rk {
            Some(k) => "gdrive,resource_key="@ + k + ":"@,
            None => "gdrive:"@,
        }),
{
    reveal_strlit("gdrive,root_folder_id=");
    reveal_strlit("root_folder_id=");
    reveal_strlit(",resource_key=");
    reveal_strlit("resource_key=");
    reveal_strlit(":");
    reveal_strlit(",");
    reveal_strlit("gdrive,");
    reveal_strlit("gdrive:");
    let g = "gdrive,root_folder_id="@;
    let p = "root_folder_id="@;
    let conn = connection_string_spec(id, rk);
    let tail = match rk {
        Some(k) => ",resource_key="@ + k + ":"@,
        None => ":"@,
    };
    assert(conn =~= g + (id + tail));
    assert(conn.subrange(0, 7) =~= "gdrive,"@);
    assert(conn.subrange(7, 22) =~= p);
    assert forall|k: int| 0 <= k < 7 implies !occurs_at(conn, p, k) by {
        if occurs_at(conn, p, k) {
            assert(conn.subrange(k, k + 15)[0] == conn[k]);
            assert(conn.subrange(k, k + 15)[1] == conn[k + 1]);
        }
    }
    lemma_first_occurrence_at(conn, p, 0, 7);
    let after = conn.skip(22);
    assert(after =~= id + tail);
    lemma_no_comma_in_id(id);
    let clean = trim_end_chars(after, ":"@);
    match rk {
        Some(k) => {
            lemma_no_comma_in_id(k);
            let body = id + ",resource_key="@ + k;
            assert(after =~= body + ":"@);
            assert(after[after.len() - 2] == k[k.len() - 1]);
            lemma_trailing_in(after, ":"@, after.len() - 1);
            assert(clean =~= body);
            assert(body[id.len() as int] == ',');
            assert(occurs_at(body, ","@, id.len() as int)) by {
                assert(body.subrange(id.len() as int, id.len() + 1int) =~= ","@);
            }
            assert forall|j: int| 0 <= j < id.len() implies !occurs_at(body, ","@, j) by {
                if occurs_at(body, ","@, j) {
                    assert(body.subrange(j, j + 1)[0] == body[j]);
                    assert(body[j] == id[j]);
                }
            }
            lemma_first_occurrence_at(body, ","@, 0, id.len() as int);
            let rest = body.skip(id.len() + 1int);
            assert(rest =~= "resource_key="@ + k);
            assert(rest.subrange(0, 13) =~= "resource_key="@);
            lemma_first_occurrence_at(rest, "resource_key="@, 0, 0);
            assert(rest.skip(13) =~= k);
            assert(body.take(id.len() as int) =~= id);
            reveal_strlit("gdrive,resource_key=");
            assert("gdrive,"@ + rest + ":"@ =~= "gdrive,resource_key="@ + k + ":"@);
        },
        None => {
            assert(after =~= id + ":"@);
            assert(after[after.len() - 2] == id[id.len() - 1]);
            lemma_trailing_in(after, ":"@, after.len() - 1);
            assert(clean =~= id);
            assert forall|j: int| 0 <= j implies !occurs_at(id, ","@, j) by {
                if occurs_at(id, ","@, j) {
                    assert(id.subrange(j, j + 1)[0] == id[j]);
                }
            }
            lemma_first_occurrence_none(id, ","@);
        },
    }
}

/// A parsed single-file link round-trips: its connection string names the
/// Drive remote, and the download reads back exactly the parsed file ID and
/// resource key.
pub proof fn law_file_link_round_trip(url: Seq<char>)
    ensures
        parse_drive_link_spec(url).is_file ==> is_drive_fs(parse_drive_link_spec(url).connection_string)
            && drive_file_target(parse_drive_link_spec(url).connection_string) == (
            parse_drive_link_spec(url).id,
            parse_drive_link_spec(url).resource_key,
        ),
{
    let t = trim(url);
    lemma_capture_is_id_text(t, "resourcekey="@, true);
    lemma_capture_is_id_text(t, "/folders/"@, false);
    lemma_capture_is_id_text(t, "/file/d/"@, false);
    let v = parse_drive_link_spec(url);
    if v.is_file {
        lemma_connection_string_target(v.id, v.resource_key);
    }
}

/// Downloading a parsed single-file link copies exactly that file: the
/// request routes to a single-file download and asks rclone's `copyid` for
/// the parsed ID, on the Drive remote with the parsed resource key (if any),
/// into the destination directory.
pub proof fn law_file_link_download_request(
    url: Seq<char>,
    dst: Seq<char>,
    local: LocalSourceKind,
    parent: Seq<char>,
    file_name: Seq<char>,
)
    ensures
        ({
            let v = parse_drive_link_spec(url);
            v.is_file ==> {
                &&& transfer_route_spec(v.connection_string, true, local) == Ok::<TransferMode, Seq<char>>(
                    TransferMode::DriveFileDownload,
                )
                &&& transfer_request_spec(
                    v.connection_string,
                    dst,
                    TransferMode::DriveFileDownload,
                    parent,
                    file_name,
                    Ok(()),
                ) matches Ok(r) && r.params == ParamsView::BackendCommand {
                    command: "copyid"@,
                    fs: match v.resource_key {
                        Some(k) => "gdrive,resource_key="@ + k + ":"@,
                        None => "gdrive:"@,
                    },
                    args: seq![v.id, r.normalized_destination],
                }
            }
        }),
{
    let t = trim(url);
    lemma_capture_is_id_text(t, "resourcekey="@, true);
    lemma_capture_is_id_text(t, "/folders/"@, false);
    lemma_capture_is_id_text(t, "/file/d/"@, false);
    let v = parse_drive_link_spec(url);
    if v.is_file {
        lemma_connection_string_target(v.id, v.resource_key);
    }
}

/// Reads the Drive file ID and resource key from a single-file Drive source.
pub fn drive_file_target_of(src: &str) -> (res: (String, Option<String>))
    ensures
        (res.0@, opt_view(res.1)) == drive_file_target(src@),
{
    let sv = chars_of(src);
    match find_str(&sv, "root_folder_id=") {
        Some(idx) => {
            proof {
                reveal_strlit("root_folder_id=");
            }
            let after = crate::text::slice_vec(&sv, idx + 15, sv.len());
            let colon = chars_of(":");
            let keep = trim_end_len(&after, &colon);
            let clean = crate::text::slice_vec(&after, 0, keep);
            assert(after@ == sv@.skip(idx + 15));
            assert(clean@ == after@.take(keep as int));
            match find_str(&clean, ",") {
                Some(c) => {
                    proof {
                        reveal_strlit(",");
                        assert(clean@.len() == clean.len());
                    }
                    let id = string_of(&clean, 0, c);
                    let rest = crate::text::slice_vec(&clean, c + 1, clean.len());
                    assert(clean@.subrange(0, c as int) == clean@.take(c as int));
                    assert(rest@ == clean@.skip(c + 1));
                    let rk = match find_str(&rest, "resource_key=") {
                        Some(k) => {
                            proof {
                                reveal_strlit("resource_key=");
                                assert(rest@.len() == rest.len());
                            }
                            let key = string_of(&rest, k + 13, rest.len());
                            assert(rest@.subrange(k + 13, rest@.len() as int) == rest@.skip(k + 13));
                            Some(key)
                        },
                        None => None,
                    };
                    (id, rk)
                },
                None => (string_of_all(&clean), None),
            }
        },
        None => {
            if str_starts_with(src, "gdrive:") {
                proof {
                    reveal_strlit("gdrive:");
                }
                let stripped = string_of(&sv, 7, sv.len());
                assert(sv@.subrange(7, sv@.len() as int) == sv@.skip(7));
                (stripped, None)
            } else {
                (String::from_str(src), None)
            }
        },
    }
}

/// The local directory of a single-file download: `dst` without trailing
/// `/` or `\`.
pub fn local_destination_dir(dst: &str) -> (res: String)
    ensures
        res@ == trim_end_chars(dst@, "/\\"@),
{
    let dv = chars_of(dst);
    let seps = chars_of("/\\");
    let keep = trim_end_len(&dv, &seps);
    string_of(&dv, 0, keep)
}

/// The parameters of `operations/check` for a directory transfer.
pub struct CheckRequest {
    pub src_fs: String,
    pub dst_fs: String,
    /// Only files of the source are checked (`oneWay`).
    pub one_way: bool,
    /// The report lists matching files (`match`).
    pub list_matches: bool,
    /// Files are compared by hash without being downloaded (`download`).
    pub download: bool,
    /// The clutter filter, for uploads.
    pub exclude_rules: Option<Vec<String>>,
}

/// Builds the `operations/check` request that verifies a directory transfer:
/// a one-way hash comparison without downloads; uploads leave out clutter.
pub fn build_check_request(src: &str, dst: &str, route: TransferMode) -> (res: CheckRequest)
    ensures
        res.src_fs@ == src@,
        res.dst_fs@ == dst@,
        res.one_way,
        res.list_matches,
        !res.download,
        match res.exclude_rules {
            Some(r) => route == TransferMode::DirectoryUpload && string_views(r@) == os_junk_excludes(),
            None => route != TransferMode::DirectoryUpload,
        },
{
    CheckRequest {
        src_fs: String::from_str(src),
        dst_fs: String::from_str(dst),
        one_way: true,
        list_matches: true,
        download: false,
        exclude_rules: if route == TransferMode::DirectoryUpload {
            Some(os_junk_excludes_list())
        } else {
            None
        },
    }
}

// ---------------------------------------------------------------------------
// Mode names
// ---------------------------------------------------------------------------

/// The name of a transfer mode on the wire (snake case).
pub open spec fn mode_name_spec(m: TransferMode) -> Seq<char> {
    match m {
        TransferMode::DirectoryUpload => "directory_upload"@,
        TransferMode::DirectoryDownload => "directory_download"@,
        TransferMode::DriveFileDownload => "drive_file_download"@,
        TransferMode::LocalFileUpload => "local_file_upload"@,
    }
}

/// The mode a name denotes; the legacy name `directory` denotes a directory
/// download.
pub open spec fn mode_from_name_spec(n: Seq<char>) -> Option<TransferMode> {
    if n == "directory_upload"@ {
        Some(TransferMode::DirectoryUpload)
    } else if n == "directory_download"@ || n == "directory"@ {
        Some(TransferMode::DirectoryDownload)
    } else if n == "drive_file_download"@ {
        Some(TransferMode::DriveFileDownload)
    } else if n == "local_file_upload"@ {
        Some(TransferMode::LocalFileUpload)
    } else {
        None
    }
}

pub fn transfer_mode_name(m: TransferMode) -> (res: &'static str)
    ensures
        res@ == mode_name_spec(m),
{
    match m {
        TransferMode::DirectoryUpload => "directory_upload",
        TransferMode::DirectoryDownload => "directory_download",
        TransferMode::DriveFileDownload => "drive_file_download",
        TransferMode::LocalFileUpload => "local_file_upload",
    }
}

pub fn transfer_mode_from_name(n: &str) -> (res: Option<TransferMode>)
    ensures
        res == mode_from_name_spec(n@),
{
    if str_eq(n, "directory_upload") {
        Some(TransferMode::DirectoryUpload)
    } else if str_eq(n, "directory_download") || str_eq(n, "directory") {
        Some(TransferMode::DirectoryDownload)
    } else if str_eq(n, "drive_file_download") {
        Some(TransferMode::DriveFileDownload)
    } else if str_eq(n, "local_file_upload") {
        Some(TransferMode::LocalFileUpload)
    } else {
        None
    }
}

/// Every mode reads back from its own name.
pub proof fn law_mode_name_round_trip(m: TransferMode)
    ensures
        mode_from_name_spec(mode_name_spec(m)) == Some(m),
{
    reveal_strlit("directory_upload");
    reveal_strlit("directory_download");
    reveal_strlit("directory");
    reveal_strlit("drive_file_download");
    reveal_strlit("local_file_upload");
    // The names have pairwise different lengths.
    assert("directory_upload"@.len() == 16);
    assert("directory_download"@.len() == 18);
    assert("directory"@.len() == 9);
    assert("drive_file_download"@.len() == 19);
    assert("local_file_upload"@.len() == 17);
}

// ---------------------------------------------------------------------------
// Started transfers and their logical size
// ---------------------------------------------------------------------------

/// A transfer that rclone accepted, with the logical size of its source.
pub struct StartedTransfer {
    pub job_id: u64,
    pub mode: TransferMode,
    pub logical_total_bytes: u64,
    pub logical_file_count: u64,
}

/// Where the logical size of a transfer's source comes from.
#[derive(Clone, Copy, Debug, PartialEq, Eq, Structural)]
pub enum LogicalSizeSource {
    /// The local file's length; one file.
    LocalFile,
    /// The walk of the local directory, clutter left out.
    LocalDirectory,
    /// One file of unknown size.
    DriveFile,
    /// rclone's `operations/size` of the Drive folder (zero when it fails).
    RemoteDirectory,
}

pub open spec fn logical_size_source_spec(mode: TransferMode) -> LogicalSizeSource {
    match mode {
        TransferMode::LocalFileUpload => LogicalSizeSource::LocalFile,
        TransferMode::DirectoryUpload => LogicalSizeSource::LocalDirectory,
        TransferMode::DriveFileDownload => LogicalSizeSource::DriveFile,
        TransferMode::DirectoryDownload => LogicalSizeSource::RemoteDirectory,
    }
}

pub fn logical_size_source(mode: TransferMode) -> (res: LogicalSizeSource)
    ensures
        res == logical_size_source_spec(mode),
{
    match mode {
        TransferMode::LocalFileUpload => LogicalSizeSource::LocalFile,
        TransferMode::DirectoryUpload => LogicalSizeSource::LocalDirectory,
        TransferMode::DriveFileDownload => LogicalSizeSource::DriveFile,
        TransferMode::DirectoryDownload => LogicalSizeSource::RemoteDirectory,
    }
}

/// What the directory walk does with an entry.
#[derive(Clone, Copy, Debug, PartialEq, Eq, Structural)]
pub enum WalkAction {
    Skip,
    CountFile,
    Descend,
}

pub open spec fn walk_action_spec(name: Seq<char>, kind: LocalSourceKind) -> WalkAction {
    if is_os_junk(name) {
        WalkAction::Skip
    } else {
        match kind {
            LocalSourceKind::File => WalkAction::CountFile,
            LocalSourceKind::Directory => WalkAction::Descend,
            _ => WalkAction::Skip,
        }
    }
}

/// The logical-size walk: operating-system clutter, symbolic links, entries
/// whose metadata cannot be read and special files are skipped; regular
/// files are counted; directories are walked into.
pub fn walk_action(name: &str, kind: &LocalSourceKind) -> (res: WalkAction)
    ensures
        res == walk_action_spec(name@, *kind),
{
    if is_os_junk_name(name) {
        return WalkAction::Skip;
    }
    match kind {
        LocalSourceKind::File => WalkAction::CountFile,
        LocalSourceKind::Directory => WalkAction::Descend,
        _ => WalkAction::Skip,
    }
}

/// The target of a size request: the path, else the remote; an error when
/// neither is given.
pub open spec fn size_target_spec(path: Option<Seq<char>>, fs: Option<Seq<char>>) -> Result<Seq<char>, Seq<char>> {
    match path {
        Some(p) => Ok(p),
        None => match fs {
            Some(f) => Ok(f),
            None => Err("Missing path/fs parameter"@),
        },
    }
}

pub fn directory_size_target(path: Option<String>, fs: Option<String>) -> (res: Result<String, String>)
    ensures
        match res {
            Ok(t) => size_target_spec(opt_view(path), opt_view(fs)) == Ok::<Seq<char>, Seq<char>>(t@),
            Err(e) => size_target_spec(opt_view(path), opt_view(fs)) == Err::<Seq<char>, Seq<char>>(e@),
        },
{
    match path {
        Some(p) => Ok(p),
        None => match fs {
            Some(f) => Ok(f),
            None => Err(String::from_str("Missing path/fs parameter")),
        },
    }
}

// ---------------------------------------------------------------------------
// Transfer statistics
// ---------------------------------------------------------------------------

/// A file that the transfer has finished with.
pub struct CompletedFileStat {
    pub name: String,
    pub size: u64,
    pub bytes: u64,
    pub error: String,
    pub checked: bool,
}

impl CompletedFileStat {
    /// An entry of `core/transferred`; absent fields read as empty, zero or
    /// false.
    pub fn from_fields(
        name: Option<String>,
        size: Option<u64>,
        bytes: Option<u64>,
        error: Option<String>,
        checked: Option<bool>,
    ) -> (res: CompletedFileStat)
        ensures
            res.name@ == (match name {
                Some(n) => n@,
                None => Seq::<char>::empty(),
            }),
            res.size == (match size {
                Some(v) => v,
                None => 0u64,
            }),
            res.bytes == (match bytes {
                Some(v) => v,
                None => 0u64,
            }),
            res.error@ == (match error {
                Some(e) => e@,
                None => Seq::<char>::empty(),
            }),
            res.checked == (checked == Some(true)),
    {
        CompletedFileStat {
            name: match name {
                Some(n) => n,
                None => String::new(),
            },
            size: match size {
                Some(v) => v,
                None => 0,
            },
            bytes: match bytes {
                Some(v) => v,
                None => 0,
            },
            error: match error {
                Some(e) => e,
                None => String::new(),
            },
            checked: match checked {
                Some(c) => c,
                None => false,
            },
        }
    }
}

/// Whether the transfer is retrying: rclone says so, or there were errors
/// that are not fatal.
pub open spec fn retry_error_spec(reported: Option<bool>, errors: u64, fatal: bool) -> bool {
    reported == Some(true) || (errors > 0 && !fatal)
}

pub fn retry_error_flag(reported: Option<bool>, errors: u64, fatal: bool) -> (res: bool)
    ensures
        res == retry_error_spec(reported, errors, fatal),
{
    let said = match reported {
        Some(b) => b,
        None => false,
    };
    said || (errors > 0 && !fatal)
}

} // verus!
