//! Integrity verdicts: MD5 comparisons of single files and the reports of
//! rclone's `operations/check`.
use vstd::prelude::*;
use vstd::string::*;
use crate::text::{
    chars_of, concat, eq_ignore_ascii_case, eq_ignore_ascii_case_exec, opt_view, parse_u64,
    parse_u64_spec, seq_starts_with, string_views, trim, is_blank,
};

verus! {

broadcast use vstd::string::group_string_axioms;

/// The outcome of an integrity verification.
pub struct VerificationResult {
    pub success: bool,
    pub hash_type: String,
    pub matching_files: u64,
    pub missing_on_dst: u64,
    pub differ_count: u64,
    pub error_count: u64,
    pub details: Vec<String>,
}

pub struct VerdictView {
    pub success: bool,
    pub hash_type: Seq<char>,
    pub matching_files: u64,
    pub missing_on_dst: u64,
    pub differ_count: u64,
    pub error_count: u64,
    pub details: Seq<Seq<char>>,
}

impl View for VerificationResult {
    type V = VerdictView;

    open spec fn view(&self) -> VerdictView {
        VerdictView {
            success: self.success,
            hash_type: self.hash_type@,
            matching_files: self.matching_files,
            missing_on_dst: self.missing_on_dst,
            differ_count: self.differ_count,
            error_count: self.error_count,
            details: string_views(self.details@),
        }
    }
}

fn one_detail(d: String) -> (res: Vec<String>)
    ensures
        string_views(res@) == seq![d@],
{
    let mut v: Vec<String> = Vec::new();
    v.push(d);
    assert(string_views(v@) =~= seq![v@[0]@]);
    v
}

// ---------------------------------------------------------------------------
// A single file downloaded from Drive
// ---------------------------------------------------------------------------

/// What the Drive API reports of a file.
pub struct DriveFileMetadata {
    pub name: String,
    pub size: Option<String>,
    pub md5_checksum: Option<String>,
}

/// The checksum to compare against: Drive's MD5 when it is not blank.
pub open spec fn expected_md5(md5: Option<Seq<char>>) -> Option<Seq<char>> {
    match md5 {
        Some(m) => if trim(m).len() != 0 {
            Some(m)
        } else {
            None
        },
        None => None,
    }
}

/// The size to match: Drive's size when it is a decimal number.
pub open spec fn expected_size(size: Option<Seq<char>>) -> Option<u64> {
    match size {
        Some(s) => parse_u64_spec(s),
        None => None,
    }
}

/// An entry of the destination directory, as the file system reports it
/// without following symbolic links.
pub struct DirEntryInfo {
    pub name: String,
    pub is_regular_file: bool,
    pub len: u64,
}

/// An entry that may be the downloaded file: a regular file (not a link, not
/// a directory) of the expected size when a size is known.
pub open spec fn is_candidate(e: DirEntryInfo, size: Option<u64>) -> bool {
    e.is_regular_file && match size {
        Some(n) => e.len == n,
        None => true,
    }
}

/// The indices of the candidate entries, in directory order.
pub open spec fn candidates_spec(entries: Seq<DirEntryInfo>, size: Option<u64>) -> Seq<usize>
    decreases entries.len(),
{
    if entries.len() == 0 {
        seq![]
    } else {
        let prev = candidates_spec(entries.drop_last(), size);
        if is_candidate(entries.last(), size) {
            prev.push((entries.len() - 1) as usize)
        } else {
            prev
        }
    }
}

/// Picks, among the immediate entries of the destination directory, those
/// that may be the downloaded file.
pub fn immediate_file_candidates(entries: &Vec<DirEntryInfo>, metadata: &DriveFileMetadata) -> (res: Vec<usize>)
    ensures
        res@ == candidates_spec(entries@, expected_size(opt_view(metadata.size))),
{
    let size = match &metadata.size {
        Some(s) => parse_u64(s.as_str()),
        None => None,
    };
    let mut out: Vec<usize> = Vec::new();
    let mut i: usize = 0;
    while i < entries.len()
        invariant
            i <= entries.len(),
            size == expected_size(opt_view(metadata.size)),
            out@ == candidates_spec(entries@.take(i as int), size),
        decreases entries.len() - i,
    {
        let e = &entries[i];
        let ok = e.is_regular_file && match size {
            Some(n) => e.len == n,
            None => true,
        };
        assert(entries@.take(i + 1).drop_last() =~= entries@.take(i as int));
        assert(entries@.take(i + 1).last() == entries@[i as int]);
        if ok {
            out.push(i);
        }
        i = i + 1;
    }
    assert(entries@.take(entries@.len() as int) =~= entries@);
    out
}

/// The verdict when Drive gave no MD5.
pub open spec fn md5_unavailable_verdict() -> VerdictView {
    VerdictView {
        success: false,
        hash_type: "MD5 Unavailable"@,
        matching_files: 0,
        missing_on_dst: 0,
        differ_count: 0,
        error_count: 1,
        details: seq!["Drive did not provide an MD5 checksum; verification unavailable."@],
    }
}

/// The verdict when the candidate named `name` has the expected MD5.
pub open spec fn md5_verified_verdict(name: Seq<char>) -> VerdictView {
    VerdictView {
        success: true,
        hash_type: "MD5"@,
        matching_files: 1,
        missing_on_dst: 0,
        differ_count: 0,
        error_count: 0,
        details: seq!["MD5 verified: "@ + name],
    }
}

/// The verdict when no candidate has the expected MD5.
pub open spec fn md5_no_match_verdict(no_candidates: bool) -> VerdictView {
    VerdictView {
        success: false,
        hash_type: "MD5"@,
        matching_files: 0,
        missing_on_dst: if no_candidates { 1 } else { 0 },
        differ_count: if no_candidates { 0 } else { 1 },
        error_count: 0,
        details: seq!["No destination file matched the expected Drive MD5."@],
    }
}

/// The next step of a single-file verification.
pub enum SingleFileStep {
    /// Verification is over.
    Done(VerificationResult),
    /// Compute the MD5 of the candidate at this index, then call
    /// [`single_file_after_hash`].
    Hash(usize),
}

pub enum StepView {
    Done(VerdictView),
    Hash(usize),
}

pub open spec fn step_view(s: SingleFileStep) -> StepView {
    match s {
        SingleFileStep::Done(r) => StepView::Done(r@),
        SingleFileStep::Hash(i) => StepView::Hash(i),
    }
}

/// The first step: no MD5 from Drive ends at once; no candidate ends with a
/// missing file; otherwise the first candidate is hashed.
pub open spec fn single_file_start_spec(md5: Option<Seq<char>>, candidate_count: nat) -> StepView {
    if expected_md5(md5) is None {
        StepView::Done(md5_unavailable_verdict())
    } else if candidate_count == 0 {
        StepView::Done(md5_no_match_verdict(true))
    } else {
        StepView::Hash(0)
    }
}

/// The step after candidate `index` hashed to `actual`: a match (ignoring ASCII
/// case) verifies; otherwise the next candidate is hashed, and after the last
/// one the file differs.
pub open spec fn single_file_after_hash_spec(
    md5: Option<Seq<char>>,
    names: Seq<Seq<char>>,
    index: int,
    actual: Seq<char>,
) -> StepView {
    match expected_md5(md5) {
        None => StepView::Done(md5_unavailable_verdict()),
        Some(e) => if eq_ignore_ascii_case(actual, e) {
            StepView::Done(md5_verified_verdict(names[index]))
        } else if index + 1 < names.len() {
            StepView::Hash((index + 1) as usize)
        } else {
            StepView::Done(md5_no_match_verdict(names.len() == 0))
        },
    }
}

fn expected_md5_exec(md5: &Option<String>) -> (res: Option<&String>)
    ensures
        match res {
            Some(s) => expected_md5(opt_view(*md5)) == Some(s@),
            None => expected_md5(opt_view(*md5)) is None,
        },
{
    match md5 {
        Some(m) => if !is_blank(m.as_str()) {
            Some(m)
        } else {
            None
        },
        None => None,
    }
}

fn md5_unavailable_result() -> (res: VerificationResult)
    ensures
        res@ == md5_unavailable_verdict(),
{
    VerificationResult {
        success: false,
        hash_type: String::from_str("MD5 Unavailable"),
        matching_files: 0,
        missing_on_dst: 0,
        differ_count: 0,
        error_count: 1,
        details: one_detail(
            String::from_str("Drive did not provide an MD5 checksum; verification unavailable."),
        ),
    }
}

fn md5_no_match_result(no_candidates: bool) -> (res: VerificationResult)
    ensures
        res@ == md5_no_match_verdict(no_candidates),
{
    VerificationResult {
        success: false,
        hash_type: String::from_str("MD5"),
        matching_files: 0,
        missing_on_dst: if no_candidates { 1 } else { 0 },
        differ_count: if no_candidates { 0 } else { 1 },
        error_count: 0,
        details: one_detail(String::from_str("No destination file matched the expected Drive MD5.")),
    }
}

/// Starts the verification of a single file downloaded from Drive, given the
/// number of candidate files in the destination directory.
pub fn single_file_start(metadata: &DriveFileMetadata, candidate_count: usize) -> (res: SingleFileStep)
    ensures
        step_view(res) == single_file_start_spec(opt_view(metadata.md5_checksum), candidate_count as nat),
{
    match expected_md5_exec(&metadata.md5_checksum) {
        None => SingleFileStep::Done(md5_unavailable_result()),
        Some(_) => if candidate_count == 0 {
            SingleFileStep::Done(md5_no_match_result(true))
        } else {
            SingleFileStep::Hash(0)
        },
    }
}

/// Continues the verification after candidate `index` (of the candidates
/// named `names`) hashed to `actual_md5`.
pub fn single_file_after_hash(
    metadata: &DriveFileMetadata,
    names: &Vec<String>,
    index: usize,
    actual_md5: &str,
) -> (res: SingleFileStep)
    requires
        index < names.len(),
    ensures
        step_view(res) == single_file_after_hash_spec(
            opt_view(metadata.md5_checksum),
            string_views(names@),
            index as int,
            actual_md5@,
        ),
{
    match expected_md5_exec(&metadata.md5_checksum) {
        None => SingleFileStep::Done(md5_unavailable_result()),
        Some(e) => {
            let av = chars_of(actual_md5);
            let ev = chars_of(e.as_str());
            if eq_ignore_ascii_case_exec(&av, &ev) {
                SingleFileStep::Done(
                    VerificationResult {
                        success: true,
                        hash_type: String::from_str("MD5"),
                        matching_files: 1,
                        missing_on_dst: 0,
                        differ_count: 0,
                        error_count: 0,
                        details: one_detail(concat("MD5 verified: ", names[index].as_str())),
                    },
                )
            } else if index + 1 < names.len() {
                SingleFileStep::Hash(index + 1)
            } else {
                SingleFileStep::Done(md5_no_match_result(names.len() == 0))
            }
        },
    }
}

/// The verdict over all candidates at once: the first candidate whose hash
/// matches verifies the file.
pub open spec fn single_file_verdict(md5: Option<Seq<char>>, names: Seq<Seq<char>>, hashes: Seq<Seq<char>>, from: int) -> VerdictView
    decreases names.len() - from,
{
    match expected_md5(md5) {
        None => md5_unavailable_verdict(),
        Some(e) => if from < 0 || from >= names.len() {
            md5_no_match_verdict(names.len() == 0)
        } else if eq_ignore_ascii_case(hashes[from], e) {
            md5_verified_verdict(names[from])
        } else {
            single_file_verdict(md5, names, hashes, from + 1)
        },
    }
}

/// Runs the step function from `step` while it asks for hashes, answering
/// with `hashes`.
pub open spec fn run_single_file(
    md5: Option<Seq<char>>,
    names: Seq<Seq<char>>,
    hashes: Seq<Seq<char>>,
    step: StepView,
    fuel: nat,
) -> StepView
    decreases fuel,
{
    if fuel == 0 {
        step
    } else {
        match step {
            StepView::Done(v) => step,
            StepView::Hash(i) => if i < names.len() {
                run_single_file(
                    md5,
                    names,
                    hashes,
                    single_file_after_hash_spec(md5, names, i as int, hashes[i as int]),
                    (fuel - 1) as nat,
                )
            } else {
                step
            },
        }
    }
}

proof fn lemma_run_from(md5: Option<Seq<char>>, names: Seq<Seq<char>>, hashes: Seq<Seq<char>>, i: int)
    requires
        0 <= i < names.len(),
        names.len() <= usize::MAX,
        expected_md5(md5) is Some,
    ensures
        run_single_file(md5, names, hashes, StepView::Hash(i as usize), (names.len() - i) as nat)
            == StepView::Done(single_file_verdict(md5, names, hashes, i)),
    decreases names.len() - i,
{
    let next = single_file_after_hash_spec(md5, names, i, hashes[i]);
    let fuel = (names.len() - i) as nat;
    assert(run_single_file(md5, names, hashes, StepView::Hash(i as usize), fuel) == run_single_file(
        md5,
        names,
        hashes,
        next,
        (fuel - 1) as nat,
    ));
    if i + 1 < names.len() {
        lemma_run_from(md5, names, hashes, i + 1);
    } else {
        assert(single_file_verdict(md5, names, hashes, i + 1) == md5_no_match_verdict(
            names.len() == 0,
        ));
    }
    assert((i as usize) as int == i);
    match next {
        StepView::Done(v) => {
            assert(run_single_file(md5, names, hashes, next, (fuel - 1) as nat) == next);
        },
        StepView::Hash(j) => {},
    }
}

/// Stepping through the candidates, hashing each when asked, reaches the
/// verdict over all candidates: the file is verified exactly when some
/// candidate's MD5 equals Drive's (ignoring ASCII case), and then the first
/// such candidate is named.
pub proof fn law_single_file_steps_reach_verdict(md5: Option<Seq<char>>, names: Seq<Seq<char>>, hashes: Seq<Seq<char>>)
    requires
        names.len() <= usize::MAX,
    ensures
        run_single_file(md5, names, hashes, single_file_start_spec(md5, names.len()), names.len())
            == StepView::Done(single_file_verdict(md5, names, hashes, 0)),
{
    if expected_md5(md5) is Some && names.len() > 0 {
        lemma_run_from(md5, names, hashes, 0);
    }
}

proof fn lemma_verdict_success(md5: Option<Seq<char>>, names: Seq<Seq<char>>, hashes: Seq<Seq<char>>, from: int)
    requires
        0 <= from,
    ensures
        single_file_verdict(md5, names, hashes, from).success <==> (expected_md5(md5) is Some && exists|i: int|
            from <= i < names.len() && eq_ignore_ascii_case(#[trigger] hashes[i], expected_md5(md5)->0)),
    decreases names.len() - from,
{
    if expected_md5(md5) is Some && from < names.len() {
        lemma_verdict_success(md5, names, hashes, from + 1);
        if eq_ignore_ascii_case(hashes[from], expected_md5(md5)->0) {
        } else {
            assert forall|i: int| from <= i < names.len() && eq_ignore_ascii_case(#[trigger] hashes[i], expected_md5(md5)->0)
                implies from + 1 <= i by {}
        }
    }
}

/// A single-file verification succeeds exactly when Drive gave an MD5 and
/// some candidate hashes to it.
pub proof fn law_single_file_success_iff_match(md5: Option<Seq<char>>, names: Seq<Seq<char>>, hashes: Seq<Seq<char>>)
    ensures
        single_file_verdict(md5, names, hashes, 0).success <==> (expected_md5(md5) is Some && exists|i: int|
            0 <= i < names.len() && eq_ignore_ascii_case(#[trigger] hashes[i], expected_md5(md5)->0)),
{
    lemma_verdict_success(md5, names, hashes, 0);
}

// ---------------------------------------------------------------------------
// A single file uploaded to Drive
// ---------------------------------------------------------------------------

pub open spec fn verdict_result_view(r: Result<VerificationResult, String>) -> Result<VerdictView, Seq<char>> {
    match r {
        Ok(v) => Ok(v@),
        Err(e) => Err(e@),
    }
}

/// The verdict on an uploaded file: Drive's MD5 (not blank) against the
/// local file's MD5, ignoring ASCII case.
pub open spec fn upload_verdict_spec(local_md5: Seq<char>, remote: Option<Seq<char>>) -> Result<VerdictView, Seq<char>> {
    match remote {
        Some(r) if trim(r).len() != 0 => if eq_ignore_ascii_case(local_md5, r) {
            Ok(
                VerdictView {
                    success: true,
                    hash_type: "MD5 (Local vs Google Drive Remote)"@,
                    matching_files: 1,
                    missing_on_dst: 0,
                    differ_count: 0,
                    error_count: 0,
                    details: seq!["Verified MD5 checksum match: "@ + r],
                },
            )
        } else {
            Ok(
                VerdictView {
                    success: false,
                    hash_type: "MD5 (Mismatch)"@,
                    matching_files: 0,
                    missing_on_dst: 0,
                    differ_count: 1,
                    error_count: 0,
                    details: seq!["MD5 Mismatch: local="@ + local_md5 + ", remote="@ + r],
                },
            )
        },
        _ => Err("Google Drive did not return an MD5 hash for the uploaded file"@),
    }
}

/// Compares the MD5 of an uploaded local file with the hash that Drive
/// reports for the uploaded copy (`operations/hashsumfile`).
pub fn local_upload_verdict(local_md5: &str, remote_hash: &Option<String>) -> (res: Result<VerificationResult, String>)
    ensures
        verdict_result_view(res) == upload_verdict_spec(local_md5@, opt_view(*remote_hash)),
{
    let remote = match remote_hash {
        Some(r) => if !is_blank(r.as_str()) {
            r
        } else {
            return Err(
                String::from_str("Google Drive did not return an MD5 hash for the uploaded file"),
            );
        },
        None => {
            return Err(
                String::from_str("Google Drive did not return an MD5 hash for the uploaded file"),
            );
        },
    };
    let lv = chars_of(local_md5);
    let rv = chars_of(remote.as_str());
    if eq_ignore_ascii_case_exec(&lv, &rv) {
        Ok(
            VerificationResult {
                success: true,
                hash_type: String::from_str("MD5 (Local vs Google Drive Remote)"),
                matching_files: 1,
                missing_on_dst: 0,
                differ_count: 0,
                error_count: 0,
                details: one_detail(concat("Verified MD5 checksum match: ", remote.as_str())),
            },
        )
    } else {
        let mut d = concat("MD5 Mismatch: local=", local_md5);
        d.append(", remote=");
        d.append(remote.as_str());
        Ok(
            VerificationResult {
                success: false,
                hash_type: String::from_str("MD5 (Mismatch)"),
                matching_files: 0,
                missing_on_dst: 0,
                differ_count: 1,
                error_count: 0,
                details: one_detail(d),
            },
        )
    }
}


// ---------------------------------------------------------------------------
// Directories: rclone's `operations/check`
// ---------------------------------------------------------------------------

/// A list field of a check report: the array's items (`None` for an item that
/// is not a string), a number (`None` when it is not an unsigned integer), or
/// anything else.
pub enum CheckField {
    List(Vec<Option<String>>),
    Number(Option<u64>),
    Other,
}

/// The parts of rclone's `operations/check` response that the verdict reads.
pub struct CheckReport {
    pub success: Option<bool>,
    pub hash_type: Option<String>,
    pub matched: CheckField,
    pub missing_on_dst: CheckField,
    pub differ: CheckField,
    pub error: CheckField,
}

pub enum FieldView {
    List(Seq<Option<Seq<char>>>),
    Number(Option<u64>),
    Other,
}

pub open spec fn opt_views(v: Seq<Option<String>>) -> Seq<Option<Seq<char>>> {
    v.map_values(|o: Option<String>| opt_view(o))
}

pub open spec fn field_view(f: CheckField) -> FieldView {
    match f {
        CheckField::List(items) => FieldView::List(opt_views(items@)),
        CheckField::Number(n) => FieldView::Number(n),
        CheckField::Other => FieldView::Other,
    }
}

/// How many entries a field counts: the array's length or the number.
pub open spec fn field_count(f: FieldView) -> u64 {
    match f {
        FieldView::List(items) => items.len() as u64,
        FieldView::Number(n) => match n {
            Some(k) => k,
            None => 0,
        },
        FieldView::Other => 0,
    }
}

/// One labelled detail line for each string item, in order.
pub open spec fn labelled(items: Seq<Option<Seq<char>>>, prefix: Seq<char>) -> Seq<Seq<char>>
    decreases items.len(),
{
    if items.len() == 0 {
        seq![]
    } else {
        labelled(items.drop_last(), prefix) + match items.last() {
            Some(s) => seq![prefix + s],
            None => seq![],
        }
    }
}

/// The detail lines of a field: its first 20 string items, labelled.
pub open spec fn field_details(f: FieldView, prefix: Seq<char>) -> Seq<Seq<char>> {
    match f {
        FieldView::List(items) => labelled(items.take(if items.len() < 20 { items.len() as int } else { 20 }), prefix),
        _ => seq![],
    }
}

pub open spec fn unwrap_or_empty(o: Option<Seq<char>>) -> Seq<char> {
    match o {
        Some(s) => s,
        None => Seq::empty(),
    }
}

/// The verdict on a directory check.  Success is strict: rclone reports
/// success, the hash is MD5, at least one file matched, and nothing differs,
/// is missing or failed.
pub open spec fn check_verdict_spec(
    success: Option<bool>,
    hash_type: Option<Seq<char>>,
    matched: FieldView,
    missing: FieldView,
    differ: FieldView,
    error: FieldView,
) -> VerdictView {
    let raw = unwrap_or_empty(hash_type);
    let is_md5 = eq_ignore_ascii_case(raw, "MD5"@);
    VerdictView {
        success: success == Some(true) && is_md5 && field_count(differ) == 0 && field_count(missing)
            == 0 && field_count(error) == 0 && field_count(matched) > 0,
        hash_type: if is_md5 {
            "MD5"@
        } else if raw.len() == 0 {
            "MD5 Unavailable"@
        } else {
            raw
        },
        matching_files: field_count(matched),
        missing_on_dst: field_count(missing),
        differ_count: field_count(differ),
        error_count: field_count(error),
        details: (if is_md5 {
            seq![]
        } else {
            seq!["Remote or local filesystem does not support MD5 checksums."@]
        }) + field_details(differ, "Differing (corrupted): "@) + field_details(
            missing,
            "Missing on destination: "@,
        ) + field_details(error, "Check error: "@),
    }
}

fn field_count_exec(f: &CheckField) -> (res: u64)
    ensures
        res == field_count(field_view(*f)),
{
    match f {
        CheckField::List(items) => items.len() as u64,
        CheckField::Number(n) => match n {
            Some(k) => *k,
            None => 0,
        },
        CheckField::Other => 0,
    }
}

fn append_field_details(details: &mut Vec<String>, f: &CheckField, prefix: &str)
    ensures
        string_views(final(details)@) == string_views(old(details)@) + field_details(field_view(*f), prefix@),
{
    match f {
        CheckField::List(items) => {
            let n = if items.len() < 20 { items.len() } else { 20 };
            let ghost start = string_views(details@);
            let ghost iv = opt_views(items@);
            let mut i: usize = 0;
            while i < n
                invariant
                    i <= n <= items.len(),
                    iv == opt_views(items@),
                    string_views(details@) == start + labelled(iv.take(i as int), prefix@),
                decreases n - i,
            {
                let ghost before = string_views(details@);
                assert(iv.take(i + 1).drop_last() =~= iv.take(i as int));
                assert(iv.take(i + 1).last() == opt_view(items@[i as int]));
                match &items[i] {
                    Some(item) => {
                        details.push(concat(prefix, item.as_str()));
                        assert(string_views(details@) =~= before.push(prefix@ + item@));
                        assert(before + seq![prefix@ + item@] =~= before.push(prefix@ + item@));
                    },
                    None => {
                        assert(before + Seq::<Seq<char>>::empty() =~= before);
                    },
                }
                assert(start + labelled(iv.take(i + 1), prefix@) =~= start + labelled(iv.take(i as int), prefix@) + match iv.take(i + 1).last() {
                    Some(s) => seq![prefix@ + s],
                    None => seq![],
                });
                i = i + 1;
            }
        },
        _ => {
            assert(string_views(details@) + Seq::<Seq<char>>::empty() =~= string_views(details@));
        },
    }
}

/// The verdict on an `operations/check` report of a directory transfer.
pub fn check_report_verdict(report: &CheckReport) -> (res: VerificationResult)
    ensures
        res@ == check_verdict_spec(
            report.success,
            opt_view(report.hash_type),
            field_view(report.matched),
            field_view(report.missing_on_dst),
            field_view(report.differ),
            field_view(report.error),
        ),
{
    let success_flag = match report.success {
        Some(b) => b,
        None => false,
    };
    let raw: String = match &report.hash_type {
        Some(h) => h.clone(),
        None => String::new(),
    };
    let rv = chars_of(raw.as_str());
    let md5 = chars_of("MD5");
    let is_md5 = eq_ignore_ascii_case_exec(&rv, &md5);
    let hash_type = if is_md5 {
        String::from_str("MD5")
    } else if raw.as_str().is_empty() {
        String::from_str("MD5 Unavailable")
    } else {
        raw
    };
    let matching_count = field_count_exec(&report.matched);
    let missing_dst_count = field_count_exec(&report.missing_on_dst);
    let differ_count = field_count_exec(&report.differ);
    let error_count = field_count_exec(&report.error);
    let mut details: Vec<String> = Vec::new();
    if !is_md5 {
        details.push(String::from_str("Remote or local filesystem does not support MD5 checksums."));
    }
    let ghost head = string_views(details@);
    assert(head =~= (if is_md5 {
        seq![]
    } else {
        seq!["Remote or local filesystem does not support MD5 checksums."@]
    }));
    append_field_details(&mut details, &report.differ, "Differing (corrupted): ");
    append_field_details(&mut details, &report.missing_on_dst, "Missing on destination: ");
    append_field_details(&mut details, &report.error, "Check error: ");
    let is_strictly_verified = success_flag && is_md5 && differ_count == 0 && missing_dst_count == 0
        && error_count == 0 && matching_count > 0;
    VerificationResult {
        success: is_strictly_verified,
        hash_type,
        matching_files: matching_count,
        missing_on_dst: missing_dst_count,
        differ_count,
        error_count,
        details,
    }
}

/// Bit-for-bit guarantee: a directory verification succeeds only with MD5,
/// at least one matching file, and no differing, missing or failed file.
pub proof fn law_directory_verdict_is_strict(
    success: Option<bool>,
    hash_type: Option<Seq<char>>,
    matched: FieldView,
    missing: FieldView,
    differ: FieldView,
    error: FieldView,
)
    ensures
        ({
            let v = check_verdict_spec(success, hash_type, matched, missing, differ, error);
            v.success ==> v.hash_type == "MD5"@ && v.matching_files > 0 && v.differ_count == 0
                && v.missing_on_dst == 0 && v.error_count == 0
        }),
{
}

/// How many entries a report field gives: the items of a list, the value of
/// a number, none otherwise.
pub open spec fn reported_entries(f: FieldView) -> int {
    match f {
        FieldView::List(items) => items.len() as int,
        FieldView::Number(Some(k)) => k as int,
        _ => 0,
    }
}

/// Each count of a directory verdict is the count of its own field of the
/// report: matching files from `match`, missing files from `missingOnDst`,
/// differing files from `differ`, errors from `error`. The verdict is a
/// success exactly when rclone reported success, the hash is MD5 (in any
/// letter case), something matched, and nothing differs, is missing or
/// failed. The hash type reads `MD5` for MD5, `MD5 Unavailable` when none was
/// given, and the reported name otherwise.
pub proof fn law_directory_verdict_counts(
    success: Option<bool>,
    hash_type: Option<Seq<char>>,
    matched: FieldView,
    missing: FieldView,
    differ: FieldView,
    error: FieldView,
)
    requires
        reported_entries(matched) <= u64::MAX,
        reported_entries(missing) <= u64::MAX,
        reported_entries(differ) <= u64::MAX,
        reported_entries(error) <= u64::MAX,
    ensures
        ({
            let v = check_verdict_spec(success, hash_type, matched, missing, differ, error);
            let raw = match hash_type {
                Some(h) => h,
                None => Seq::<char>::empty(),
            };
            &&& v.matching_files == reported_entries(matched)
            &&& v.missing_on_dst == reported_entries(missing)
            &&& v.differ_count == reported_entries(differ)
            &&& v.error_count == reported_entries(error)
            &&& v.success <==> (success == Some(true) && eq_ignore_ascii_case(raw, "MD5"@)
                && reported_entries(matched) > 0 && reported_entries(missing) == 0
                && reported_entries(differ) == 0 && reported_entries(error) == 0)
            &&& eq_ignore_ascii_case(raw, "MD5"@) ==> v.hash_type == "MD5"@
            &&& !eq_ignore_ascii_case(raw, "MD5"@) && raw.len() == 0 ==> v.hash_type == "MD5 Unavailable"@
            &&& !eq_ignore_ascii_case(raw, "MD5"@) && raw.len() != 0 ==> v.hash_type == raw
        }),
{
}

/// An upload is verified exactly when Drive's MD5 for the uploaded copy (not
/// blank) equals the local file's MD5 ignoring ASCII case; then one file
/// matches, otherwise one file differs. Without an MD5 from Drive there is
/// no verdict but an error.
pub proof fn law_upload_verdict(local_md5: Seq<char>, remote: Option<Seq<char>>)
    ensures
        upload_verdict_spec(local_md5, remote) is Err <==> (remote is None || trim(remote->0).len() == 0),
        upload_verdict_spec(local_md5, remote) matches Ok(v) ==> {
            &&& v.success <==> eq_ignore_ascii_case(local_md5, remote->0)
            &&& v.matching_files == (if v.success { 1u64 } else { 0u64 })
            &&& v.differ_count == (if v.success { 0u64 } else { 1u64 })
            &&& v.missing_on_dst == 0
            &&& v.error_count == 0
        },
{
}

proof fn lemma_verdict_no_match(md5: Option<Seq<char>>, names: Seq<Seq<char>>, hashes: Seq<Seq<char>>, from: int)
    requires
        expected_md5(md5) is Some,
        0 <= from <= names.len(),
        forall|i: int| from <= i < names.len() ==> !eq_ignore_ascii_case(#[trigger] hashes[i], expected_md5(md5)->0),
    ensures
        single_file_verdict(md5, names, hashes, from) == md5_no_match_verdict(names.len() == 0),
    decreases names.len() - from,
{
    if from < names.len() {
        lemma_verdict_no_match(md5, names, hashes, from + 1);
    }
}

proof fn lemma_verdict_first_match(
    md5: Option<Seq<char>>,
    names: Seq<Seq<char>>,
    hashes: Seq<Seq<char>>,
    from: int,
    k: int,
)
    requires
        expected_md5(md5) is Some,
        0 <= from <= k < names.len(),
        eq_ignore_ascii_case(hashes[k], expected_md5(md5)->0),
        forall|i: int| from <= i < k ==> !eq_ignore_ascii_case(#[trigger] hashes[i], expected_md5(md5)->0),
    ensures
        single_file_verdict(md5, names, hashes, from) == md5_verified_verdict(names[k]),
    decreases k - from,
{
    if from < k {
        lemma_verdict_first_match(md5, names, hashes, from + 1, k);
    }
}

/// The verdict on a downloaded file, over its candidates (`names`, with the
/// MD5 of each in `hashes`): without a usable MD5 from Drive it is an
/// unavailable-MD5 failure with one error; with one, the first candidate
/// whose MD5 equals Drive's (ignoring ASCII case) is verified and named,
/// and when none does the file counts as missing if there was no candidate
/// and as differing otherwise.
pub proof fn law_single_file_verdict_fields(
    md5: Option<Seq<char>>,
    names: Seq<Seq<char>>,
    hashes: Seq<Seq<char>>,
    k: int,
)
    requires
        hashes.len() == names.len(),
    ensures
        ({
            let v = single_file_verdict(md5, names, hashes, 0);
            &&& expected_md5(md5) is None ==> !v.success && v.hash_type == "MD5 Unavailable"@ && v.error_count
                == 1 && v.matching_files == 0 && v.missing_on_dst == 0 && v.differ_count == 0
            &&& (expected_md5(md5) is Some && forall|i: int| 0 <= i < names.len() ==> !eq_ignore_ascii_case(
                #[trigger] hashes[i],
                expected_md5(md5)->0,
            )) ==> {
                &&& !v.success
                &&& v.hash_type == "MD5"@
                &&& v.matching_files == 0
                &&& v.error_count == 0
                &&& v.missing_on_dst == (if names.len() == 0 { 1u64 } else { 0u64 })
                &&& v.differ_count == (if names.len() == 0 { 0u64 } else { 1u64 })
            }
            &&& (expected_md5(md5) is Some && 0 <= k < names.len() && eq_ignore_ascii_case(
                hashes[k],
                expected_md5(md5)->0,
            ) && forall|i: int| 0 <= i < k ==> !eq_ignore_ascii_case(#[trigger] hashes[i], expected_md5(md5)->0))
                ==> {
                &&& v.success
                &&& v.hash_type == "MD5"@
                &&& v.matching_files == 1
                &&& v.missing_on_dst == 0 && v.differ_count == 0 && v.error_count == 0
                &&& v.details == seq!["MD5 verified: "@ + names[k]]
            }
        }),
{
    if expected_md5(md5) is Some {
        if forall|i: int| 0 <= i < names.len() ==> !eq_ignore_ascii_case(#[trigger] hashes[i], expected_md5(md5)->0) {
            lemma_verdict_no_match(md5, names, hashes, 0);
        }
        if 0 <= k < names.len() && eq_ignore_ascii_case(hashes[k], expected_md5(md5)->0) && forall|i: int|
            0 <= i < k ==> !eq_ignore_ascii_case(#[trigger] hashes[i], expected_md5(md5)->0) {
            lemma_verdict_first_match(md5, names, hashes, 0, k);
        }
    }
}

proof fn lemma_labelled_lines(items: Seq<Option<Seq<char>>>, prefix: Seq<char>)
    ensures
        forall|j: int| 0 <= j < labelled(items, prefix).len() ==> seq_starts_with(
            #[trigger] labelled(items, prefix)[j],
            prefix,
        ) && items.contains(Some(labelled(items, prefix)[j].skip(prefix.len() as int))),
    decreases items.len(),
{
    if items.len() > 0 {
        let init = items.drop_last();
        lemma_labelled_lines(init, prefix);
        let l = labelled(items, prefix);
        assert forall|j: int| 0 <= j < l.len() implies seq_starts_with(#[trigger] l[j], prefix) && items.contains(
            Some(l[j].skip(prefix.len() as int)),
        ) by {
            if j < labelled(init, prefix).len() {
                assert(l[j] == labelled(init, prefix)[j]);
                let x = Some(l[j].skip(prefix.len() as int));
                assert(init.contains(x));
                let w = choose|w: int| 0 <= w < init.len() && init[w] == x;
                assert(items[w] == x);
            } else {
                let s = items.last()->0;
                assert(l[j] == prefix + s);
                assert(l[j].subrange(0, prefix.len() as int) =~= prefix);
                assert(l[j].skip(prefix.len() as int) =~= s);
                assert(items[items.len() - 1] == Some(s));
            }
        }
    }
}

proof fn lemma_field_lines(f: FieldView, prefix: Seq<char>)
    ensures
        forall|j: int| 0 <= j < field_details(f, prefix).len() ==> seq_starts_with(
            #[trigger] field_details(f, prefix)[j],
            prefix,
        ) && (f matches FieldView::List(items) && items.contains(
            Some(field_details(f, prefix)[j].skip(prefix.len() as int)),
        )),
{
    if let FieldView::List(items) = f {
        let m: int = if items.len() < 20 { items.len() as int } else { 20 };
        let head = items.take(m);
        lemma_labelled_lines(head, prefix);
        assert forall|j: int| 0 <= j < field_details(f, prefix).len() implies seq_starts_with(
            #[trigger] field_details(f, prefix)[j],
            prefix,
        ) && items.contains(Some(field_details(f, prefix)[j].skip(prefix.len() as int))) by {
            let x = Some(field_details(f, prefix)[j].skip(prefix.len() as int));
            assert(head.contains(x));
            let w = choose|w: int| 0 <= w < head.len() && head[w] == x;
            assert(items[w] == x);
        }
    }
}

/// The detail lines of a directory check with MD5 name the files of the
/// report's lists under their own labels: when only `differ` is a list,
/// each line is `Differing (corrupted): ` and one of its files; when only
/// `missingOnDst` is, `Missing on destination: ` and one of its files; when
/// only `error` is, `Check error: ` and one of its entries.
pub proof fn law_directory_detail_labels(
    success: Option<bool>,
    hash_type: Option<Seq<char>>,
    matched: FieldView,
    missing: FieldView,
    differ: FieldView,
    error: FieldView,
)
    requires
        hash_type matches Some(h) && eq_ignore_ascii_case(h, "MD5"@),
    ensures
        ({
            let d = check_verdict_spec(success, hash_type, matched, missing, differ, error).details;
            &&& (missing !is List && error !is List) ==> forall|j: int| 0 <= j < d.len() ==> seq_starts_with(
                #[trigger] d[j],
                "Differing (corrupted): "@,
            ) && (differ matches FieldView::List(items) && items.contains(
                Some(d[j].skip("Differing (corrupted): "@.len() as int)),
            ))
            &&& (differ !is List && error !is List) ==> forall|j: int| 0 <= j < d.len() ==> seq_starts_with(
                #[trigger] d[j],
                "Missing on destination: "@,
            ) && (missing matches FieldView::List(items) && items.contains(
                Some(d[j].skip("Missing on destination: "@.len() as int)),
            ))
            &&& (differ !is List && missing !is List) ==> forall|j: int| 0 <= j < d.len() ==> seq_starts_with(
                #[trigger] d[j],
                "Check error: "@,
            ) && (error matches FieldView::List(items) && items.contains(
                Some(d[j].skip("Check error: "@.len() as int)),
            ))
        }),
{
    lemma_field_lines(differ, "Differing (corrupted): "@);
    lemma_field_lines(missing, "Missing on destination: "@);
    lemma_field_lines(error, "Check error: "@);
    let d = check_verdict_spec(success, hash_type, matched, missing, differ, error).details;
    let dd = field_details(differ, "Differing (corrupted): "@);
    let md = field_details(missing, "Missing on destination: "@);
    let ed = field_details(error, "Check error: "@);
    assert(d =~= seq![] + dd + md + ed);
    if missing !is List && error !is List {
        assert(d =~= dd);
    }
    if differ !is List && error !is List {
        assert(d =~= md);
    }
    if differ !is List && missing !is List {
        assert(d =~= ed);
    }
}

} // verus!
