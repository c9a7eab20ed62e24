//! Connecting a Google account: choosing the OAuth client and settings, and
//! the decisions of the connect transaction (its steps, and what a failure
//! rolls back).
use vstd::prelude::*;
use vstd::string::*;
use crate::auth::drive::{reports_shared_client, shared_client_reported};
use crate::settings::{
    client_fingerprint_spec, clone_opt, compute_client_fingerprint, creds_view,
    load_managed_oauth_credentials, load_rclone_oauth_credentials_from_settings,
    managed_credentials_spec, settings_credentials_spec, unwrap_or_empty, AppSettings,
    RcloneOAuthCredentials, SettingsView,
};
use crate::text::{
    chars_of, concat, is_blank, join, join_strings, lemma_trim_idempotent, lines, opt_view, seq_contains, split_lines,
    str_contains, str_eq, string_of, string_of_all, string_views, trim, trim_chars, trim_end_chars,
    trim_end_len, trim_str, views_of,
};

verus! {

broadcast use vstd::string::group_string_axioms;

// ---------------------------------------------------------------------------
// Remotes
// ---------------------------------------------------------------------------

/// A remote name that denotes the `gdrive` remote (with or without trailing `:`).
pub open spec fn is_gdrive_remote(r: Seq<char>) -> bool {
    trim_end_chars(r, ":"@) == "gdrive"@
}

pub open spec fn has_gdrive(remotes: Seq<Seq<char>>) -> bool {
    exists|i: int| 0 <= i < remotes.len() && is_gdrive_remote(#[trigger] remotes[i])
}

/// Whether the `gdrive` remote is among the listed remotes.
pub fn has_gdrive_remote(remotes: &Vec<String>) -> (res: bool)
    ensures
        res == has_gdrive(string_views(remotes@)),
{
    let colon = chars_of(":");
    let mut i: usize = 0;
    while i < remotes.len()
        invariant
            i <= remotes.len(),
            colon@ == ":"@,
            forall|k: int| 0 <= k < i ==> !is_gdrive_remote(#[trigger] string_views(remotes@)[k]),
        decreases remotes.len() - i,
    {
        let rv = chars_of(remotes[i].as_str());
        let keep = trim_end_len(&rv, &colon);
        let name = string_of(&rv, 0, keep);
        assert(rv@.subrange(0, keep as int) == rv@.take(keep as int));
        if str_eq(name.as_str(), "gdrive") {
            assert(is_gdrive_remote(string_views(remotes@)[i as int]));
            return true;
        }
        i = i + 1;
    }
    false
}

// ---------------------------------------------------------------------------
// Choosing the client and the settings to commit
// ---------------------------------------------------------------------------

/// The value the user typed for a custom client field, or the stored one
/// when the field was left out, blank, masked or marked to be kept.
pub open spec fn chosen_value(typed: Option<Seq<char>>, stored: Option<Seq<char>>) -> Option<Seq<char>> {
    match typed {
        None => stored,
        Some(s) => if s == "__PRESERVE__"@ || trim(s).len() == 0 || seq_contains(s, "••"@) {
            stored
        } else {
            Some(trim(s))
        },
    }
}

/// Whether the connection uses a custom client: as requested, or as stored
/// when the request names no known mode.
pub open spec fn connect_is_custom(current: SettingsView, mode: Option<Seq<char>>) -> bool {
    match mode {
        Some(m) => if m == "custom"@ {
            true
        } else if m == "managed"@ {
            false
        } else {
            current.oauth_mode == "custom"@
        },
        None => current.oauth_mode == "custom"@,
    }
}

/// The settings to commit and the client to connect with.
pub open spec fn connect_choice_spec(
    current: SettingsView,
    mode: Option<Seq<char>>,
    typed_id: Option<Seq<char>>,
    typed_secret: Option<Seq<char>>,
    baked_id: Option<Seq<char>>,
    baked_secret: Option<Seq<char>>,
) -> Result<(SettingsView, (Seq<char>, Seq<char>)), Seq<char>> {
    if connect_is_custom(current, mode) {
        let id = chosen_value(typed_id, current.custom_client_id);
        let secret = chosen_value(typed_secret, current.custom_client_secret);
        if id is None || trim(id->0).len() == 0 {
            Err("Custom OAuth Client ID is required"@)
        } else if secret is None || trim(secret->0).len() == 0 {
            Err("Custom OAuth Client Secret is required"@)
        } else {
            Ok(
                (
                    SettingsView {
                        oauth_mode: "custom"@,
                        connected_client_fingerprint: Some(client_fingerprint_spec(id->0)),
                        custom_client_id: id,
                        custom_client_secret: secret,
                        ..current
                    },
                    (id->0, secret->0),
                ),
            )
        }
    } else {
        match managed_credentials_spec(baked_id, baked_secret) {
            Err(e) => Err(e),
            Ok((cid, csecret)) => Ok(
                (
                    SettingsView {
                        oauth_mode: "managed"@,
                        connected_client_fingerprint: Some(client_fingerprint_spec(cid)),
                        ..current
                    },
                    (cid, csecret),
                ),
            ),
        }
    }
}

pub open spec fn choice_view(r: Result<(AppSettings, RcloneOAuthCredentials), String>) -> Result<
    (SettingsView, (Seq<char>, Seq<char>)),
    Seq<char>,
> {
    match r {
        Ok((s, c)) => Ok((s@, (c.client_id@, c.client_secret@))),
        Err(e) => Err(e@),
    }
}

fn chosen_value_exec(typed: &Option<String>, stored: &Option<String>) -> (res: Option<String>)
    ensures
        opt_view(res) == chosen_value(opt_view(*typed), opt_view(*stored)),
{
    match typed {
        None => clone_opt(stored),
        Some(s) => if str_eq(s.as_str(), "__PRESERVE__") || is_blank(s.as_str()) || str_contains(
            s.as_str(),
            "••",
        ) {
            clone_opt(stored)
        } else {
            Some(trim_str(s.as_str()))
        },
    }
}

fn opt_is_blank(o: &Option<String>) -> (res: bool)
    ensures
        res == (o is None || trim(opt_view(*o)->0).len() == 0),
{
    match o {
        None => true,
        Some(s) => is_blank(s.as_str()),
    }
}

/// Chooses the OAuth client and the settings that a successful connection
/// commits (`connect_google_drive`): the requested mode (or the stored one),
/// the typed custom values (or the stored ones when left out, blank, masked
/// or marked to be kept), and the fingerprint of the chosen client ID.
pub fn prepare_google_connection(
    current: &AppSettings,
    oauth_mode: &Option<String>,
    custom_client_id: &Option<String>,
    custom_client_secret: &Option<String>,
    baked_client_id: &Option<String>,
    baked_client_secret: &Option<String>,
) -> (res: Result<(AppSettings, RcloneOAuthCredentials), String>)
    ensures
        choice_view(res) == connect_choice_spec(
            current@,
            opt_view(*oauth_mode),
            opt_view(*custom_client_id),
            opt_view(*custom_client_secret),
            opt_view(*baked_client_id),
            opt_view(*baked_client_secret),
        ),
{
    let is_custom = match oauth_mode {
        Some(m) => if str_eq(m.as_str(), "custom") {
            true
        } else if str_eq(m.as_str(), "managed") {
            false
        } else {
            str_eq(current.oauth_mode.as_str(), "custom")
        },
        None => str_eq(current.oauth_mode.as_str(), "custom"),
    };
    let mut target = current.duplicate();
    if is_custom {
        let id = chosen_value_exec(custom_client_id, &current.custom_client_id);
        if opt_is_blank(&id) {
            return Err(String::from_str("Custom OAuth Client ID is required"));
        }
        let secret = chosen_value_exec(custom_client_secret, &current.custom_client_secret);
        if opt_is_blank(&secret) {
            return Err(String::from_str("Custom OAuth Client Secret is required"));
        }
        let client_id = match &id {
            Some(s) => s.clone(),
            None => String::new(),
        };
        let client_secret = match &secret {
            Some(s) => s.clone(),
            None => String::new(),
        };
        let fp = compute_client_fingerprint(client_id.as_str());
        target.oauth_mode = String::from_str("custom");
        target.custom_client_id = id;
        target.custom_client_secret = secret;
        target.connected_client_fingerprint = Some(fp);
        Ok((target, RcloneOAuthCredentials { client_id, client_secret }))
    } else {
        let creds = match load_managed_oauth_credentials(baked_client_id, baked_client_secret) {
            Ok(c) => c,
            Err(e) => {
                return Err(e);
            },
        };
        let fp = compute_client_fingerprint(creds.client_id.as_str());
        target.oauth_mode = String::from_str("managed");
        target.connected_client_fingerprint = Some(fp);
        Ok((target, creds))
    }
}

/// The settings that a connection commits record the fingerprint of the
/// client it connects with, and in custom mode they store that client.
pub proof fn law_connect_records_client(
    current: SettingsView,
    mode: Option<Seq<char>>,
    typed_id: Option<Seq<char>>,
    typed_secret: Option<Seq<char>>,
    baked_id: Option<Seq<char>>,
    baked_secret: Option<Seq<char>>,
)
    ensures
        connect_choice_spec(current, mode, typed_id, typed_secret, baked_id, baked_secret) matches Ok(
            (s, (cid, csecret)),
        ) ==> {
            &&& s.connected_client_fingerprint == Some(client_fingerprint_spec(cid))
            &&& connect_is_custom(current, mode) ==> {
                &&& s.oauth_mode == "custom"@
                &&& s.custom_client_id == Some(cid)
                &&& s.custom_client_secret == Some(csecret)
                &&& trim(cid).len() != 0
                &&& trim(csecret).len() != 0
            }
            &&& !connect_is_custom(current, mode) ==> {
                &&& s.oauth_mode == "managed"@
                &&& managed_credentials_spec(baked_id, baked_secret) == Ok::<(Seq<char>, Seq<char>), Seq<char>>((cid, csecret))
            }
        },
{
}

/// Connecting uses the custom client when `custom` is asked for, the
/// managed one when `managed` is, and otherwise what the settings hold. A
/// custom connection takes a typed value, trimmed, unless it is left out,
/// blank, masked (holds `••`) or `__PRESERVE__`, in which case the stored
/// value stands; it is refused when the ID or the secret ends up missing or
/// blank.
pub proof fn law_connect_choice(
    current: SettingsView,
    mode: Option<Seq<char>>,
    typed_id: Option<Seq<char>>,
    typed_secret: Option<Seq<char>>,
    baked_id: Option<Seq<char>>,
    baked_secret: Option<Seq<char>>,
)
    ensures
        mode == Some("custom"@) ==> connect_is_custom(current, mode),
        mode == Some("managed"@) ==> !connect_is_custom(current, mode),
        (mode != Some("custom"@) && mode != Some("managed"@)) ==> (connect_is_custom(current, mode)
            <==> current.oauth_mode == "custom"@),
        ({
            let kept = |t: Option<Seq<char>>| match t {
                None => true,
                Some(v) => v == "__PRESERVE__"@ || trim(v).len() == 0 || seq_contains(v, "••"@),
            };
            let id = if kept(typed_id) { current.custom_client_id } else { Some(trim(typed_id->0)) };
            let secret = if kept(typed_secret) {
                current.custom_client_secret
            } else {
                Some(trim(typed_secret->0))
            };
            connect_is_custom(current, mode) ==> match connect_choice_spec(
                current,
                mode,
                typed_id,
                typed_secret,
                baked_id,
                baked_secret,
            ) {
                Ok((s, (cid, csecret))) => id == Some(cid) && secret == Some(csecret) && s.custom_client_id
                    == id && s.custom_client_secret == secret && trim(cid).len() > 0 && trim(csecret).len() > 0,
                Err(_) => id is None || trim(id->0).len() == 0 || secret is None || trim(secret->0).len() == 0,
            }
        }),
{
    reveal_strlit("custom");
    reveal_strlit("managed");
    assert("custom"@.len() == 6);
    assert("managed"@.len() == 7);
}

// ---------------------------------------------------------------------------
// The connect transaction
// ---------------------------------------------------------------------------

/// The steps of the connect transaction, in order.
#[derive(Clone, Copy, Debug, PartialEq, Eq, Structural)]
pub enum ConnectStep {
    /// Authorize into an isolated candidate configuration.
    Auth,
    /// Probe the candidate configuration with the candidate client.
    Probe,
    /// Read the Google profile through the candidate configuration.
    Profile,
    /// Halt the running daemon.
    StopDaemon,
    /// Write the candidate configuration over the live one.
    CommitConfig,
    /// Write the target settings.
    CommitSettings,
    /// Start the daemon with the new client.
    StartDaemon,
    /// List the daemon's remotes.
    ListRemotes,
}

/// What a step reported.
pub enum StepReport {
    Done,
    Failed(String),
    /// The profile step: whether the profile is authenticated.
    Profile(bool),
    /// The remotes step: the remotes listed.
    Remotes(Vec<String>),
}

pub enum ReportView {
    Done,
    Failed(Seq<char>),
    Profile(bool),
    Remotes(Seq<Seq<char>>),
}

pub open spec fn report_view(r: StepReport) -> ReportView {
    match r {
        StepReport::Done => ReportView::Done,
        StepReport::Failed(e) => ReportView::Failed(e@),
        StepReport::Profile(b) => ReportView::Profile(b),
        StepReport::Remotes(v) => ReportView::Remotes(string_views(v@)),
    }
}

/// A report of the kind that the step gives.
pub open spec fn report_fits(step: ConnectStep, r: ReportView) -> bool {
    match r {
        ReportView::Failed(_) => true,
        ReportView::Profile(_) => step == ConnectStep::Profile,
        ReportView::Remotes(_) => step == ConnectStep::ListRemotes,
        ReportView::Done => step != ConnectStep::Profile && step != ConnectStep::ListRemotes,
    }
}

/// What to do next.
pub enum ConnectAction {
    Run(ConnectStep),
    /// The transaction succeeded with these remotes.
    Succeed(Vec<String>),
    /// The transaction failed with this error; roll back.
    RollBack(String),
}

pub enum ActionView {
    Run(ConnectStep),
    Succeed(Seq<Seq<char>>),
    RollBack(Seq<char>),
}

pub open spec fn action_view(a: ConnectAction) -> ActionView {
    match a {
        ConnectAction::Run(s) => ActionView::Run(s),
        ConnectAction::Succeed(v) => ActionView::Succeed(string_views(v@)),
        ConnectAction::RollBack(e) => ActionView::RollBack(e@),
    }
}

/// The progress of a connect transaction.
pub struct ConnectTransaction {
    pub current: ConnectStep,
    pub config_committed: bool,
    pub settings_committed: bool,
}

pub struct TxView {
    pub current: ConnectStep,
    pub config_committed: bool,
    pub settings_committed: bool,
}

impl View for ConnectTransaction {
    type V = TxView;

    open spec fn view(&self) -> TxView {
        TxView {
            current: self.current,
            config_committed: self.config_committed,
            settings_committed: self.settings_committed,
        }
    }
}

pub open spec fn next_step(s: ConnectStep) -> ConnectStep {
    match s {
        ConnectStep::Auth => ConnectStep::Probe,
        ConnectStep::Probe => ConnectStep::Profile,
        ConnectStep::Profile => ConnectStep::StopDaemon,
        ConnectStep::StopDaemon => ConnectStep::CommitConfig,
        ConnectStep::CommitConfig => ConnectStep::CommitSettings,
        ConnectStep::CommitSettings => ConnectStep::StartDaemon,
        ConnectStep::StartDaemon => ConnectStep::ListRemotes,
        ConnectStep::ListRemotes => ConnectStep::ListRemotes,
    }
}

/// One step of the transaction: a failure rolls back; an unverified profile
/// or a remote list without `gdrive` fails; the commit steps record what they
/// committed; the remote list with `gdrive` ends in success.
pub open spec fn advance_spec(t: TxView, r: ReportView) -> (TxView, ActionView) {
    match r {
        ReportView::Failed(e) => (t, ActionView::RollBack(e)),
        ReportView::Profile(ok) => if ok {
            (TxView { current: ConnectStep::StopDaemon, ..t }, ActionView::Run(ConnectStep::StopDaemon))
        } else {
            (t, ActionView::RollBack("Could not verify authenticated Google user profile."@))
        },
        ReportView::Remotes(rs) => if has_gdrive(rs) {
            (t, ActionView::Succeed(rs))
        } else {
            (t, ActionView::RollBack("Authenticated gdrive remote was not found in daemon remotes list."@))
        },
        ReportView::Done => {
            let n = next_step(t.current);
            (
                TxView {
                    current: n,
                    config_committed: t.config_committed || t.current == ConnectStep::CommitConfig,
                    settings_committed: t.settings_committed || t.current
                        == ConnectStep::CommitSettings,
                },
                ActionView::Run(n),
            )
        },
    }
}

impl ConnectTransaction {
    /// A new transaction: nothing committed, authorization first.
    pub fn begin() -> (res: (ConnectTransaction, ConnectStep))
        ensures
            res.0@ == (TxView {
                current: ConnectStep::Auth,
                config_committed: false,
                settings_committed: false,
            }),
            res.1 == ConnectStep::Auth,
    {
        (
            ConnectTransaction {
                current: ConnectStep::Auth,
                config_committed: false,
                settings_committed: false,
            },
            ConnectStep::Auth,
        )
    }

    /// Takes the report of the current step and says what to do next.
    pub fn advance(&mut self, report: StepReport) -> (res: ConnectAction)
        requires
            report_fits(old(self).current, report_view(report)),
        ensures
            (final(self)@, action_view(res)) == advance_spec(old(self)@, report_view(report)),
    {
        match report {
            StepReport::Failed(e) => ConnectAction::RollBack(e),
            StepReport::Profile(ok) => if ok {
                self.current = ConnectStep::StopDaemon;
                ConnectAction::Run(ConnectStep::StopDaemon)
            } else {
                ConnectAction::RollBack(
                    String::from_str("Could not verify authenticated Google user profile."),
                )
            },
            StepReport::Remotes(rs) => if has_gdrive_remote(&rs) {
                ConnectAction::Succeed(rs)
            } else {
                ConnectAction::RollBack(
                    String::from_str(
                        "Authenticated gdrive remote was not found in daemon remotes list.",
                    ),
                )
            },
            StepReport::Done => {
                let cur = self.current;
                let n = match cur {
                    ConnectStep::Auth => ConnectStep::Probe,
                    ConnectStep::Probe => ConnectStep::Profile,
                    ConnectStep::Profile => ConnectStep::StopDaemon,
                    ConnectStep::StopDaemon => ConnectStep::CommitConfig,
                    ConnectStep::CommitConfig => ConnectStep::CommitSettings,
                    ConnectStep::CommitSettings => ConnectStep::StartDaemon,
                    ConnectStep::StartDaemon => ConnectStep::ListRemotes,
                    ConnectStep::ListRemotes => ConnectStep::ListRemotes,
                };
                if cur == ConnectStep::CommitConfig {
                    self.config_committed = true;
                }
                if cur == ConnectStep::CommitSettings {
                    self.settings_committed = true;
                }
                self.current = n;
                ConnectAction::Run(n)
            },
        }
    }
}

/// How a file that the transaction may have overwritten is put back.
#[derive(Clone, Copy, Debug, PartialEq, Eq, Structural)]
pub enum FileRestore {
    /// The file was not committed: leave it.
    Keep,
    /// Write the snapshot taken before the transaction back.
    WriteSnapshot,
    /// There was no file before: remove it if it exists.
    Remove,
}

/// What a failed transaction undoes.
pub struct RollbackPlan {
    pub rclone_config: FileRestore,
    pub settings: FileRestore,
    /// Restart the daemon that ran before, with the previous client.
    pub restart_daemon: bool,
}

/// How to restore one file: only a committed file is touched.
pub open spec fn restore_spec(committed: bool, had_snapshot: bool) -> FileRestore {
    if !committed {
        FileRestore::Keep
    } else if had_snapshot {
        FileRestore::WriteSnapshot
    } else {
        FileRestore::Remove
    }
}

fn restore_exec(committed: bool, had_snapshot: bool) -> (res: FileRestore)
    ensures
        res == restore_spec(committed, had_snapshot),
{
    if !committed {
        FileRestore::Keep
    } else if had_snapshot {
        FileRestore::WriteSnapshot
    } else {
        FileRestore::Remove
    }
}

/// The rollback of a failed transaction: each committed file goes back to its
/// snapshot (or away, if there was none), and a daemon that ran before is
/// restarted when the previous client is known.
pub fn rollback_plan(
    tx: &ConnectTransaction,
    had_config_snapshot: bool,
    had_settings_snapshot: bool,
    daemon_was_running: bool,
    has_previous_credentials: bool,
) -> (res: RollbackPlan)
    ensures
        res.rclone_config == restore_spec(tx.config_committed, had_config_snapshot),
        res.settings == restore_spec(tx.settings_committed, had_settings_snapshot),
        res.restart_daemon == (daemon_was_running && has_previous_credentials),
{
    RollbackPlan {
        rclone_config: restore_exec(tx.config_committed, had_config_snapshot),
        settings: restore_exec(tx.settings_committed, had_settings_snapshot),
        restart_daemon: daemon_was_running && has_previous_credentials,
    }
}

/// The error of a rolled-back transaction: the step's error, and the
/// rollback's own failures after it when there were any.
pub open spec fn transaction_error_spec(err: Seq<char>, rollback_errors: Seq<Seq<char>>) -> Seq<char> {
    if rollback_errors.len() == 0 {
        err
    } else {
        err + "; rollback encountered errors: "@ + join(rollback_errors, ", "@)
    }
}

/// Composes the error that a failed transaction reports.
pub fn transaction_error(err: &str, rollback_errors: &Vec<String>) -> (res: String)
    ensures
        res@ == transaction_error_spec(err@, string_views(rollback_errors@)),
{
    if rollback_errors.len() == 0 {
        return String::from_str(err);
    }
    let mut msg = concat(err, "; rollback encountered errors: ");
    let joined = join_strings(rollback_errors, ", ");
    msg.append(joined.as_str());
    msg
}

/// The state after running the steps of `reports` from `t`, with the first
/// action that is not a plain `Run` (or the last `Run`). The run stops at a
/// report that the current step cannot give, which `advance` does not take.
pub open spec fn run_tx(t: TxView, reports: Seq<ReportView>) -> (TxView, ActionView)
    decreases reports.len(),
{
    if reports.len() == 0 || !report_fits(t.current, reports[0]) {
        (t, ActionView::Run(t.current))
    } else {
        let (t2, a) = advance_spec(t, reports[0]);
        match a {
            ActionView::Run(_) => run_tx(t2, reports.drop_first()),
            _ => (t2, a),
        }
    }
}

/// A failure before the live configuration is committed rolls back nothing;
/// in every case exactly the committed files are restored.
pub proof fn law_failure_before_commit_restores_nothing(t: TxView, r: ReportView, had_conf: bool, had_settings: bool)
    requires
        !t.config_committed,
        !t.settings_committed,
        t.current == ConnectStep::Auth || t.current == ConnectStep::Probe || t.current
            == ConnectStep::Profile || t.current == ConnectStep::StopDaemon || t.current
            == ConnectStep::CommitConfig,
    ensures
        advance_spec(t, r).1 is RollBack ==> restore_spec(advance_spec(t, r).0.config_committed, had_conf)
            == FileRestore::Keep && restore_spec(advance_spec(t, r).0.settings_committed, had_settings)
            == FileRestore::Keep,
{
}

/// A transaction that succeeds has committed both the configuration and the
/// settings, and its remotes include `gdrive`.
pub proof fn law_success_commits_both(reports: Seq<ReportView>)
    ensures
        ({
            let start = TxView { current: ConnectStep::Auth, config_committed: false, settings_committed: false };
            let (t, a) = run_tx(start, reports);
            a matches ActionView::Succeed(rs) ==> t.config_committed && t.settings_committed && has_gdrive(rs)
        }),
    decreases reports.len(),
{
    lemma_run_tx_commits(
        TxView { current: ConnectStep::Auth, config_committed: false, settings_committed: false },
        reports,
    );
}

/// The commit flags record exactly the commit steps that have been passed.
pub open spec fn flags_consistent(t: TxView) -> bool {
    &&& t.config_committed <==> (t.current == ConnectStep::CommitSettings || t.current
        == ConnectStep::StartDaemon || t.current == ConnectStep::ListRemotes)
    &&& t.settings_committed <==> (t.current == ConnectStep::StartDaemon || t.current
        == ConnectStep::ListRemotes)
}

proof fn lemma_run_tx_commits(t: TxView, reports: Seq<ReportView>)
    requires
        flags_consistent(t),
    ensures
        run_tx(t, reports).1 matches ActionView::Succeed(rs) ==> run_tx(t, reports).0.config_committed
            && run_tx(t, reports).0.settings_committed && has_gdrive(rs),
        flags_consistent(run_tx(t, reports).0),
    decreases reports.len(),
{
    if reports.len() > 0 && report_fits(t.current, reports[0]) {
        let (t2, a) = advance_spec(t, reports[0]);
        if a is Run {
            lemma_run_tx_commits(t2, reports.drop_first());
        }
    }
}

// ---------------------------------------------------------------------------
// Starting the engine with the connected client
// ---------------------------------------------------------------------------

/// The client the engine starts with: the one the settings select, and only
/// if it is the client the Google account was connected with.
pub open spec fn engine_credentials_spec(
    s: SettingsView,
    baked_id: Option<Seq<char>>,
    baked_secret: Option<Seq<char>>,
) -> Result<(Seq<char>, Seq<char>), Seq<char>> {
    match settings_credentials_spec(s, baked_id, baked_secret) {
        Err(e) => Err(e),
        Ok((id, secret)) => if s.connected_client_fingerprint == Some(client_fingerprint_spec(id)) {
            Ok((id, secret))
        } else {
            Err("Google account reconnection is required with Balladi Managed OAuth."@)
        },
    }
}

/// Chooses the credentials that `init_engine` starts the daemon with.
pub fn engine_credentials(
    settings: &AppSettings,
    baked_client_id: &Option<String>,
    baked_client_secret: &Option<String>,
) -> (res: Result<RcloneOAuthCredentials, String>)
    ensures
        creds_view(res) == engine_credentials_spec(
            settings@,
            opt_view(*baked_client_id),
            opt_view(*baked_client_secret),
        ),
{
    let creds = match load_rclone_oauth_credentials_from_settings(
        settings,
        baked_client_id,
        baked_client_secret,
    ) {
        Ok(c) => c,
        Err(e) => {
            return Err(e);
        },
    };
    let active = compute_client_fingerprint(creds.client_id.as_str());
    let matches = match &settings.connected_client_fingerprint {
        Some(fp) => str_eq(fp.as_str(), active.as_str()),
        None => false,
    };
    if matches {
        Ok(creds)
    } else {
        Err(String::from_str("Google account reconnection is required with Balladi Managed OAuth."))
    }
}

/// What `init_engine` reports: `ready` only when the `gdrive` remote exists
/// and its user is signed in.
pub open spec fn engine_ready(has_gdrive: bool, authenticated: bool) -> bool {
    has_gdrive && authenticated
}

pub fn engine_status(has_gdrive: bool, authenticated: bool) -> (res: (&'static str, bool))
    ensures
        res.1 == engine_ready(has_gdrive, authenticated),
        res.0@ == (if engine_ready(has_gdrive, authenticated) {
            "ready"@
        } else {
            "needs_auth"@
        }),
{
    if has_gdrive && authenticated {
        ("ready", true)
    } else {
        ("needs_auth", false)
    }
}

/// The settings that a connection commits let the engine start, with the
/// very client the connection chose (trimmed): a connected account needs no
/// reconnection.
pub proof fn law_connected_client_starts_engine(
    current: SettingsView,
    mode: Option<Seq<char>>,
    typed_id: Option<Seq<char>>,
    typed_secret: Option<Seq<char>>,
    baked_id: Option<Seq<char>>,
    baked_secret: Option<Seq<char>>,
)
    ensures
        connect_choice_spec(current, mode, typed_id, typed_secret, baked_id, baked_secret) matches Ok(
            (s, (cid, csecret)),
        ) ==> engine_credentials_spec(s, baked_id, baked_secret) == Ok::<(Seq<char>, Seq<char>), Seq<char>>(
            (trim(cid), trim(csecret)),
        ),
{
    reveal_strlit("custom");
    reveal_strlit("managed");
    let r = connect_choice_spec(current, mode, typed_id, typed_secret, baked_id, baked_secret);
    if r is Ok {
        let (s, (cid, csecret)) = r->Ok_0;
        lemma_trim_idempotent(cid);
        lemma_trim_idempotent(csecret);
        if connect_is_custom(current, mode) {
            assert(unwrap_or_empty(s.custom_client_id) == cid);
            assert(unwrap_or_empty(s.custom_client_secret) == csecret);
            assert(client_fingerprint_spec(trim(cid)) == client_fingerprint_spec(cid));
        } else {
            let bid = trim(unwrap_or_empty(baked_id));
            let bsec = trim(unwrap_or_empty(baked_secret));
            lemma_trim_idempotent(unwrap_or_empty(baked_id));
            lemma_trim_idempotent(unwrap_or_empty(baked_secret));
            assert(s.oauth_mode == "managed"@);
            assert(s.oauth_mode != "custom"@);
        }
    }
}

// ---------------------------------------------------------------------------
// Remotes listed by `rclone listremotes`
// ---------------------------------------------------------------------------

/// The non-blank lines of `ls`, trimmed.
pub open spec fn nonblank_trimmed(ls: Seq<Seq<char>>) -> Seq<Seq<char>>
    decreases ls.len(),
{
    if ls.len() == 0 {
        Seq::empty()
    } else if trim(ls.last()).len() == 0 {
        nonblank_trimmed(ls.drop_last())
    } else {
        nonblank_trimmed(ls.drop_last()).push(trim(ls.last()))
    }
}

/// The remotes that `rclone listremotes` printed: one per line, trimmed,
/// blank lines left out.
pub fn parse_listremotes_output(stdout: &str) -> (res: Vec<String>)
    ensures
        string_views(res@) == nonblank_trimmed(lines(stdout@)),
{
    let all = chars_of(stdout);
    let ls = split_lines(&all);
    let mut res: Vec<String> = Vec::new();
    let mut i: usize = 0;
    while i < ls.len()
        invariant
            i <= ls.len(),
            views_of(ls@) == lines(stdout@),
            string_views(res@) == nonblank_trimmed(views_of(ls@).take(i as int)),
        decreases ls.len() - i,
    {
        let ghost pre = views_of(ls@).take(i as int);
        assert(views_of(ls@).take(i + 1).drop_last() =~= pre);
        assert(views_of(ls@).take(i + 1).last() == ls@[i as int]@);
        let t = trim_chars(&ls[i]);
        if t.len() > 0 {
            let ghost before = res@;
            res.push(string_of_all(&t));
            assert(string_views(res@) =~= string_views(before).push(t@));
        }
        i = i + 1;
    }
    assert(views_of(ls@).take(ls.len() as int) =~= views_of(ls@));
    res
}

// ---------------------------------------------------------------------------
// The connect steps' own checks
// ---------------------------------------------------------------------------

/// The executor of the connect steps that runs rclone and the Drive API.
pub struct DefaultConnectStepExecutor;

/// How the authorization step ends: `rclone config create` must succeed.
pub open spec fn auth_result_spec(success: bool, stderr: Seq<char>) -> Result<(), Seq<char>> {
    if success {
        Ok(())
    } else {
        Err("Authorization failed: "@ + stderr)
    }
}

/// How the probe step ends: `rclone about` must succeed, and not with
/// rclone's shared OAuth client.
pub open spec fn probe_result_spec(success: bool, stderr: Seq<char>) -> Result<(), Seq<char>> {
    if !success {
        Err("Google Drive probe failed: "@ + stderr)
    } else if reports_shared_client(stderr) {
        Err("rclone shared OAuth client detected"@)
    } else {
        Ok(())
    }
}

pub open spec fn unit_view(r: Result<(), String>) -> Result<(), Seq<char>> {
    match r {
        Ok(()) => Ok(()),
        Err(e) => Err(e@),
    }
}

impl DefaultConnectStepExecutor {
    /// Judges the authorization run from its exit status and error output.
    pub fn auth_result(&self, success: bool, stderr: &str) -> (res: Result<(), String>)
        ensures
            unit_view(res) == auth_result_spec(success, stderr@),
    {
        if success {
            Ok(())
        } else {
            Err(concat("Authorization failed: ", stderr))
        }
    }

    /// Judges the probe run from its exit status and error output.
    pub fn probe_result(&self, success: bool, stderr: &str) -> (res: Result<(), String>)
        ensures
            unit_view(res) == probe_result_spec(success, stderr@),
    {
        if !success {
            Err(concat("Google Drive probe failed: ", stderr))
        } else if shared_client_reported(stderr) {
            Err(String::from_str("rclone shared OAuth client detected"))
        } else {
            Ok(())
        }
    }
}

} // verus!
