//! Decisions around the rclone remote-control daemon: the credentials it may
//! run with, whether a running daemon is kept, the bandwidth limit it is given
//! and the password that guards its API.
use vstd::prelude::*;
use vstd::string::*;
use vstd::utf8::encode_utf8;
use rand::Rng;
use crate::digest::{is_lower_hex, sha256_hex, sha256_hex_exec};
use crate::settings::RcloneOAuthCredentials;
use crate::text::{concat, decimal_text, is_blank, push_char, str_eq, string_views, trim, trim_str, u64_to_text};

verus! {

broadcast use vstd::string::group_string_axioms;

/// The fingerprint of a client's credentials: `sha256:v1:` and the SHA-256 of
/// the UTF-8 bytes of the trimmed ID, `:`, and the trimmed secret, in hex.
pub open spec fn credential_fingerprint_spec(client_id: Seq<char>, client_secret: Seq<char>) -> Seq<char> {
    "sha256:v1:"@ + sha256_hex(encode_utf8(trim(client_id) + ":"@ + trim(client_secret)))
}

/// The fingerprint that a running daemon's credentials are recorded under.
pub fn compute_credential_fingerprint(creds: &RcloneOAuthCredentials) -> (res: String)
    ensures
        res@ == credential_fingerprint_spec(creds.client_id@, creds.client_secret@),
        res@.len() == 74,
        res@.take(10) == "sha256:v1:"@,
        is_lower_hex(res@.skip(10)),
{
    let id = trim_str(creds.client_id.as_str());
    let secret = trim_str(creds.client_secret.as_str());
    let mut material = concat(id.as_str(), ":");
    material.append(secret.as_str());
    let hex = sha256_hex_exec(material.as_str().as_bytes());
    let res = concat("sha256:v1:", hex.as_str());
    proof {
        reveal_strlit("sha256:v1:");
        assert(res@.take(10) =~= "sha256:v1:"@);
        assert(res@.skip(10) =~= hex@);
    }
    res
}

/// What is known of the daemon process before a start.
#[derive(Clone, Copy, Debug, PartialEq, Eq, Structural)]
pub enum ChildStatus {
    /// No daemon was spawned.
    Absent,
    /// A daemon was spawned and has exited.
    Exited,
    /// A daemon was spawned and is still running.
    Running,
}

/// How a start treats the daemon.
#[derive(Clone, Copy, Debug, PartialEq, Eq, Structural)]
pub enum DaemonAction {
    /// Keep the running daemon: it runs with these credentials.
    Reuse,
    /// Kill the running daemon, which runs with other credentials, and spawn anew.
    Replace,
    /// Forget any exited daemon and spawn one.
    Spawn,
}

pub open spec fn daemon_plan_spec(
    client_id: Seq<char>,
    client_secret: Seq<char>,
    child: ChildStatus,
    recorded: Option<Seq<char>>,
) -> Result<(DaemonAction, Seq<char>), Seq<char>> {
    if trim(client_id).len() == 0 || trim(client_secret).len() == 0 {
        Err("Private Google OAuth is required: client_id and client_secret cannot be empty"@)
    } else {
        let fp = credential_fingerprint_spec(client_id, client_secret);
        let action = match child {
            ChildStatus::Running => if recorded == Some(fp) {
                DaemonAction::Reuse
            } else {
                DaemonAction::Replace
            },
            _ => DaemonAction::Spawn,
        };
        Ok((action, fp))
    }
}

pub open spec fn plan_view(r: Result<(DaemonAction, String), String>) -> Result<(DaemonAction, Seq<char>), Seq<char>> {
    match r {
        Ok((a, fp)) => Ok((a, fp@)),
        Err(e) => Err(e@),
    }
}

/// Decides how a daemon start proceeds (`start_daemon_with_credentials`):
/// empty credentials are refused before any daemon is looked at; a running
/// daemon is kept only when it was started with the same credentials
/// (`recorded` is the fingerprint recorded at its spawn), and replaced
/// otherwise; with no running daemon a new one is spawned. The fingerprint
/// to record is returned with the action.
pub fn plan_daemon_start(creds: &RcloneOAuthCredentials, child: ChildStatus, recorded: &Option<String>) -> (res:
    Result<(DaemonAction, String), String>)
    ensures
        plan_view(res) == daemon_plan_spec(
            creds.client_id@,
            creds.client_secret@,
            child,
            match recorded {
                Some(s) => Some(s@),
                None => None,
            },
        ),
{
    if is_blank(creds.client_id.as_str()) || is_blank(creds.client_secret.as_str()) {
        return Err(
            String::from_str("Private Google OAuth is required: client_id and client_secret cannot be empty"),
        );
    }
    let fp = compute_credential_fingerprint(creds);
    let action = match child {
        ChildStatus::Running => {
            let same = match recorded {
                Some(r) => str_eq(r.as_str(), fp.as_str()),
                None => false,
            };
            if same {
                DaemonAction::Reuse
            } else {
                DaemonAction::Replace
            }
        },
        _ => DaemonAction::Spawn,
    };
    Ok((action, fp))
}

/// A running daemon is kept only for the very credentials it was started
/// with, and no daemon is started or kept without a client ID and secret.
pub proof fn law_daemon_reused_only_with_same_credentials(
    client_id: Seq<char>,
    client_secret: Seq<char>,
    child: ChildStatus,
    recorded: Option<Seq<char>>,
)
    ensures
        daemon_plan_spec(client_id, client_secret, child, recorded) is Ok ==> trim(client_id).len() != 0
            && trim(client_secret).len() != 0,
        daemon_plan_spec(client_id, client_secret, child, recorded) matches Ok((DaemonAction::Reuse, fp))
            ==> child == ChildStatus::Running && recorded == Some(fp) && fp == credential_fingerprint_spec(
            client_id,
            client_secret,
        ),
{
}

/// How often, and how many milliseconds apart, a new daemon's API is polled
/// before it counts as failing to start (30 polls, 100 ms apart: 3 seconds).
pub const DAEMON_READY_POLLS: u64 = 30;

pub const DAEMON_READY_POLL_MS: u64 = 100;

/// What follows a poll of a new daemon's API.
#[derive(Clone, Copy, Debug, PartialEq, Eq, Structural)]
pub enum ReadyDecision {
    /// The API answered: the daemon is ready.
    Ready,
    /// Wait one interval and poll again.
    PollAgain,
    /// The polls are spent: stop the daemon and fail.
    GiveUp,
}

/// After poll `poll` (counted from 0): ready when the API answered, else
/// another poll while polls remain, else give up.
pub open spec fn after_ready_poll_spec(poll: u64, answered: bool) -> ReadyDecision {
    if answered {
        ReadyDecision::Ready
    } else if poll + 1 < DAEMON_READY_POLLS {
        ReadyDecision::PollAgain
    } else {
        ReadyDecision::GiveUp
    }
}

pub fn after_ready_poll(poll: u64, answered: bool) -> (res: ReadyDecision)
    ensures
        res == after_ready_poll_spec(poll, answered),
{
    if answered {
        ReadyDecision::Ready
    } else if poll < DAEMON_READY_POLLS - 1 {
        ReadyDecision::PollAgain
    } else {
        ReadyDecision::GiveUp
    }
}

/// The error of a daemon that never answered.
pub fn daemon_not_ready_error() -> (res: String)
    ensures
        res@ == "Rclone daemon failed to reach authenticated readiness within 3 seconds."@,
{
    String::from_str("Rclone daemon failed to reach authenticated readiness within 3 seconds.")
}

/// The command line of the daemon (`rclone rcd`): its API on the loopback
/// `port` behind `user` and `pass`, without web GUI or file serving, and the
/// tuned transfer flags (128M Drive chunks, 16M upload cut-off and buffers,
/// acknowledged abuse, stop on the upload limit, fast listing, 4 transfers,
/// 8 checkers, 4 streams above 50M, 3 retries, 10 low-level retries, a 5
/// minute timeout).
pub open spec fn rcd_arguments_spec(port: u16, user: Seq<char>, pass: Seq<char>) -> Seq<Seq<char>> {
    seq![
        "rcd"@,
        "--rc-addr"@,
        "127.0.0.1:"@ + decimal_text(port as nat),
        "--rc-user"@,
        user,
        "--rc-pass"@,
        pass,
        "--rc-web-gui=false"@,
        "--rc-serve=false"@,
        "--drive-chunk-size"@,
        "128M"@,
        "--drive-upload-cutoff"@,
        "16M"@,
        "--drive-acknowledge-abuse"@,
        "--drive-stop-on-upload-limit"@,
        "--fast-list"@,
        "--transfers"@,
        "4"@,
        "--checkers"@,
        "8"@,
        "--buffer-size"@,
        "16M"@,
        "--multi-thread-streams"@,
        "4"@,
        "--multi-thread-cutoff"@,
        "50M"@,
        "--retries"@,
        "3"@,
        "--low-level-retries"@,
        "10"@,
        "--timeout"@,
        "5m"@,
    ]
}

pub fn rcd_arguments(port: u16, user: &str, pass: &str) -> (res: Vec<String>)
    ensures
        string_views(res@) == rcd_arguments_spec(port, user@, pass@),
{
    let addr = concat("127.0.0.1:", u64_to_text(port as u64).as_str());
    let res = vec![
        String::from_str("rcd"),
        String::from_str("--rc-addr"),
        addr,
        String::from_str("--rc-user"),
        user.to_string(),
        String::from_str("--rc-pass"),
        pass.to_string(),
        String::from_str("--rc-web-gui=false"),
        String::from_str("--rc-serve=false"),
        String::from_str("--drive-chunk-size"),
        String::from_str("128M"),
        String::from_str("--drive-upload-cutoff"),
        String::from_str("16M"),
        String::from_str("--drive-acknowledge-abuse"),
        String::from_str("--drive-stop-on-upload-limit"),
        String::from_str("--fast-list"),
        String::from_str("--transfers"),
        String::from_str("4"),
        String::from_str("--checkers"),
        String::from_str("8"),
        String::from_str("--buffer-size"),
        String::from_str("16M"),
        String::from_str("--multi-thread-streams"),
        String::from_str("4"),
        String::from_str("--multi-thread-cutoff"),
        String::from_str("50M"),
        String::from_str("--retries"),
        String::from_str("3"),
        String::from_str("--low-level-retries"),
        String::from_str("10"),
        String::from_str("--timeout"),
        String::from_str("5m"),
    ];
    assert(string_views(res@) =~= rcd_arguments_spec(port, user@, pass@));
    res
}

/// A start with a client ID and secret proceeds under the fingerprint of
/// those credentials: a daemon that is not running is spawned anew; a
/// running one is kept when its recorded fingerprint is that one and
/// replaced otherwise.
pub proof fn law_daemon_start_actions(
    client_id: Seq<char>,
    client_secret: Seq<char>,
    child: ChildStatus,
    recorded: Option<Seq<char>>,
)
    requires
        trim(client_id).len() != 0,
        trim(client_secret).len() != 0,
    ensures
        ({
            let fp = credential_fingerprint_spec(client_id, client_secret);
            let plan = daemon_plan_spec(client_id, client_secret, child, recorded);
            &&& child != ChildStatus::Running ==> plan == Ok::<(DaemonAction, Seq<char>), Seq<char>>(
                (DaemonAction::Spawn, fp),
            )
            &&& (child == ChildStatus::Running && recorded == Some(fp)) ==> plan == Ok::<
                (DaemonAction, Seq<char>),
                Seq<char>,
            >((DaemonAction::Reuse, fp))
            &&& (child == ChildStatus::Running && recorded != Some(fp)) ==> plan == Ok::<
                (DaemonAction, Seq<char>),
                Seq<char>,
            >((DaemonAction::Replace, fp))
        }),
{
}

/// An empty rate or `unlimited` turns the limit off; every other rate is
/// handed on unchanged.
pub proof fn law_bwlimit_rate(rate: Seq<char>)
    ensures
        (rate.len() == 0 || rate == "unlimited"@) ==> bwlimit_rate_spec(rate) == "off"@,
        !(rate.len() == 0 || rate == "unlimited"@) ==> bwlimit_rate_spec(rate) == rate,
{
}

/// The rate handed to `core/bwlimit`: an empty rate or `unlimited` turns the
/// limit off; any other rate is passed on as it is.
pub open spec fn bwlimit_rate_spec(rate: Seq<char>) -> Seq<char> {
    if rate.len() == 0 || rate == "unlimited"@ {
        "off"@
    } else {
        rate
    }
}

pub fn bwlimit_rate(rate: &str) -> (res: String)
    ensures
        res@ == bwlimit_rate_spec(rate@),
{
    if rate.unicode_len() == 0 || str_eq(rate, "unlimited") {
        String::from_str("off")
    } else {
        rate.to_string()
    }
}

/// An ASCII letter or digit.
pub open spec fn is_ascii_alphanumeric(c: char) -> bool {
    ('0' <= c && c <= '9') || ('A' <= c && c <= 'Z') || ('a' <= c && c <= 'z')
}

/// One sample of `rand::distributions::Alphanumeric` from the thread-local
/// generator, as a `char`: one of `A-Z`, `a-z`, `0-9`. Which one is left to
/// chance.
#[verifier::external_body]
fn random_alphanumeric() -> (res: char)
    ensures
        is_ascii_alphanumeric(res),
{
    rand::thread_rng().sample(rand::distributions::Alphanumeric) as char
}

/// The password of the daemon's remote-control API: 24 random ASCII letters
/// and digits.
pub fn generate_rc_password() -> (res: String)
    ensures
        res@.len() == 24,
        forall|i: int| 0 <= i < 24 ==> is_ascii_alphanumeric(#[trigger] res@[i]),
{
    let mut res = String::new();
    let mut i: usize = 0;
    while i < 24
        invariant
            i <= 24,
            res@.len() == i,
            forall|k: int| 0 <= k < i ==> is_ascii_alphanumeric(#[trigger] res@[k]),
        decreases 24 - i,
    {
        let c = random_alphanumeric();
        push_char(&mut res, c);
        i = i + 1;
    }
    res
}

} // verus!
