//! Application settings, OAuth credentials and their redacted forms.
use vstd::prelude::*;
use vstd::string::*;
use vstd::utf8::encode_utf8;
use crate::digest::{is_lower_hex, sha256_hex, sha256_hex_exec};
use crate::text::{
    concat, opt_view, seq_contains, seq_ends_with, str_contains, str_eq, str_ends_with, to_lowercase,
    trim, trim_str, unicode_lowercase, is_blank,
};

verus! {

broadcast use vstd::string::group_string_axioms;

/// Persistent application settings.
pub struct AppSettings {
    pub oauth_mode: String,
    pub connected_client_fingerprint: Option<String>,
    pub custom_client_id: Option<String>,
    pub custom_client_secret: Option<String>,
    pub webhook_url: String,
    pub notify_on_complete: bool,
}

/// The mathematical value of [`AppSettings`].
pub struct SettingsView {
    pub oauth_mode: Seq<char>,
    pub connected_client_fingerprint: Option<Seq<char>>,
    pub custom_client_id: Option<Seq<char>>,
    pub custom_client_secret: Option<Seq<char>>,
    pub webhook_url: Seq<char>,
    pub notify_on_complete: bool,
}

impl View for AppSettings {
    type V = SettingsView;

    open spec fn view(&self) -> SettingsView {
        SettingsView {
            oauth_mode: self.oauth_mode@,
            connected_client_fingerprint: opt_view(self.connected_client_fingerprint),
            custom_client_id: opt_view(self.custom_client_id),
            custom_client_secret: opt_view(self.custom_client_secret),
            webhook_url: self.webhook_url@,
            notify_on_complete: self.notify_on_complete,
        }
    }
}

/// The settings of a fresh installation.
pub open spec fn default_settings() -> SettingsView {
    SettingsView {
        oauth_mode: "managed"@,
        connected_client_fingerprint: None,
        custom_client_id: None,
        custom_client_secret: None,
        webhook_url: Seq::empty(),
        notify_on_complete: true,
    }
}

impl Default for AppSettings {
    fn default() -> (res: Self)
        ensures
            res@ == default_settings(),
    {
        AppSettings {
            oauth_mode: String::from_str("managed"),
            connected_client_fingerprint: None,
            custom_client_id: None,
            custom_client_secret: None,
            webhook_url: String::new(),
            notify_on_complete: true,
        }
    }
}

/// A copy of an optional string.
pub fn clone_opt(o: &Option<String>) -> (res: Option<String>)
    ensures
        opt_view(res) == opt_view(*o),
{
    match o {
        Some(s) => Some(s.clone()),
        None => None,
    }
}

impl AppSettings {
    /// A copy of these settings.
    pub fn duplicate(&self) -> (res: AppSettings)
        ensures
            res@ == self@,
    {
        AppSettings {
            oauth_mode: self.oauth_mode.clone(),
            connected_client_fingerprint: clone_opt(&self.connected_client_fingerprint),
            custom_client_id: clone_opt(&self.custom_client_id),
            custom_client_secret: clone_opt(&self.custom_client_secret),
            webhook_url: self.webhook_url.clone(),
            notify_on_complete: self.notify_on_complete,
        }
    }
}

/// The settings as the user interface sees them: no secret leaves.
pub struct PublicAppSettings {
    pub oauth_mode: String,
    pub is_managed: bool,
    pub connected_client_fingerprint: Option<String>,
    pub has_custom_client_id: bool,
    pub has_custom_client_secret: bool,
    pub has_webhook_url: bool,
    pub notify_on_complete: bool,
}

/// A value that holds text other than white space.
pub open spec fn present(o: Option<Seq<char>>) -> bool {
    match o {
        Some(s) => trim(s).len() != 0,
        None => false,
    }
}

/// The Google OAuth client in use: `custom` mode, or the managed one.
pub open spec fn is_custom_mode(s: SettingsView) -> bool {
    s.oauth_mode == "custom"@
}

/// What the user interface may see of the settings.
pub open spec fn public_settings_spec(s: SettingsView) -> PublicSettingsView {
    PublicSettingsView {
        oauth_mode: s.oauth_mode,
        is_managed: !is_custom_mode(s),
        connected_client_fingerprint: s.connected_client_fingerprint,
        has_custom_client_id: present(s.custom_client_id),
        has_custom_client_secret: present(s.custom_client_secret),
        has_webhook_url: trim(s.webhook_url).len() != 0,
        notify_on_complete: s.notify_on_complete,
    }
}

/// The mathematical value of [`PublicAppSettings`].
pub struct PublicSettingsView {
    pub oauth_mode: Seq<char>,
    pub is_managed: bool,
    pub connected_client_fingerprint: Option<Seq<char>>,
    pub has_custom_client_id: bool,
    pub has_custom_client_secret: bool,
    pub has_webhook_url: bool,
    pub notify_on_complete: bool,
}

impl View for PublicAppSettings {
    type V = PublicSettingsView;

    open spec fn view(&self) -> PublicSettingsView {
        PublicSettingsView {
            oauth_mode: self.oauth_mode@,
            is_managed: self.is_managed,
            connected_client_fingerprint: opt_view(self.connected_client_fingerprint),
            has_custom_client_id: self.has_custom_client_id,
            has_custom_client_secret: self.has_custom_client_secret,
            has_webhook_url: self.has_webhook_url,
            notify_on_complete: self.notify_on_complete,
        }
    }
}

fn present_exec(o: &Option<String>) -> (res: bool)
    ensures
        res == present(opt_view(*o)),
{
    match o {
        Some(s) => !is_blank(s.as_str()),
        None => false,
    }
}

/// The public view of the settings that `get_app_settings` hands to the user
/// interface.
pub fn public_settings(settings: &AppSettings) -> (res: PublicAppSettings)
    ensures
        res@ == public_settings_spec(settings@),
{
    let is_custom = str_eq(settings.oauth_mode.as_str(), "custom");
    PublicAppSettings {
        oauth_mode: settings.oauth_mode.clone(),
        is_managed: !is_custom,
        connected_client_fingerprint: clone_opt(&settings.connected_client_fingerprint),
        has_custom_client_id: present_exec(&settings.custom_client_id),
        has_custom_client_secret: present_exec(&settings.custom_client_secret),
        has_webhook_url: !is_blank(settings.webhook_url.as_str()),
        notify_on_complete: settings.notify_on_complete,
    }
}

// ---------------------------------------------------------------------------
// OAuth credentials
// ---------------------------------------------------------------------------

/// A Google OAuth client for rclone.
pub struct RcloneOAuthCredentials {
    pub client_id: String,
    pub client_secret: String,
}

/// The value of a credentials result: `(client_id, client_secret)` or the error text.
pub open spec fn creds_view(r: Result<RcloneOAuthCredentials, String>) -> Result<
    (Seq<char>, Seq<char>),
    Seq<char>,
> {
    match r {
        Ok(c) => Ok((c.client_id@, c.client_secret@)),
        Err(e) => Err(e@),
    }
}

pub open spec fn unwrap_or_empty(o: Option<Seq<char>>) -> Seq<char> {
    match o {
        Some(s) => s,
        None => Seq::empty(),
    }
}

/// The managed credentials that the build carries (both trimmed), or the error
/// when either is missing or blank.
pub open spec fn managed_credentials_spec(baked_id: Option<Seq<char>>, baked_secret: Option<Seq<char>>) -> Result<
    (Seq<char>, Seq<char>),
    Seq<char>,
> {
    let id = trim(unwrap_or_empty(baked_id));
    let secret = trim(unwrap_or_empty(baked_secret));
    if id.len() == 0 || secret.len() == 0 {
        Err("This Balladi Drive build is missing managed Google OAuth credentials."@)
    } else {
        Ok((id, secret))
    }
}

/// The credentials that the settings select: the custom client (both values
/// trimmed and required) in `custom` mode, the managed one otherwise.
pub open spec fn settings_credentials_spec(
    s: SettingsView,
    baked_id: Option<Seq<char>>,
    baked_secret: Option<Seq<char>>,
) -> Result<(Seq<char>, Seq<char>), Seq<char>> {
    if is_custom_mode(s) {
        let id = trim(unwrap_or_empty(s.custom_client_id));
        let secret = trim(unwrap_or_empty(s.custom_client_secret));
        if id.len() == 0 || secret.len() == 0 {
            Err("Custom OAuth mode is selected, but custom client ID or secret is missing."@)
        } else {
            Ok((id, secret))
        }
    } else {
        managed_credentials_spec(baked_id, baked_secret)
    }
}

fn trimmed_or_empty(o: &Option<String>) -> (res: String)
    ensures
        res@ == trim(unwrap_or_empty(opt_view(*o))),
{
    match o {
        Some(s) => trim_str(s.as_str()),
        None => {
            let e = String::new();
            assert(trim(Seq::<char>::empty()) =~= Seq::<char>::empty());
            e
        },
    }
}

/// The managed OAuth client that was baked into this build; `baked_client_id`
/// and `baked_client_secret` are the build's values, where it has them.
pub fn load_managed_oauth_credentials(
    baked_client_id: &Option<String>,
    baked_client_secret: &Option<String>,
) -> (res: Result<RcloneOAuthCredentials, String>)
    ensures
        creds_view(res) == managed_credentials_spec(
            opt_view(*baked_client_id),
            opt_view(*baked_client_secret),
        ),
{
    let client_id = trimmed_or_empty(baked_client_id);
    let client_secret = trimmed_or_empty(baked_client_secret);
    if client_id.as_str().is_empty() || client_secret.as_str().is_empty() {
        return Err(
            String::from_str("This Balladi Drive build is missing managed Google OAuth credentials."),
        );
    }
    Ok(RcloneOAuthCredentials { client_id, client_secret })
}

/// The OAuth client that the settings select.
pub fn load_rclone_oauth_credentials_from_settings(
    settings: &AppSettings,
    baked_client_id: &Option<String>,
    baked_client_secret: &Option<String>,
) -> (res: Result<RcloneOAuthCredentials, String>)
    ensures
        creds_view(res) == settings_credentials_spec(
            settings@,
            opt_view(*baked_client_id),
            opt_view(*baked_client_secret),
        ),
{
    if str_eq(settings.oauth_mode.as_str(), "custom") {
        let client_id = trimmed_or_empty(&settings.custom_client_id);
        let client_secret = trimmed_or_empty(&settings.custom_client_secret);
        if client_id.as_str().is_empty() || client_secret.as_str().is_empty() {
            return Err(
                String::from_str(
                    "Custom OAuth mode is selected, but custom client ID or secret is missing.",
                ),
            );
        }
        Ok(RcloneOAuthCredentials { client_id, client_secret })
    } else {
        load_managed_oauth_credentials(baked_client_id, baked_client_secret)
    }
}

/// The settings in force: those stored, or the defaults when none could be read.
pub open spec fn settings_in_force(stored: Option<SettingsView>) -> SettingsView {
    match stored {
        Some(s) => s,
        None => default_settings(),
    }
}

/// The OAuth client of the stored settings (`stored` is what the settings
/// file held, if it could be read and parsed), falling back to the defaults,
/// which select the managed client.
pub fn load_rclone_oauth_credentials(
    stored: Option<AppSettings>,
    baked_client_id: &Option<String>,
    baked_client_secret: &Option<String>,
) -> (res: Result<RcloneOAuthCredentials, String>)
    ensures
        creds_view(res) == settings_credentials_spec(
            settings_in_force(
                match stored {
                    Some(s) => Some(s@),
                    None => None,
                },
            ),
            opt_view(*baked_client_id),
            opt_view(*baked_client_secret),
        ),
{
    let s = match stored {
        Some(s) => s,
        None => AppSettings::default(),
    };
    load_rclone_oauth_credentials_from_settings(&s, baked_client_id, baked_client_secret)
}

/// The fingerprint of an OAuth client ID: `sha256:v1:` and the SHA-256 of the
/// trimmed ID's UTF-8 bytes in hex.
pub open spec fn client_fingerprint_spec(client_id: Seq<char>) -> Seq<char> {
    "sha256:v1:"@ + sha256_hex(encode_utf8(trim(client_id)))
}

/// The fingerprint stored when a Google account is connected with a client.
pub fn compute_client_fingerprint(client_id: &str) -> (res: String)
    ensures
        res@ == client_fingerprint_spec(client_id@),
        res@.len() == 74,
        res@.take(10) == "sha256:v1:"@,
        is_lower_hex(res@.skip(10)),
{
    let t = trim_str(client_id);
    let hex = sha256_hex_exec(t.as_str().as_bytes());
    let res = concat("sha256:v1:", hex.as_str());
    proof {
        reveal_strlit("sha256:v1:");
        assert(res@.take(10) =~= "sha256:v1:"@);
        assert(res@.skip(10) =~= hex@);
    }
    res
}

// ---------------------------------------------------------------------------
// Redacted debug text
// ---------------------------------------------------------------------------

/// The `Debug` text of a string: quoted, with special characters escaped.
pub uninterp spec fn debug_str(s: Seq<char>) -> Seq<char>;

/// Formats a string slice with `{:?}` (`<str as Debug>::fmt`).  Claimed: the
/// text is `debug_str(s)`, a function of `s` alone.
#[verifier::external_body]
pub(crate) fn debug_str_exec(s: &str) -> (res: String)
    ensures
        res@ == debug_str(s@),
{
    format!("{:?}", s)
}

pub open spec fn debug_opt(o: Option<Seq<char>>) -> Seq<char> {
    match o {
        Some(s) => "Some("@ + debug_str(s) + ")"@,
        None => "None"@,
    }
}

pub open spec fn debug_bool(b: bool) -> Seq<char> {
    if b {
        "true"@
    } else {
        "false"@
    }
}

/// The `Debug` text of the settings: the client secret and the webhook URL are
/// replaced by placeholders.
pub open spec fn settings_debug_spec(s: SettingsView) -> Seq<char> {
    "AppSettings { oauth_mode: "@ + debug_str(s.oauth_mode) + ", connected_client_fingerprint: "@
        + debug_opt(s.connected_client_fingerprint) + ", custom_client_id: "@ + debug_opt(
        s.custom_client_id,
    ) + ", custom_client_secret: "@ + (if s.custom_client_secret is Some {
        "Some(\"[REDACTED]\")"@
    } else {
        "None"@
    }) + ", webhook_url: "@ + (if s.webhook_url.len() == 0 {
        "\"\""@
    } else {
        "\"[REDACTED_WEBHOOK_URL]\""@
    }) + ", notify_on_complete: "@ + debug_bool(s.notify_on_complete) + " }"@
}

/// The `Debug` text of credentials: the secret is replaced by a placeholder.
pub open spec fn credentials_debug_spec(client_id: Seq<char>) -> Seq<char> {
    "RcloneOAuthCredentials { client_id: "@ + debug_str(client_id)
        + ", client_secret: \"[REDACTED]\" }"@
}

fn debug_opt_exec(o: &Option<String>) -> (res: String)
    ensures
        res@ == debug_opt(opt_view(*o)),
{
    match o {
        Some(s) => {
            let mut r = String::from_str("Some(");
            let d = debug_str_exec(s.as_str());
            r.append(d.as_str());
            r.append(")");
            r
        },
        None => String::from_str("None"),
    }
}

impl AppSettings {
    /// The text that `{:?}` shows for these settings, secrets redacted.
    pub fn redacted_debug(&self) -> (res: String)
        ensures
            res@ == settings_debug_spec(self@),
    {
        let mut r = String::from_str("AppSettings { oauth_mode: ");
        let d = debug_str_exec(self.oauth_mode.as_str());
        r.append(d.as_str());
        r.append(", connected_client_fingerprint: ");
        let d = debug_opt_exec(&self.connected_client_fingerprint);
        r.append(d.as_str());
        r.append(", custom_client_id: ");
        let d = debug_opt_exec(&self.custom_client_id);
        r.append(d.as_str());
        r.append(", custom_client_secret: ");
        if self.custom_client_secret.is_some() {
            r.append("Some(\"[REDACTED]\")");
        } else {
            r.append("None");
        }
        r.append(", webhook_url: ");
        if self.webhook_url.as_str().is_empty() {
            r.append("\"\"");
        } else {
            r.append("\"[REDACTED_WEBHOOK_URL]\"");
        }
        r.append(", notify_on_complete: ");
        if self.notify_on_complete {
            r.append("true");
        } else {
            r.append("false");
        }
        r.append(" }");
        r
    }
}

impl RcloneOAuthCredentials {
    /// The text that `{:?}` shows for these credentials, secret redacted.
    pub fn redacted_debug(&self) -> (res: String)
        ensures
            res@ == credentials_debug_spec(self.client_id@),
    {
        let mut r = String::from_str("RcloneOAuthCredentials { client_id: ");
        let d = debug_str_exec(self.client_id.as_str());
        r.append(d.as_str());
        r.append(", client_secret: \"[REDACTED]\" }");
        r
    }

    /// A copy of these credentials.
    pub fn duplicate(&self) -> (res: RcloneOAuthCredentials)
        ensures
            res.client_id@ == self.client_id@,
            res.client_secret@ == self.client_secret@,
    {
        RcloneOAuthCredentials {
            client_id: self.client_id.clone(),
            client_secret: self.client_secret.clone(),
        }
    }
}

/// Redaction: the debug text of the settings does not depend on the client
/// secret (beyond whether there is one) nor on the webhook URL (beyond whether
/// it is empty).
pub proof fn law_settings_debug_hides_secrets(a: SettingsView, b: SettingsView)
    requires
        a.oauth_mode == b.oauth_mode,
        a.connected_client_fingerprint == b.connected_client_fingerprint,
        a.custom_client_id == b.custom_client_id,
        a.custom_client_secret is Some <==> b.custom_client_secret is Some,
        (a.webhook_url.len() == 0) <==> (b.webhook_url.len() == 0),
        a.notify_on_complete == b.notify_on_complete,
    ensures
        settings_debug_spec(a) == settings_debug_spec(b),
{
}

/// Redaction: the debug text of credentials does not depend on the secret.
pub proof fn law_credentials_debug_hides_secret(a: RcloneOAuthCredentials, b: RcloneOAuthCredentials)
    requires
        a.client_id@ == b.client_id@,
    ensures
        credentials_debug_spec(a.client_id@) == credentials_debug_spec(b.client_id@),
{
}

/// The public settings reveal neither the client secret nor the webhook URL:
/// two settings that differ only in those values (not in whether they are
/// blank) look the same.
pub proof fn law_public_settings_hide_secrets(a: SettingsView, b: SettingsView)
    requires
        a.oauth_mode == b.oauth_mode,
        a.connected_client_fingerprint == b.connected_client_fingerprint,
        present(a.custom_client_id) == present(b.custom_client_id),
        present(a.custom_client_secret) == present(b.custom_client_secret),
        (trim(a.webhook_url).len() == 0) == (trim(b.webhook_url).len() == 0),
        a.notify_on_complete == b.notify_on_complete,
    ensures
        public_settings_spec(a) == public_settings_spec(b),
{
}

/// Fail closed: in custom mode a blank client ID or secret never yields
/// credentials, whatever the build carries.
pub proof fn law_custom_mode_fails_closed(
    s: SettingsView,
    baked_id: Option<Seq<char>>,
    baked_secret: Option<Seq<char>>,
)
    requires
        is_custom_mode(s),
        !present(s.custom_client_id) || !present(s.custom_client_secret),
    ensures
        settings_credentials_spec(s, baked_id, baked_secret) is Err,
{
}

/// Fingerprints depend on the trimmed client ID alone.
pub proof fn law_fingerprint_ignores_surrounding_space(a: Seq<char>, b: Seq<char>)
    requires
        trim(a) == trim(b),
    ensures
        client_fingerprint_spec(a) == client_fingerprint_spec(b),
{
}


// ---------------------------------------------------------------------------
// Webhook URLs
// ---------------------------------------------------------------------------

/// The parts of a parsed URL that the webhook rules read.
pub struct ParsedUrl {
    pub scheme: String,
    pub host: Option<String>,
    pub href: String,
}

/// What `reqwest::Url::parse` makes of a text: `(scheme, host, serialization)`,
/// or the text of the parse error.
pub uninterp spec fn url_parse(text: Seq<char>) -> Result<(Seq<char>, Option<Seq<char>>, Seq<char>), Seq<char>>;

pub open spec fn url_view(r: Result<ParsedUrl, String>) -> Result<(Seq<char>, Option<Seq<char>>, Seq<char>), Seq<char>> {
    match r {
        Ok(u) => Ok((u.scheme@, opt_view(u.host), u.href@)),
        Err(e) => Err(e@),
    }
}

/// Calls `reqwest::Url::parse` and reads `scheme()`, `host_str()` and
/// `as_str()` of the result, or the `Display` text of the error.  Claimed:
/// the outcome is `url_parse(text)`, a function of the text alone.
#[verifier::external_body]
pub(crate) fn parse_url(text: &str) -> (res: Result<ParsedUrl, String>)
    ensures
        url_view(res) == url_parse(text@),
{
    match reqwest::Url::parse(text) {
        Ok(u) => Ok(ParsedUrl {
            scheme: u.scheme().to_string(),
            host: match u.host_str() {
                Some(h) => Some(h.to_string()),
                None => None,
            },
            href: u.as_str().to_string(),
        }),
        Err(e) => Err(e.to_string()),
    }
}

/// The webhook providers: Slack, Discord and Microsoft Teams.
pub open spec fn allowed_host_suffix(h: Seq<char>, suffix: Seq<char>) -> bool {
    h == suffix || seq_ends_with(h, "."@ + suffix)
}

pub open spec fn is_allowed_host(h: Seq<char>) -> bool {
    ||| allowed_host_suffix(h, "hooks.slack.com"@)
    ||| allowed_host_suffix(h, "discord.com"@)
    ||| allowed_host_suffix(h, "discordapp.com"@)
    ||| allowed_host_suffix(h, "webhook.office.com"@)
}

/// The verdict on a webhook URL: it must parse, use `https`, have a host, and
/// the host (lower-cased) must be a provider's domain or a subdomain of one.
pub open spec fn webhook_check_spec(url: Seq<char>) -> Result<(Seq<char>, Option<Seq<char>>, Seq<char>), Seq<char>> {
    match url_parse(url) {
        Err(e) => Err("Invalid URL: "@ + e),
        Ok((scheme, host, href)) => if scheme != "https"@ {
            Err("Webhook URL must use secure HTTPS"@)
        } else {
            match host {
                None => Err("Missing host"@),
                Some(h) => {
                    let hl = unicode_lowercase(h);
                    if is_allowed_host(hl) {
                        Ok((scheme, host, href))
                    } else {
                        Err("Host '"@ + hl
                            + "' is not an approved webhook provider (Slack, Discord, Microsoft Teams)"@)
                    }
                },
            }
        },
    }
}

fn allowed_host_suffix_exec(h: &str, suffix: &str) -> (res: bool)
    ensures
        res == allowed_host_suffix(h@, suffix@),
{
    if str_eq(h, suffix) {
        return true;
    }
    let dotted = concat(".", suffix);
    str_ends_with(h, dotted.as_str())
}

/// Checks that a webhook URL is an HTTPS URL of an approved provider.
pub fn is_allowed_webhook_url(url_str: &str) -> (res: Result<ParsedUrl, String>)
    ensures
        url_view(res) == webhook_check_spec(url_str@),
{
    let parsed = match parse_url(url_str) {
        Ok(p) => p,
        Err(e) => {
            return Err(concat("Invalid URL: ", e.as_str()));
        },
    };
    if !str_eq(parsed.scheme.as_str(), "https") {
        return Err(String::from_str("Webhook URL must use secure HTTPS"));
    }
    let host = match &parsed.host {
        Some(h) => to_lowercase(h.as_str()),
        None => {
            return Err(String::from_str("Missing host"));
        },
    };
    let h = host.as_str();
    let allowed = allowed_host_suffix_exec(h, "hooks.slack.com") || allowed_host_suffix_exec(
        h,
        "discord.com",
    ) || allowed_host_suffix_exec(h, "discordapp.com") || allowed_host_suffix_exec(
        h,
        "webhook.office.com",
    );
    if !allowed {
        let mut msg = concat("Host '", h);
        msg.append("' is not an approved webhook provider (Slack, Discord, Microsoft Teams)");
        return Err(msg);
    }
    Ok(parsed)
}

/// Where a completion notice goes: nowhere when notices are off or no webhook
/// is set; otherwise the webhook, which must pass [`is_allowed_webhook_url`].
pub open spec fn webhook_target_spec(s: SettingsView) -> Result<
    Option<(Seq<char>, Option<Seq<char>>, Seq<char>)>,
    Seq<char>,
> {
    if !s.notify_on_complete || trim(s.webhook_url).len() == 0 {
        Ok(None)
    } else {
        match webhook_check_spec(s.webhook_url) {
            Ok(u) => Ok(Some(u)),
            Err(e) => Err(e),
        }
    }
}

pub open spec fn target_view(r: Result<Option<ParsedUrl>, String>) -> Result<
    Option<(Seq<char>, Option<Seq<char>>, Seq<char>)>,
    Seq<char>,
> {
    match r {
        Ok(Some(u)) => Ok(Some((u.scheme@, opt_view(u.host), u.href@))),
        Ok(None) => Ok(None),
        Err(e) => Err(e@),
    }
}

/// Chooses the webhook that `send_completion_webhook` posts to.
pub fn webhook_target(settings: &AppSettings) -> (res: Result<Option<ParsedUrl>, String>)
    ensures
        target_view(res) == webhook_target_spec(settings@),
{
    if !settings.notify_on_complete || is_blank(settings.webhook_url.as_str()) {
        return Ok(None);
    }
    match is_allowed_webhook_url(settings.webhook_url.as_str()) {
        Ok(u) => Ok(Some(u)),
        Err(e) => Err(e),
    }
}

/// Only `https` URLs of the approved providers are ever accepted.
pub proof fn law_webhook_requires_https_and_allowed_host(url: Seq<char>)
    ensures
        webhook_check_spec(url) matches Ok((scheme, host, href)) ==> scheme == "https"@ && host
            is Some && is_allowed_host(unicode_lowercase(host->0)),
{
}

// ---------------------------------------------------------------------------
// Saving settings
// ---------------------------------------------------------------------------

/// A value that the user interface sends back masked, or as the explicit
/// "keep what is stored" marker.
pub open spec fn is_masked(s: Seq<char>) -> bool {
    seq_contains(s, "••"@) || s == "__PRESERVE__"@
}

pub open spec fn keep_masked(incoming: Option<Seq<char>>, stored: Option<Seq<char>>) -> Option<Seq<char>> {
    match incoming {
        Some(s) => if is_masked(s) {
            stored
        } else {
            incoming
        },
        None => None,
    }
}

/// The settings to store: masked secrets and the webhook URL, and a missing
/// fingerprint, are taken from the stored settings when there are any.
pub open spec fn merge_for_save(incoming: SettingsView, stored: Option<SettingsView>) -> SettingsView {
    match stored {
        None => incoming,
        Some(st) => SettingsView {
            oauth_mode: incoming.oauth_mode,
            connected_client_fingerprint: if incoming.connected_client_fingerprint is None {
                st.connected_client_fingerprint
            } else {
                incoming.connected_client_fingerprint
            },
            custom_client_id: keep_masked(incoming.custom_client_id, st.custom_client_id),
            custom_client_secret: keep_masked(incoming.custom_client_secret, st.custom_client_secret),
            webhook_url: if is_masked(incoming.webhook_url) {
                st.webhook_url
            } else {
                incoming.webhook_url
            },
            notify_on_complete: incoming.notify_on_complete,
        },
    }
}

/// The outcome of saving: the merged settings, or the webhook URL's rejection.
pub open spec fn save_settings_spec(incoming: SettingsView, stored: Option<SettingsView>) -> Result<SettingsView, Seq<char>> {
    let m = merge_for_save(incoming, stored);
    if trim(m.webhook_url).len() != 0 {
        match webhook_check_spec(m.webhook_url) {
            Err(e) => Err(e),
            Ok(_) => Ok(m),
        }
    } else {
        Ok(m)
    }
}

pub open spec fn settings_result_view(r: Result<AppSettings, String>) -> Result<SettingsView, Seq<char>> {
    match r {
        Ok(s) => Ok(s@),
        Err(e) => Err(e@),
    }
}

fn is_masked_exec(s: &str) -> (res: bool)
    ensures
        res == is_masked(s@),
{
    str_contains(s, "••") || str_eq(s, "__PRESERVE__")
}

fn keep_masked_exec(incoming: Option<String>, stored: &Option<String>) -> (res: Option<String>)
    ensures
        opt_view(res) == keep_masked(opt_view(incoming), opt_view(*stored)),
{
    match incoming {
        Some(s) => if is_masked_exec(s.as_str()) {
            clone_opt(stored)
        } else {
            Some(s)
        },
        None => None,
    }
}

/// Prepares settings from the user interface for storage (`save_app_settings`):
/// masked values are restored from `stored`, the settings read from disk, and
/// a non-blank webhook URL must pass the allowlist.
pub fn prepare_settings_for_save(incoming: AppSettings, stored: Option<AppSettings>) -> (res: Result<AppSettings, String>)
    ensures
        settings_result_view(res) == save_settings_spec(
            incoming@,
            match stored {
                Some(s) => Some(s@),
                None => None,
            },
        ),
{
    let merged = match &stored {
        None => incoming,
        Some(st) => {
            let webhook_url = if is_masked_exec(incoming.webhook_url.as_str()) {
                st.webhook_url.clone()
            } else {
                incoming.webhook_url
            };
            let fingerprint = if incoming.connected_client_fingerprint.is_none() {
                clone_opt(&st.connected_client_fingerprint)
            } else {
                incoming.connected_client_fingerprint
            };
            AppSettings {
                oauth_mode: incoming.oauth_mode,
                connected_client_fingerprint: fingerprint,
                custom_client_id: keep_masked_exec(incoming.custom_client_id, &st.custom_client_id),
                custom_client_secret: keep_masked_exec(
                    incoming.custom_client_secret,
                    &st.custom_client_secret,
                ),
                webhook_url: webhook_url,
                notify_on_complete: incoming.notify_on_complete,
            }
        },
    };
    if !is_blank(merged.webhook_url.as_str()) {
        match is_allowed_webhook_url(merged.webhook_url.as_str()) {
            Err(e) => {
                return Err(e);
            },
            Ok(_) => {},
        }
    }
    Ok(merged)
}

/// A masked or preserved secret never overwrites the stored one.
pub proof fn law_save_keeps_stored_secret(incoming: SettingsView, stored: SettingsView)
    requires
        incoming.custom_client_secret matches Some(s) && is_masked(s),
    ensures
        merge_for_save(incoming, Some(stored)).custom_client_secret == stored.custom_client_secret,
{
}

/// Saving stores no webhook URL that the allowlist rejects.
pub proof fn law_saved_webhook_is_allowed(incoming: SettingsView, stored: Option<SettingsView>)
    ensures
        save_settings_spec(incoming, stored) matches Ok(m) ==> trim(m.webhook_url).len() == 0
            || webhook_check_spec(m.webhook_url) is Ok,
{
}

/// What the user interface sees of the settings, field by field: the mode
/// and fingerprint as stored, managed unless the mode is `custom`, and for
/// the client ID, the secret and the webhook only whether a non-blank value
/// is stored; the notification switch as stored.
pub proof fn law_public_settings_fields(s: SettingsView)
    ensures
        ({
            let p = public_settings_spec(s);
            &&& p.oauth_mode == s.oauth_mode
            &&& p.connected_client_fingerprint == s.connected_client_fingerprint
            &&& p.is_managed <==> s.oauth_mode != "custom"@
            &&& p.has_custom_client_id <==> (s.custom_client_id matches Some(v) && trim(v).len() > 0)
            &&& p.has_custom_client_secret <==> (s.custom_client_secret matches Some(v) && trim(v).len() > 0)
            &&& p.has_webhook_url <==> trim(s.webhook_url).len() > 0
            &&& p.notify_on_complete == s.notify_on_complete
        }),
{
}

/// The client of a `custom` setting is its stored ID and secret, trimmed,
/// when both are non-blank; any other mode gets the build's managed client,
/// trimmed, when it has both values; an error otherwise.
pub proof fn law_credentials_of_settings(s: SettingsView, baked_id: Option<Seq<char>>, baked_secret: Option<Seq<char>>)
    ensures
        s.oauth_mode == "custom"@ ==> match (s.custom_client_id, s.custom_client_secret) {
            (Some(id), Some(sec)) => if trim(id).len() > 0 && trim(sec).len() > 0 {
                settings_credentials_spec(s, baked_id, baked_secret) == Ok::<(Seq<char>, Seq<char>), Seq<char>>(
                    (trim(id), trim(sec)),
                )
            } else {
                settings_credentials_spec(s, baked_id, baked_secret) is Err
            },
            _ => settings_credentials_spec(s, baked_id, baked_secret) is Err,
        },
        s.oauth_mode != "custom"@ ==> match (baked_id, baked_secret) {
            (Some(id), Some(sec)) => if trim(id).len() > 0 && trim(sec).len() > 0 {
                settings_credentials_spec(s, baked_id, baked_secret) == Ok::<(Seq<char>, Seq<char>), Seq<char>>(
                    (trim(id), trim(sec)),
                )
            } else {
                settings_credentials_spec(s, baked_id, baked_secret) is Err
            },
            _ => settings_credentials_spec(s, baked_id, baked_secret) is Err,
        },
{
    assert(trim(Seq::<char>::empty()) =~= Seq::<char>::empty());
}

/// An accepted webhook is an `https` URL whose lower-cased host is one of
/// `hooks.slack.com`, `discord.com`, `discordapp.com` and
/// `webhook.office.com`, or a subdomain of one (it ends with `.` and that
/// name); its URL is the one the parse gave.
pub proof fn law_webhook_hosts(url: Seq<char>)
    ensures
        webhook_check_spec(url) matches Ok((scheme, host, href)) ==> {
            &&& scheme == "https"@
            &&& url_parse(url) == Ok::<(Seq<char>, Option<Seq<char>>, Seq<char>), Seq<char>>((scheme, host, href))
            &&& host matches Some(h) && {
                let hl = unicode_lowercase(h);
                ||| hl == "hooks.slack.com"@ || seq_ends_with(hl, ".hooks.slack.com"@)
                ||| hl == "discord.com"@ || seq_ends_with(hl, ".discord.com"@)
                ||| hl == "discordapp.com"@ || seq_ends_with(hl, ".discordapp.com"@)
                ||| hl == "webhook.office.com"@ || seq_ends_with(hl, ".webhook.office.com"@)
            }
        },
{
    reveal_strlit(".");
    reveal_strlit("hooks.slack.com");
    reveal_strlit(".hooks.slack.com");
    reveal_strlit("discord.com");
    reveal_strlit(".discord.com");
    reveal_strlit("discordapp.com");
    reveal_strlit(".discordapp.com");
    reveal_strlit("webhook.office.com");
    reveal_strlit(".webhook.office.com");
    assert("."@ + "hooks.slack.com"@ =~= ".hooks.slack.com"@);
    assert("."@ + "discord.com"@ =~= ".discord.com"@);
    assert("."@ + "discordapp.com"@ =~= ".discordapp.com"@);
    assert("."@ + "webhook.office.com"@ =~= ".webhook.office.com"@);
}

/// Saving with stored settings: an incoming client ID, secret or webhook
/// that is masked (holds `••`) or `__PRESERVE__` is replaced by the stored
/// one, any other incoming value is saved as it is; a missing fingerprint is
/// taken from the stored settings; mode and notification switch come from
/// the incoming settings. Without stored settings the incoming ones are
/// saved as they are.
pub proof fn law_save_merges_masked_values(incoming: SettingsView, stored: SettingsView)
    ensures
        ({
            let m = merge_for_save(incoming, Some(stored));
            let masked = |v: Seq<char>| seq_contains(v, "••"@) || v == "__PRESERVE__"@;
            &&& m.oauth_mode == incoming.oauth_mode
            &&& m.notify_on_complete == incoming.notify_on_complete
            &&& m.connected_client_fingerprint == if incoming.connected_client_fingerprint is Some {
                incoming.connected_client_fingerprint
            } else {
                stored.connected_client_fingerprint
            }
            &&& m.custom_client_id == match incoming.custom_client_id {
                Some(v) => if masked(v) { stored.custom_client_id } else { Some(v) },
                None => None,
            }
            &&& m.custom_client_secret == match incoming.custom_client_secret {
                Some(v) => if masked(v) { stored.custom_client_secret } else { Some(v) },
                None => None,
            }
            &&& m.webhook_url == if masked(incoming.webhook_url) { stored.webhook_url } else { incoming.webhook_url }
        }),
        merge_for_save(incoming, None) == incoming,
{
}

} // verus!
