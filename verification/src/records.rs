//! The rows that the gateway reads from and writes to its store.

use vstd::prelude::*;

verus! {

/// A copy of an optional text.
pub fn clone_text(value: &Option<String>) -> (out: Option<String>)
    ensures
        out == *value,
{
    match value {
        Some(text) => Some(text.clone()),
        None => None,
    }
}

/// An upstream account in the pool.
#[derive(Debug)]
pub struct Account {
    pub id: String,
    pub label: String,
    pub issuer: String,
    pub chatgpt_account_id: Option<String>,
    pub workspace_id: Option<String>,
    pub workspace_name: Option<String>,
    pub note: Option<String>,
    pub tags: Option<String>,
    pub group_name: Option<String>,
    pub sort: i64,
    pub status: String,
    pub created_at: i64,
    pub updated_at: i64,
}

impl Clone for Account {
    fn clone(&self) -> (out: Self)
        ensures
            out == *self,
    {
        Account {
            id: self.id.clone(),
            label: self.label.clone(),
            issuer: self.issuer.clone(),
            chatgpt_account_id: clone_text(&self.chatgpt_account_id),
            workspace_id: clone_text(&self.workspace_id),
            workspace_name: clone_text(&self.workspace_name),
            note: clone_text(&self.note),
            tags: clone_text(&self.tags),
            group_name: clone_text(&self.group_name),
            sort: self.sort,
            status: self.status.clone(),
            created_at: self.created_at,
            updated_at: self.updated_at,
        }
    }
}

/// The OAuth tokens of one account, with the bearer derived from them.
#[derive(Debug)]
pub struct Token {
    pub account_id: String,
    pub id_token: String,
    pub access_token: String,
    pub refresh_token: String,
    pub api_key_access_token: Option<String>,
    pub last_refresh: i64,
}

impl Clone for Token {
    fn clone(&self) -> (out: Self)
        ensures
            out == *self,
    {
        Token {
            account_id: self.account_id.clone(),
            id_token: self.id_token.clone(),
            access_token: self.access_token.clone(),
            refresh_token: self.refresh_token.clone(),
            api_key_access_token: clone_text(&self.api_key_access_token),
            last_refresh: self.last_refresh,
        }
    }
}

/// The state of one login attempt.
#[derive(Debug)]
pub struct LoginSession {
    pub login_id: String,
    pub code_verifier: String,
    pub state: String,
    pub status: String,
    pub error: Option<String>,
    pub note: Option<String>,
    pub tags: Option<String>,
    pub group_name: Option<String>,
    pub created_at: i64,
    pub updated_at: i64,
}

impl Clone for LoginSession {
    fn clone(&self) -> (out: Self)
        ensures
            out == *self,
    {
        LoginSession {
            login_id: self.login_id.clone(),
            code_verifier: self.code_verifier.clone(),
            state: self.state.clone(),
            status: self.status.clone(),
            error: clone_text(&self.error),
            note: clone_text(&self.note),
            tags: clone_text(&self.tags),
            group_name: clone_text(&self.group_name),
            created_at: self.created_at,
            updated_at: self.updated_at,
        }
    }
}

/// One captured usage reading of an account. Percentages are held in
/// thousandths of a percent, so that a full window is `100_000`.
#[derive(Debug)]
pub struct UsageSnapshotRecord {
    pub account_id: String,
    pub used_percent: Option<i64>,
    pub window_minutes: Option<i64>,
    pub resets_at: Option<i64>,
    pub secondary_used_percent: Option<i64>,
    pub secondary_window_minutes: Option<i64>,
    pub secondary_resets_at: Option<i64>,
    pub credits_json: Option<String>,
    pub captured_at: i64,
}

impl Clone for UsageSnapshotRecord {
    fn clone(&self) -> (out: Self)
        ensures
            out == *self,
    {
        UsageSnapshotRecord {
            account_id: self.account_id.clone(),
            used_percent: self.used_percent,
            window_minutes: self.window_minutes,
            resets_at: self.resets_at,
            secondary_used_percent: self.secondary_used_percent,
            secondary_window_minutes: self.secondary_window_minutes,
            secondary_resets_at: self.secondary_resets_at,
            credits_json: clone_text(&self.credits_json),
            captured_at: self.captured_at,
        }
    }
}

/// An entry of the audit trail.
#[derive(Debug)]
pub struct Event {
    pub account_id: Option<String>,
    pub event_type: String,
    pub message: String,
    pub created_at: i64,
}

impl Clone for Event {
    fn clone(&self) -> (out: Self)
        ensures
            out == *self,
    {
        Event {
            account_id: clone_text(&self.account_id),
            event_type: self.event_type.clone(),
            message: self.message.clone(),
            created_at: self.created_at,
        }
    }
}

/// A platform key issued to a local client, with its routing overrides.
#[derive(Debug)]
pub struct ApiKey {
    pub id: String,
    pub name: Option<String>,
    pub model_slug: Option<String>,
    pub reasoning_effort: Option<String>,
    pub client_type: String,
    pub protocol_type: String,
    pub auth_scheme: String,
    pub upstream_base_url: Option<String>,
    pub static_headers_json: Option<String>,
    pub key_hash: String,
    pub status: String,
    pub created_at: i64,
    pub last_used_at: Option<i64>,
}

impl Clone for ApiKey {
    fn clone(&self) -> (out: Self)
        ensures
            out == *self,
    {
        ApiKey {
            id: self.id.clone(),
            name: clone_text(&self.name),
            model_slug: clone_text(&self.model_slug),
            reasoning_effort: clone_text(&self.reasoning_effort),
            client_type: self.client_type.clone(),
            protocol_type: self.protocol_type.clone(),
            auth_scheme: self.auth_scheme.clone(),
            upstream_base_url: clone_text(&self.upstream_base_url),
            static_headers_json: clone_text(&self.static_headers_json),
            key_hash: self.key_hash.clone(),
            status: self.status.clone(),
            created_at: self.created_at,
            last_used_at: self.last_used_at,
        }
    }
}

/// The timestamp that a clock reading stands for: the whole seconds since
/// the epoch, wrapped into `i64`, or 0 where the clock stood before the epoch.
pub open spec fn timestamp_of(reading: Option<u64>) -> int {
    match reading {
        Some(seconds) => if seconds <= i64::MAX {
            seconds as int
        } else {
            seconds - 0x1_0000_0000_0000_0000
        },
        None => 0,
    }
}

/// Turns a clock reading into a timestamp.
pub fn timestamp_from_clock(reading: Option<u64>) -> (ts: i64)
    ensures
        ts == timestamp_of(reading),
{
    match reading {
        Some(seconds) => {
            if seconds <= 0x7fff_ffff_ffff_ffff {
                seconds as i64
            } else {
                let over: u64 = seconds - 0x8000_0000_0000_0000;
                (over as i64) + i64::MIN
            }
        },
        None => 0,
    }
}

#[verifier::external_type_specification]
#[verifier::external_body]
pub struct ExSystemTime(std::time::SystemTime);

/// `SystemTime::now`: the reading of the system clock. Nothing is claimed
/// of it.
#[verifier::external_body]
fn clock_now() -> std::time::SystemTime {
    std::time::SystemTime::now()
}

/// `SystemTime::duration_since` the Unix epoch: the time that has passed
/// since, or nothing where the reading lies before the epoch.
#[verifier::external_body]
fn since_epoch(reading: &std::time::SystemTime) -> Option<std::time::Duration> {
    reading.duration_since(std::time::UNIX_EPOCH).ok()
}

/// `Duration::as_secs`: the whole seconds of a span of time.
#[verifier::external_body]
fn whole_seconds(span: &std::time::Duration) -> u64 {
    span.as_secs()
}

/// The current time in seconds since the Unix epoch.
pub fn now_ts() -> i64 {
    let reading = clock_now();
    let seconds = match since_epoch(&reading) {
        Some(span) => Some(whole_seconds(&span)),
        None => None,
    };
    timestamp_from_clock(seconds)
}

} // verus!
