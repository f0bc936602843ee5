//! The values that the control plane exchanges with its callers.

use vstd::prelude::*;
use crate::json::JsonDoc;
use crate::records::{clone_text, ApiKey};

verus! {

/// A call of the control plane.
#[derive(Debug)]
pub struct JsonRpcRequest {
    pub id: u64,
    pub method: String,
    pub params: Option<JsonDoc>,
}

/// The answer to a call of the control plane.
#[derive(Debug)]
pub struct JsonRpcResponse {
    pub id: u64,
    pub result: JsonDoc,
}

#[derive(Debug)]
pub struct InitializeResult {
    pub server_name: String,
    pub version: String,
}

#[derive(Debug)]
pub struct AccountSummary {
    pub id: String,
    pub label: String,
    pub status: String,
    pub workspace_id: Option<String>,
    pub workspace_name: Option<String>,
    pub note: Option<String>,
    pub tags: Option<String>,
    pub group_name: Option<String>,
    pub sort: i64,
    pub updated_at: i64,
}

#[derive(Debug)]
pub struct AccountListResult {
    pub items: Vec<AccountSummary>,
}

#[derive(Debug)]
pub struct DeviceAuthInfo {
    pub user_code_url: String,
    pub token_url: String,
    pub verification_url: String,
    pub redirect_uri: String,
}

#[derive(Debug)]
pub struct LoginStartResult {
    pub auth_url: String,
    pub login_id: String,
    pub login_type: String,
    pub issuer: String,
    pub client_id: String,
    pub redirect_uri: String,
    pub warning: Option<String>,
    pub device: Option<DeviceAuthInfo>,
}

/// A usage snapshot as the control plane reports it. Percentages are held
/// in thousandths of a percent.
#[derive(Debug)]
pub struct UsageSnapshotResult {
    pub account_id: Option<String>,
    pub used_percent: Option<i64>,
    pub window_minutes: Option<i64>,
    pub resets_at: Option<i64>,
    pub secondary_used_percent: Option<i64>,
    pub secondary_window_minutes: Option<i64>,
    pub secondary_resets_at: Option<i64>,
    pub credits_json: Option<String>,
    pub captured_at: Option<i64>,
}

#[derive(Debug)]
pub struct UsageReadResult {
    pub snapshot: Option<UsageSnapshotResult>,
}

#[derive(Debug)]
pub struct UsageListResult {
    pub items: Vec<UsageSnapshotResult>,
}

/// A platform key as the control plane lists it: the stored key without
/// its hash.
#[derive(Debug)]
pub struct ApiKeySummary {
    pub id: String,
    pub name: Option<String>,
    pub model_slug: Option<String>,
    pub reasoning_effort: Option<String>,
    pub client_type: String,
    pub protocol_type: String,
    pub auth_scheme: String,
    pub upstream_base_url: Option<String>,
    pub static_headers_json: Option<String>,
    pub status: String,
    pub created_at: i64,
    pub last_used_at: Option<i64>,
}

#[derive(Debug)]
pub struct ApiKeyListResult {
    pub items: Vec<ApiKeySummary>,
}

/// A new platform key: its id and, this once, its clear text.
#[derive(Debug)]
pub struct ApiKeyCreateResult {
    pub id: String,
    pub key: String,
}

/// The listing of a stored key.
pub open spec fn summary_of(key: ApiKey) -> ApiKeySummary {
    ApiKeySummary {
        id: key.id,
        name: key.name,
        model_slug: key.model_slug,
        reasoning_effort: key.reasoning_effort,
        client_type: key.client_type,
        protocol_type: key.protocol_type,
        auth_scheme: key.auth_scheme,
        upstream_base_url: key.upstream_base_url,
        static_headers_json: key.static_headers_json,
        status: key.status,
        created_at: key.created_at,
        last_used_at: key.last_used_at,
    }
}

/// Lists the stored platform keys, in their stored order. A store that
/// could not be read gives an empty list.
pub fn read_api_keys(stored: Option<Vec<ApiKey>>) -> (out: Vec<ApiKeySummary>)
    ensures
        match stored {
            Some(keys) => out@ == keys@.map_values(|key: ApiKey| summary_of(key)),
            None => out@.len() == 0,
        },
{
    let keys = match stored {
        Some(keys) => keys,
        None => return Vec::new(),
    };
    let mut out: Vec<ApiKeySummary> = Vec::new();
    let mut i: usize = 0;
    while i < keys.len()
        invariant
            i <= keys.len(),
            out@ == keys@.subrange(0, i as int).map_values(|key: ApiKey| summary_of(key)),
        decreases keys.len() - i,
    {
        let key = &keys[i];
        out.push(
            ApiKeySummary {
                id: key.id.clone(),
                name: clone_text(&key.name),
                model_slug: clone_text(&key.model_slug),
                reasoning_effort: clone_text(&key.reasoning_effort),
                client_type: key.client_type.clone(),
                protocol_type: key.protocol_type.clone(),
                auth_scheme: key.auth_scheme.clone(),
                upstream_base_url: clone_text(&key.upstream_base_url),
                static_headers_json: clone_text(&key.static_headers_json),
                status: key.status.clone(),
                created_at: key.created_at,
                last_used_at: key.last_used_at,
            },
        );
        assert(out@ =~= keys@.subrange(0, i + 1).map_values(|key: ApiKey| summary_of(key)));
        i += 1;
    }
    assert(keys@.subrange(0, keys.len() as int) == keys@);
    out
}

/// Makes the record of a new platform key and the answer to its creator.
/// The key is active, of the native client and protocol, and not yet used.
pub fn create_api_key(
    name: Option<String>,
    model_slug: Option<String>,
    reasoning_effort: Option<String>,
    key: String,
    key_hash: String,
    key_id: String,
    created_at: i64,
) -> (out: (ApiKey, ApiKeyCreateResult))
    ensures
        out.0.id == key_id,
        out.0.name == name,
        out.0.model_slug == model_slug,
        out.0.reasoning_effort == reasoning_effort,
        out.0.client_type@ == "codex"@,
        out.0.protocol_type@ == "openai_compat"@,
        out.0.auth_scheme@ == "authorization_bearer"@,
        out.0.upstream_base_url is None,
        out.0.static_headers_json is None,
        out.0.key_hash == key_hash,
        out.0.status@ == "active"@,
        out.0.created_at == created_at,
        out.0.last_used_at is None,
        out.1.id == key_id,
        out.1.key == key,
{
    let record = ApiKey {
        id: key_id.clone(),
        name,
        model_slug,
        reasoning_effort,
        client_type: "codex".to_string(),
        protocol_type: "openai_compat".to_string(),
        auth_scheme: "authorization_bearer".to_string(),
        upstream_base_url: None,
        static_headers_json: None,
        key_hash,
        status: "active".to_string(),
        created_at,
        last_used_at: None,
    };
    (record, ApiKeyCreateResult { id: key_id, key })
}

} // verus!
