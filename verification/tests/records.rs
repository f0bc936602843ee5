use gpttools::config::{account_max_inflight_limit, upstream_connect_timeout};
use gpttools::locks::TokenExchangeLocks;
use gpttools::records::{clone_text, now_ts, timestamp_from_clock, Account, ApiKey};
use gpttools::rpc_types::{create_api_key, read_api_keys};
use gpttools::schema::{ensure_column, has_column, required_columns};

#[test]
fn timestamps_wrap_like_a_cast() {
    assert_eq!(timestamp_from_clock(None), 0);
    assert_eq!(timestamp_from_clock(Some(0)), 0);
    assert_eq!(timestamp_from_clock(Some(1_700_000_000)), 1_700_000_000);
    assert_eq!(timestamp_from_clock(Some(i64::MAX as u64)), i64::MAX);
    assert_eq!(timestamp_from_clock(Some(i64::MAX as u64 + 1)), i64::MIN);
    assert_eq!(timestamp_from_clock(Some(u64::MAX)), -1);
}

#[test]
fn the_clock_is_read() {
    let first = now_ts();
    let second = now_ts();
    assert!(first > 1_600_000_000);
    assert!(second >= first);
}

#[test]
fn clones_keep_the_fields() {
    let account = Account {
        id: "a".to_string(),
        label: "l".to_string(),
        issuer: "i".to_string(),
        chatgpt_account_id: Some("c".to_string()),
        workspace_id: None,
        workspace_name: Some("w".to_string()),
        note: None,
        tags: Some("t".to_string()),
        group_name: None,
        sort: 3,
        status: "active".to_string(),
        created_at: 1,
        updated_at: 2,
    };
    let copy = account.clone();
    assert_eq!(format!("{:?}", copy), format!("{:?}", account));
    assert_eq!(clone_text(&Some("x".to_string())).as_deref(), Some("x"));
    assert_eq!(clone_text(&None), None);
}

#[test]
fn api_keys_are_listed_without_their_hash() {
    assert!(read_api_keys(None).is_empty());
    let (record, answer) = create_api_key(
        Some("ci".to_string()),
        Some("gpt-5".to_string()),
        None,
        "sk-clear".to_string(),
        "hash-1".to_string(),
        "gk_1".to_string(),
        99,
    );
    assert_eq!(answer.id, "gk_1");
    assert_eq!(answer.key, "sk-clear");
    assert_eq!(record.key_hash, "hash-1");
    assert_eq!(record.status, "active");
    assert_eq!(record.client_type, "codex");
    assert_eq!(record.protocol_type, "openai_compat");
    assert_eq!(record.auth_scheme, "authorization_bearer");
    assert_eq!(record.created_at, 99);
    assert_eq!(record.last_used_at, None);
    let second = ApiKey { id: "gk_2".to_string(), last_used_at: Some(5), ..record.clone() };
    let listed = read_api_keys(Some(vec![record, second]));
    assert_eq!(listed.len(), 2);
    assert_eq!(listed[0].id, "gk_1");
    assert_eq!(listed[0].name.as_deref(), Some("ci"));
    assert_eq!(listed[0].model_slug.as_deref(), Some("gpt-5"));
    assert_eq!(listed[0].status, "active");
    assert_eq!(listed[0].created_at, 99);
    assert_eq!(listed[1].id, "gk_2");
    assert_eq!(listed[1].last_used_at, Some(5));
}

#[test]
fn columns_are_added_once() {
    let mut existing = vec!["id".to_string(), "label".to_string()];
    assert!(has_column(&existing, "label"));
    assert!(!has_column(&existing, "Label"));
    assert_eq!(
        ensure_column(&existing, "accounts", "sort", "INTEGER DEFAULT 0").as_deref(),
        Some("ALTER TABLE accounts ADD COLUMN sort INTEGER DEFAULT 0")
    );
    existing.push("sort".to_string());
    assert_eq!(ensure_column(&existing, "accounts", "sort", "INTEGER DEFAULT 0"), None);
    let columns = required_columns();
    assert_eq!(columns.len(), 13);
    assert_eq!(columns[0].table, "accounts");
    assert_eq!(columns[0].column, "chatgpt_account_id");
    assert_eq!(columns[5].column_type, "INTEGER DEFAULT 0");
    assert_eq!(columns[12].table, "tokens");
    assert_eq!(columns[12].column, "api_key_access_token");
}

#[test]
fn every_account_has_a_slot_of_its_own() {
    let mut locks = TokenExchangeLocks::new();
    assert_eq!(locks.exchange_lock_slot("a"), 0);
    assert_eq!(locks.exchange_lock_slot("b"), 1);
    assert_eq!(locks.exchange_lock_slot("a"), 0);
    assert_eq!(locks.exchange_lock_slot(""), 2);
    let a = locks.account_token_exchange_lock("a");
    let guard = a.lock().expect("lock");
    let b = locks.account_token_exchange_lock("b");
    assert!(b.try_lock().is_ok());
    assert!(locks.account_token_exchange_lock("a").try_lock().is_err());
    drop(guard);
    locks.clear();
    assert_eq!(locks.exchange_lock_slot("b"), 0);
}

#[test]
fn fixed_settings() {
    assert_eq!(upstream_connect_timeout(), 15);
    assert_eq!(account_max_inflight_limit(), 0);
}
