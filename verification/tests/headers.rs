use gpttools::headers::{
    build_upstream_headers, filter_response_headers, should_drop_incoming_header,
    should_drop_incoming_header_for_failover, should_drop_session_affinity_header,
    upstream_account_id, ResponseAdapter,
};
use gpttools::records::Account;

fn headers(pairs: &[(&str, &str)]) -> Vec<(String, String)> {
    pairs.iter().map(|(n, v)| (n.to_string(), v.to_string())).collect()
}

fn answer(pairs: &[(&str, &[u8])]) -> Vec<(String, Vec<u8>)> {
    pairs.iter().map(|(n, v)| (n.to_string(), v.to_vec())).collect()
}

fn account(chatgpt: Option<&str>, workspace: Option<&str>) -> Account {
    Account {
        id: "acc".to_string(),
        label: "l".to_string(),
        issuer: "".to_string(),
        chatgpt_account_id: chatgpt.map(str::to_string),
        workspace_id: workspace.map(str::to_string),
        workspace_name: None,
        note: None,
        tags: None,
        group_name: None,
        sort: 0,
        status: "active".to_string(),
        created_at: 0,
        updated_at: 0,
    }
}

#[test]
fn drop_set_holds_credentials_connection_and_fingerprints() {
    for name in [
        "Authorization",
        "X-Api-Key",
        "host",
        "CONTENT-LENGTH",
        "chatgpt-account-id",
        "anthropic-version",
        "Anthropic-Beta",
        "x-stainless-os",
        "X-Stainless-Runtime-Version",
    ] {
        assert!(should_drop_incoming_header(name), "{name}");
        assert!(should_drop_incoming_header_for_failover(name), "{name}");
    }
    for name in ["anthropic", "x-stainless", "Accept", "User-Agent", "conversation_id", ""] {
        assert!(!should_drop_incoming_header(name), "{name}");
        assert!(!should_drop_incoming_header_for_failover(name), "{name}");
    }
    assert!(should_drop_session_affinity_header("Session_ID"));
    assert!(should_drop_session_affinity_header("X-Codex-Turn-State"));
    assert!(!should_drop_session_affinity_header("session-id"));
}

#[test]
fn upstream_account_is_account_id_or_workspace() {
    assert_eq!(upstream_account_id(&account(Some("a"), Some("w"))), Some("a"));
    assert_eq!(upstream_account_id(&account(None, Some("w"))), Some("w"));
    assert_eq!(upstream_account_id(&account(None, None)), None);
}

#[test]
fn first_attempt_keeps_session_headers() {
    let incoming = headers(&[
        ("Authorization", "Bearer platform"),
        ("session_id", "sid-1"),
        ("Content-Type", "application/json"),
        ("x-stainless-os", "linux"),
        ("Bad Name", "x"),
        ("X-Bad-Value", "a\nb"),
        ("X-Latin", "é"),
    ]);
    let out = build_upstream_headers(&incoming, "tok", Some("acct"), Some(" c=1 "), false, true);
    assert_eq!(
        out,
        headers(&[
            ("session_id", "sid-1"),
            ("Content-Type", "application/json"),
            ("X-Latin", "é"),
            ("User-Agent", "codex-cli"),
            ("Cookie", " c=1 "),
            ("Authorization", "Bearer tok"),
            ("ChatGPT-Account-Id", "acct"),
            ("Accept", "text/event-stream"),
        ])
    );
}

#[test]
fn header_names_are_tokens_of_bounded_length() {
    let longest = "a".repeat(65535);
    let too_long = "a".repeat(65536);
    let incoming = headers(&[
        ("X-Ok_1.2~", "1"),
        ("!#$%&'*+-.^_`|~", "2"),
        (longest.as_str(), "3"),
        (too_long.as_str(), "4"),
        ("", "5"),
        ("x y", "6"),
        ("x:y", "7"),
        ("x(y", "8"),
        ("x\"y", "9"),
        ("x/y", "10"),
        ("x=y", "11"),
        ("x@y", "12"),
        ("x[y", "13"),
        ("x{y", "14"),
        ("x\u{7f}y", "15"),
        ("xéy", "16"),
    ]);
    let out = build_upstream_headers(&incoming, "tok", None, None, false, false);
    let kept: Vec<&str> = out.iter().map(|(_, value)| value.as_str()).collect();
    assert_eq!(kept, vec!["1", "2", "3", "codex-cli", "Bearer tok"]);
}

#[test]
fn later_attempts_drop_session_headers() {
    let incoming = headers(&[
        ("session_id", "sid-1"),
        ("x-codex-turn-state", "t"),
        ("user-agent", "my-client"),
        ("accept", "application/json"),
    ]);
    let out = build_upstream_headers(&incoming, "tok", None, Some("  "), true, true);
    assert_eq!(
        out,
        headers(&[
            ("user-agent", "my-client"),
            ("accept", "application/json"),
            ("Authorization", "Bearer tok"),
        ])
    );
    let out = build_upstream_headers(&Vec::new(), "", None, None, true, false);
    assert_eq!(out, headers(&[("User-Agent", "codex-cli"), ("Authorization", "Bearer ")]));
}

#[test]
fn a_user_agent_that_cannot_be_sent_still_counts_as_named() {
    let incoming = headers(&[("User-Agent", "bad\u{7f}agent")]);
    let out = build_upstream_headers(&incoming, "tok", None, None, false, false);
    assert_eq!(out, headers(&[("Authorization", "Bearer tok")]));
}

#[test]
fn answer_headers_lose_those_of_the_connection() {
    let upstream = answer(&[
        ("content-type", b"text/event-stream"),
        ("Transfer-Encoding", b"chunked"),
        ("content-length", b"12"),
        ("CONNECTION", b"keep-alive"),
        ("x-request-id", b"r1"),
        ("x-raw", b"caf\xc3\xa9"),
        ("x-\u{e9}", b"v"),
    ]);
    assert_eq!(
        filter_response_headers(&upstream, ResponseAdapter::Passthrough),
        answer(&[("content-type", b"text/event-stream"), ("x-request-id", b"r1")])
    );
    assert_eq!(
        filter_response_headers(&upstream, ResponseAdapter::AnthropicJson),
        answer(&[("x-request-id", b"r1")])
    );
    assert_eq!(
        filter_response_headers(&upstream, ResponseAdapter::AnthropicSse),
        answer(&[("x-request-id", b"r1")])
    );
    assert!(filter_response_headers(&Vec::new(), ResponseAdapter::Passthrough).is_empty());
}
