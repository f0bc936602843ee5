use gpttools::failover::{
    content_type_is_html, cooldown_reason_for_status, first_snapshot_of, header_value_text,
    is_html_content_type, is_upstream_challenge_response, should_failover_after_refresh,
    CooldownReason, InactiveReason,
};
use gpttools::records::UsageSnapshotRecord;
use gpttools::usage::UnavailableReason;

fn usage(account_id: &str, used: Option<i64>) -> UsageSnapshotRecord {
    UsageSnapshotRecord {
        account_id: account_id.to_string(),
        used_percent: used,
        window_minutes: Some(300),
        resets_at: None,
        secondary_used_percent: None,
        secondary_window_minutes: None,
        secondary_resets_at: None,
        credits_json: None,
        captured_at: 0,
    }
}

#[test]
fn cooldown_reason_by_ranges() {
    assert_eq!(cooldown_reason_for_status(500), CooldownReason::Upstream5xx);
    assert_eq!(cooldown_reason_for_status(599), CooldownReason::Upstream5xx);
    assert_eq!(cooldown_reason_for_status(600), CooldownReason::Default);
    assert_eq!(cooldown_reason_for_status(401), CooldownReason::Upstream4xx);
    assert_eq!(cooldown_reason_for_status(404), CooldownReason::Upstream4xx);
    assert_eq!(cooldown_reason_for_status(499), CooldownReason::Upstream4xx);
    assert_eq!(cooldown_reason_for_status(399), CooldownReason::Default);
    assert_eq!(cooldown_reason_for_status(302), CooldownReason::Default);
    assert_eq!(cooldown_reason_for_status(100), CooldownReason::Default);
    assert_eq!(cooldown_reason_for_status(0), CooldownReason::Default);
}

#[test]
fn html_detection_trims_and_folds() {
    assert!(is_html_content_type("  Text/Html;charset=x"));
    assert!(is_html_content_type("text/htmlx"));
    assert!(!is_html_content_type("text/htm"));
    assert!(!is_html_content_type("application/xhtml+xml"));
    assert!(!is_html_content_type(""));
    assert!(content_type_is_html(Some(b"text/html".as_slice())));
    assert!(!content_type_is_html(Some(b"text/html\x80".as_slice())));
    assert!(!content_type_is_html(None));
}

#[test]
fn header_text_needs_visible_bytes() {
    assert_eq!(header_value_text(b"a\tb ~"), Some(vec!['a', '\t', 'b', ' ', '~']));
    assert_eq!(header_value_text(b""), Some(Vec::new()));
    assert_eq!(header_value_text(b"a\x7f"), None);
    assert_eq!(header_value_text(b"a\x1fb"), None);
    assert_eq!(header_value_text(b"\xc3\xa9"), None);
}

#[test]
fn challenge_is_429_or_html() {
    assert!(is_upstream_challenge_response(429, None));
    assert!(is_upstream_challenge_response(200, Some(b"text/html".as_slice())));
    assert!(!is_upstream_challenge_response(403, None));
    assert!(!is_upstream_challenge_response(503, Some(b"application/json".as_slice())));
}

#[test]
fn verdict_after_successful_refresh() {
    let latest = vec![usage("b", Some(100_000)), usage("a", Some(5_000)), usage("a", None)];
    assert_eq!(first_snapshot_of(&latest, "a"), Some(1));
    assert_eq!(first_snapshot_of(&latest, "z"), None);
    assert_eq!(should_failover_after_refresh(Some(&latest), "a", &Ok(())), None);
    assert_eq!(
        should_failover_after_refresh(Some(&latest), "b", &Ok(())),
        Some(InactiveReason::Usage(UnavailableReason::ExhaustedPrimary))
    );
    assert_eq!(
        should_failover_after_refresh(Some(&latest), "z", &Ok(())),
        Some(InactiveReason::MissingSnapshot)
    );
    assert_eq!(
        should_failover_after_refresh(None, "a", &Ok(())),
        Some(InactiveReason::MissingSnapshot)
    );
}

#[test]
fn verdict_after_failed_refresh() {
    let latest = vec![usage("a", Some(100_000))];
    assert_eq!(
        should_failover_after_refresh(
            Some(&latest),
            "a",
            &Err("usage endpoint status 401".to_string())
        ),
        Some(InactiveReason::Unreachable)
    );
    assert_eq!(
        should_failover_after_refresh(Some(&latest), "a", &Err("timeout".to_string())),
        None
    );
    assert_eq!(
        should_failover_after_refresh(
            None,
            "a",
            &Err(" usage endpoint status 500".to_string())
        ),
        None
    );
}

#[test]
fn inactive_reasons_have_their_texts() {
    assert_eq!(InactiveReason::MissingSnapshot.as_text(), "usage_missing_snapshot");
    assert_eq!(InactiveReason::Unreachable.as_text(), "usage_unreachable");
    assert_eq!(
        InactiveReason::Usage(UnavailableReason::ExhaustedSecondary).as_text(),
        "usage_exhausted_secondary"
    );
}
