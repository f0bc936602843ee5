use gpttools::failover::{CooldownReason, InactiveReason};
use gpttools::gate::{
    account_inflight_count, acquire_account_inflight, begin_gateway_request,
    gateway_metrics_snapshot, release_account_inflight, GatewayMetrics,
};
use gpttools::headers::ResponseAdapter;
use gpttools::proxy::{
    exhausted_log_row, outcome_after_refresh, outcome_without_answer, read_upstream_answer,
    request_log_row, settle_attempt, should_skip_candidate_for_proxy, next_upstream_stage,
    AnswerReading, CandidateLoop, CandidateOutcome, ProxyStep, Settled, UpstreamStage,
    EXHAUSTED_MESSAGE, EXHAUSTED_STATUS,
};
use gpttools::records::{Account, Token, UsageSnapshotRecord};
use gpttools::selection::collect_gateway_candidates;
use gpttools::usage::UsageCutoffs;
use gpttools::validation::LocalValidationResult;

fn account(id: &str, status: &str) -> Account {
    Account {
        id: id.to_string(),
        label: id.to_string(),
        issuer: "".to_string(),
        chatgpt_account_id: None,
        workspace_id: None,
        workspace_name: None,
        note: None,
        tags: None,
        group_name: None,
        sort: 0,
        status: status.to_string(),
        created_at: 0,
        updated_at: 0,
    }
}

fn token(account_id: &str) -> Token {
    Token {
        account_id: account_id.to_string(),
        id_token: "id".to_string(),
        access_token: "access".to_string(),
        refresh_token: "refresh".to_string(),
        api_key_access_token: Some("bearer".to_string()),
        last_refresh: 0,
    }
}

fn candidates(ids: &[&str]) -> Vec<(Account, Token)> {
    ids.iter().map(|id| (account(id, "active"), token(id))).collect()
}

fn outcome_for(status: u16, content_type: Option<&[u8]>) -> CandidateOutcome {
    match read_upstream_answer(status, content_type) {
        AnswerReading::Respond => CandidateOutcome::RespondUpstream,
        AnswerReading::Failover { cooldown } => CandidateOutcome::Failover { cooldown },
        AnswerReading::Refresh { cooldown } => outcome_after_refresh(cooldown, None),
    }
}

#[test]
fn single_account_happy_path() {
    let mut gate = GatewayMetrics::new();
    begin_gateway_request(&mut gate);
    let list = candidates(&["a"]);
    let mut lp = CandidateLoop::new(0);
    let step = lp.next_attempt(&list, &mut gate);
    assert!(matches!(
        step,
        ProxyStep::Attempt { index: 0, strip_session_affinity: false, has_more: false }
    ));
    assert_eq!(account_inflight_count(&gate, "a"), 1);
    let settled = settle_attempt(0, outcome_for(200, None), &list, &mut gate);
    assert!(matches!(settled, Settled::Respond { index: 0 }));
    assert_eq!(account_inflight_count(&gate, "a"), 1);
    release_account_inflight(&mut gate, "a");
    let reading = gateway_metrics_snapshot(&gate);
    assert_eq!(reading.total_requests, 1);
    assert_eq!(reading.failover_attempts, 0);
    assert_eq!(reading.cooldown_marks, 0);
    assert_eq!(reading.account_inflight_total, 0);
}

#[test]
fn failover_on_429() {
    let mut gate = GatewayMetrics::new();
    begin_gateway_request(&mut gate);
    let list = candidates(&["a", "b"]);
    let mut lp = CandidateLoop::new(0);
    let step = lp.next_attempt(&list, &mut gate);
    assert!(matches!(
        step,
        ProxyStep::Attempt { index: 0, strip_session_affinity: false, has_more: true }
    ));
    let settled = settle_attempt(
        0,
        outcome_for(429, Some(b"application/json".as_slice())),
        &list,
        &mut gate,
    );
    assert!(matches!(settled, Settled::Continue));
    assert_eq!(account_inflight_count(&gate, "a"), 0);
    let step = lp.next_attempt(&list, &mut gate);
    assert!(matches!(
        step,
        ProxyStep::Attempt { index: 1, strip_session_affinity: true, has_more: false }
    ));
    let settled = settle_attempt(1, outcome_for(200, None), &list, &mut gate);
    assert!(matches!(settled, Settled::Respond { index: 1 }));
    let reading = gateway_metrics_snapshot(&gate);
    assert_eq!(reading.failover_attempts, 1);
    assert_eq!(reading.cooldown_marks, 1);
    assert_eq!(reading.account_inflight_total, 1);
}

#[test]
fn all_exhausted() {
    let accounts = vec![account("a", "active")];
    let tokens = vec![token("a")];
    let snaps = vec![UsageSnapshotRecord {
        account_id: "a".to_string(),
        used_percent: Some(99_000),
        window_minutes: None,
        resets_at: None,
        secondary_used_percent: None,
        secondary_window_minutes: None,
        secondary_resets_at: None,
        credits_json: None,
        captured_at: 0,
    }];
    let list = collect_gateway_candidates(&accounts, &tokens, &snaps, UsageCutoffs::full());
    assert_eq!(list.len(), 1);
    let mut gate = GatewayMetrics::new();
    let mut lp = CandidateLoop::new(0);
    assert!(matches!(lp.next_attempt(&list, &mut gate), ProxyStep::Attempt { index: 0, .. }));
    let settled = settle_attempt(0, outcome_for(503, None), &list, &mut gate);
    assert!(matches!(settled, Settled::Continue));
    assert!(matches!(lp.next_attempt(&list, &mut gate), ProxyStep::Exhausted));
    assert_eq!(EXHAUSTED_STATUS, 503);
    assert_eq!(EXHAUSTED_MESSAGE, "no available account");
    let reading = gateway_metrics_snapshot(&gate);
    assert_eq!(reading.failover_attempts, 1);
    assert_eq!(reading.cooldown_marks, 1);
    assert_eq!(reading.account_inflight_total, 0);
}

#[test]
fn exhausted_primary_usage_leaves_no_candidate() {
    let accounts = vec![account("a", "active")];
    let tokens = vec![token("a")];
    let snaps = vec![UsageSnapshotRecord {
        account_id: "a".to_string(),
        used_percent: Some(100_000),
        window_minutes: Some(300),
        resets_at: None,
        secondary_used_percent: None,
        secondary_window_minutes: None,
        secondary_resets_at: None,
        credits_json: None,
        captured_at: 0,
    }];
    let list = collect_gateway_candidates(&accounts, &tokens, &snaps, UsageCutoffs::full());
    assert!(list.is_empty());
    let mut gate = GatewayMetrics::new();
    let mut lp = CandidateLoop::new(0);
    assert!(matches!(lp.next_attempt(&list, &mut gate), ProxyStep::Exhausted));
}

#[test]
fn loaded_accounts_are_passed_over_but_the_last() {
    let mut gate = GatewayMetrics::new();
    acquire_account_inflight(&mut gate, "a");
    acquire_account_inflight(&mut gate, "a");
    acquire_account_inflight(&mut gate, "c");
    acquire_account_inflight(&mut gate, "c");
    assert!(should_skip_candidate_for_proxy(&gate, "a", 0, 3, 2));
    assert!(!should_skip_candidate_for_proxy(&gate, "a", 0, 3, 3));
    assert!(!should_skip_candidate_for_proxy(&gate, "a", 0, 3, 0));
    assert!(!should_skip_candidate_for_proxy(&gate, "c", 2, 3, 2));
    assert!(!should_skip_candidate_for_proxy(&gate, "b", 1, 3, 2));
    let list = candidates(&["a", "c"]);
    let mut lp = CandidateLoop::new(2);
    assert!(matches!(
        lp.next_attempt(&list, &mut gate),
        ProxyStep::Attempt { index: 1, strip_session_affinity: true, has_more: false }
    ));
    assert_eq!(account_inflight_count(&gate, "c"), 3);
    assert_eq!(account_inflight_count(&gate, "a"), 2);
    assert_eq!(lp.next, 2);
    assert!(matches!(lp.next_attempt(&list, &mut gate), ProxyStep::Exhausted));
}

#[test]
fn terminal_outcome_releases_and_ends() {
    let mut gate = GatewayMetrics::new();
    let list = candidates(&["a", "b"]);
    let mut lp = CandidateLoop::new(0);
    lp.next_attempt(&list, &mut gate);
    let settled = settle_attempt(
        0,
        CandidateOutcome::Terminal { status_code: 502, message: "bad gateway".to_string() },
        &list,
        &mut gate,
    );
    match settled {
        Settled::Terminal { status_code, message } => {
            assert_eq!(status_code, 502);
            assert_eq!(message, "bad gateway");
        }
        other => panic!("{:?}", other),
    }
    let reading = gateway_metrics_snapshot(&gate);
    assert_eq!(reading.account_inflight_total, 0);
    assert_eq!(reading.failover_attempts, 0);
}

#[test]
fn failover_without_cooldown_reason_marks_nothing() {
    let mut gate = GatewayMetrics::new();
    let list = candidates(&["a"]);
    let settled = settle_attempt(
        0,
        CandidateOutcome::Failover { cooldown: CooldownReason::Default },
        &list,
        &mut gate,
    );
    assert!(matches!(settled, Settled::Continue));
    let reading = gateway_metrics_snapshot(&gate);
    assert_eq!(reading.failover_attempts, 1);
    assert_eq!(reading.cooldown_marks, 0);
    let settled = settle_attempt(9, outcome_without_answer(true), &list, &mut gate);
    assert!(matches!(settled, Settled::Continue));
    assert_eq!(gateway_metrics_snapshot(&gate).cooldown_marks, 1);
    assert!(matches!(
        outcome_without_answer(false),
        CandidateOutcome::Failover { cooldown: CooldownReason::Default }
    ));
}

#[test]
fn answers_are_read_by_status_and_content_type() {
    assert_eq!(read_upstream_answer(200, Some(b"text/html".as_slice())), AnswerReading::Respond);
    assert_eq!(read_upstream_answer(302, None), AnswerReading::Respond);
    assert_eq!(
        read_upstream_answer(429, None),
        AnswerReading::Failover { cooldown: CooldownReason::RateLimited }
    );
    assert_eq!(
        read_upstream_answer(403, Some(b"text/html; charset=utf-8".as_slice())),
        AnswerReading::Failover { cooldown: CooldownReason::Challenge }
    );
    assert_eq!(
        read_upstream_answer(500, Some(b"text/html".as_slice())),
        AnswerReading::Failover { cooldown: CooldownReason::Challenge }
    );
    assert_eq!(
        read_upstream_answer(502, None),
        AnswerReading::Failover { cooldown: CooldownReason::Upstream5xx }
    );
    assert_eq!(
        read_upstream_answer(403, Some(b"application/json".as_slice())),
        AnswerReading::Refresh { cooldown: CooldownReason::Challenge }
    );
    assert_eq!(
        read_upstream_answer(400, None),
        AnswerReading::Refresh { cooldown: CooldownReason::Upstream4xx }
    );
    assert!(matches!(
        outcome_after_refresh(CooldownReason::Upstream4xx, Some(InactiveReason::Unreachable)),
        CandidateOutcome::Failover { cooldown: CooldownReason::Upstream4xx }
    ));
    assert!(matches!(
        outcome_after_refresh(CooldownReason::Upstream4xx, None),
        CandidateOutcome::RespondUpstream
    ));
}

#[test]
fn models_on_codex_backend_tries_the_alternate_but_no_fallback() {
    let base = "https://chatgpt.com/backend-api/codex";
    let html = Some(b"text/html; charset=utf-8".as_slice());
    let path = "/v1/models?client_version=0.98.0";
    assert_eq!(
        next_upstream_stage(UpstreamStage::Primary, 403, html, true, base, path),
        Some(UpstreamStage::Alternate)
    );
    assert_eq!(next_upstream_stage(UpstreamStage::Alternate, 403, html, true, base, path), None);
    assert_eq!(next_upstream_stage(UpstreamStage::Alternate, 500, None, true, base, path), None);
    assert_eq!(next_upstream_stage(UpstreamStage::Primary, 200, None, true, base, path), None);
}

#[test]
fn other_paths_fall_back_once_after_a_failure() {
    let base = "https://chatgpt.com/backend-api/codex";
    let json = Some(b"application/json".as_slice());
    assert_eq!(
        next_upstream_stage(UpstreamStage::Primary, 500, json, false, base, "/v1/responses"),
        Some(UpstreamStage::Fallback)
    );
    assert_eq!(
        next_upstream_stage(UpstreamStage::Fallback, 500, json, false, base, "/v1/responses"),
        None
    );
    assert_eq!(
        next_upstream_stage(UpstreamStage::Primary, 200, json, false, base, "/v1/responses"),
        None
    );
    assert_eq!(
        next_upstream_stage(
            UpstreamStage::Primary,
            403,
            Some(b"text/html".as_slice()),
            false,
            base,
            "/v1/responses"
        ),
        None
    );
    assert_eq!(
        next_upstream_stage(
            UpstreamStage::Primary,
            500,
            json,
            false,
            "https://api.openai.com/v1",
            "/v1/responses"
        ),
        None
    );
}

#[test]
fn log_rows_carry_the_request() {
    let request = LocalValidationResult {
        path: "/v1/responses".to_string(),
        body: Vec::new(),
        is_stream: false,
        response_adapter: ResponseAdapter::Passthrough,
        request_method: "POST".to_string(),
        key_id: "gk_1".to_string(),
        model_for_log: Some("gpt-5".to_string()),
        reasoning_for_log: None,
    };
    let row = request_log_row(&request, Some("https://u/v1/responses"), 200, None, 77);
    assert_eq!(row.key_id.as_deref(), Some("gk_1"));
    assert_eq!(row.request_path, "/v1/responses");
    assert_eq!(row.method, "POST");
    assert_eq!(row.model.as_deref(), Some("gpt-5"));
    assert_eq!(row.reasoning_effort, None);
    assert_eq!(row.upstream_url.as_deref(), Some("https://u/v1/responses"));
    assert_eq!(row.status_code, Some(200));
    assert_eq!(row.error, None);
    assert_eq!(row.created_at, 77);
    let row = exhausted_log_row(&request, "https://u", 78);
    assert_eq!(row.upstream_url.as_deref(), Some("https://u"));
    assert_eq!(row.status_code, Some(503));
    assert_eq!(row.error.as_deref(), Some("no available account"));
    assert_eq!(row.created_at, 78);
}
