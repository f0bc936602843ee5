use gpttools::gate::{
    account_inflight_count, account_inflight_total, acquire_account_inflight,
    begin_gateway_request, end_gateway_request, gateway_metrics_prometheus,
    gateway_metrics_snapshot, record_gateway_cooldown_mark, record_gateway_failover_attempt,
    release_account_inflight, render_prometheus, reset_gateway_metrics, GatewayMetrics,
    GatewayMetricsSnapshot,
};

#[test]
fn counters_follow_the_events() {
    let mut m = GatewayMetrics::new();
    begin_gateway_request(&mut m);
    begin_gateway_request(&mut m);
    end_gateway_request(&mut m);
    record_gateway_failover_attempt(&mut m);
    record_gateway_cooldown_mark(&mut m);
    record_gateway_cooldown_mark(&mut m);
    assert_eq!(
        gateway_metrics_snapshot(&m),
        GatewayMetricsSnapshot {
            total_requests: 2,
            active_requests: 1,
            account_inflight_total: 0,
            failover_attempts: 1,
            cooldown_marks: 2,
        }
    );
    reset_gateway_metrics(&mut m);
    assert_eq!(
        gateway_metrics_snapshot(&m),
        GatewayMetricsSnapshot {
            total_requests: 0,
            active_requests: 0,
            account_inflight_total: 0,
            failover_attempts: 0,
            cooldown_marks: 0,
        }
    );
}

#[test]
fn active_requests_wrap_below_zero() {
    let mut m = GatewayMetrics::new();
    end_gateway_request(&mut m);
    assert_eq!(gateway_metrics_snapshot(&m).active_requests, usize::MAX);
    begin_gateway_request(&mut m);
    assert_eq!(gateway_metrics_snapshot(&m).active_requests, 0);
}

#[test]
fn inflight_counts_per_account() {
    let mut m = GatewayMetrics::new();
    assert_eq!(account_inflight_count(&m, "a"), 0);
    acquire_account_inflight(&mut m, "a");
    acquire_account_inflight(&mut m, "b");
    acquire_account_inflight(&mut m, "a");
    assert_eq!(account_inflight_count(&m, "a"), 2);
    assert_eq!(account_inflight_count(&m, "b"), 1);
    assert_eq!(account_inflight_total(&m), 3);
    release_account_inflight(&mut m, "a");
    assert_eq!(account_inflight_count(&m, "a"), 1);
    release_account_inflight(&mut m, "a");
    assert_eq!(account_inflight_count(&m, "a"), 0);
    release_account_inflight(&mut m, "a");
    assert_eq!(account_inflight_count(&m, "a"), 0);
    assert_eq!(account_inflight_count(&m, "b"), 1);
    assert_eq!(account_inflight_total(&m), 1);
    release_account_inflight(&mut m, "zzz");
    assert_eq!(account_inflight_total(&m), 1);
    assert_eq!(gateway_metrics_snapshot(&m).account_inflight_total, 1);
}

#[test]
fn metrics_text_is_five_lines() {
    let text = render_prometheus(&GatewayMetricsSnapshot {
        total_requests: 12,
        active_requests: 3,
        account_inflight_total: 0,
        failover_attempts: 105,
        cooldown_marks: 7,
    });
    assert_eq!(
        text,
        "gpttools_gateway_requests_total 12\n\
gpttools_gateway_requests_active 3\n\
gpttools_gateway_account_inflight_total 0\n\
gpttools_gateway_failover_attempts_total 105\n\
gpttools_gateway_cooldown_marks_total 7\n"
    );
    let mut m = GatewayMetrics::new();
    begin_gateway_request(&mut m);
    acquire_account_inflight(&mut m, "a");
    let text = gateway_metrics_prometheus(&m);
    let lines: Vec<&str> = text.lines().collect();
    assert_eq!(
        lines,
        vec![
            "gpttools_gateway_requests_total 1",
            "gpttools_gateway_requests_active 1",
            "gpttools_gateway_account_inflight_total 1",
            "gpttools_gateway_failover_attempts_total 0",
            "gpttools_gateway_cooldown_marks_total 0",
        ]
    );
}
