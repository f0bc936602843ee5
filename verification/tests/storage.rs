use gpttools::records::{now_ts, UsageSnapshotRecord};
use gpttools::usage::{latest_usage_order, latest_usage_snapshots_by_account, row_is_latest};

fn snapshot(account_id: &str, used_percent: i64, captured_at: i64) -> UsageSnapshotRecord {
    UsageSnapshotRecord {
        account_id: account_id.to_string(),
        used_percent: Some(used_percent),
        window_minutes: Some(300),
        resets_at: None,
        secondary_used_percent: None,
        secondary_window_minutes: None,
        secondary_resets_at: None,
        credits_json: None,
        captured_at,
    }
}

#[test]
fn latest_usage_snapshots_break_ties_by_latest_id() {
    let tie_ts = now_ts();
    let rows = vec![
        snapshot("acc-1", 10_000, tie_ts),
        snapshot("acc-1", 30_000, tie_ts),
        snapshot("acc-2", 50_000, tie_ts - 10),
    ];

    let latest = latest_usage_snapshots_by_account(&rows);

    assert_eq!(latest.len(), 2);
    assert_eq!(latest[0].account_id, "acc-1");

    let acc1 = latest
        .iter()
        .find(|item| item.account_id == "acc-1")
        .expect("acc-1 exists");
    assert_eq!(acc1.used_percent, Some(30_000));
}

#[test]
fn latest_usage_order_lists_newest_first() {
    let rows = vec![
        snapshot("a", 1, 100),
        snapshot("b", 2, 300),
        snapshot("a", 3, 200),
        snapshot("c", 4, 300),
        snapshot("b", 5, 250),
    ];
    assert_eq!(latest_usage_order(&rows), vec![3, 1, 2]);
    assert!(!row_is_latest(&rows, 0));
    assert!(row_is_latest(&rows, 1));
    assert!(row_is_latest(&rows, 2));
    assert!(row_is_latest(&rows, 3));
    assert!(!row_is_latest(&rows, 4));
    assert!(!row_is_latest(&rows, 5));
    assert!(latest_usage_order(&Vec::new()).is_empty());
}
