use gpttools::records::{Account, Token, UsageSnapshotRecord};
use gpttools::selection::{
    collect_gateway_candidates, find_token, find_usage, log_no_candidates,
    rotate_candidates_for_fairness, FairnessCursor,
};
use gpttools::usage::UsageCutoffs;

fn account(id: &str, status: &str) -> Account {
    Account {
        id: id.to_string(),
        label: id.to_string(),
        issuer: "https://auth.openai.com".to_string(),
        chatgpt_account_id: None,
        workspace_id: None,
        workspace_name: None,
        note: None,
        tags: None,
        group_name: None,
        sort: 0,
        status: status.to_string(),
        created_at: 0,
        updated_at: 0,
    }
}

fn token(account_id: &str, access: &str) -> Token {
    Token {
        account_id: account_id.to_string(),
        id_token: "id".to_string(),
        access_token: access.to_string(),
        refresh_token: "refresh".to_string(),
        api_key_access_token: None,
        last_refresh: 0,
    }
}

fn usage(account_id: &str, used: i64) -> UsageSnapshotRecord {
    UsageSnapshotRecord {
        account_id: account_id.to_string(),
        used_percent: Some(used),
        window_minutes: Some(300),
        resets_at: None,
        secondary_used_percent: None,
        secondary_window_minutes: None,
        secondary_resets_at: None,
        credits_json: None,
        captured_at: 0,
    }
}

fn ids(candidates: &[(Account, Token)]) -> Vec<String> {
    candidates.iter().map(|(a, _)| a.id.clone()).collect()
}

#[test]
fn primary_set_holds_active_available_accounts_with_token() {
    let accounts = vec![
        account("a", "active"),
        account("b", "inactive"),
        account("c", "active"),
        account("d", "active"),
        account("e", "active"),
    ];
    let tokens = vec![token("a", "ta"), token("b", "tb"), token("d", "td"), token("e", "te")];
    let snaps = vec![usage("a", 10_000), usage("d", 100_000)];
    let out = collect_gateway_candidates(&accounts, &tokens, &snaps, UsageCutoffs::full());
    assert_eq!(ids(&out), vec!["a", "e"]);
    assert_eq!(out[0].1.access_token, "ta");
    assert_eq!(out[1].1.access_token, "te");
}

#[test]
fn fallback_set_is_used_when_primary_is_empty() {
    let accounts = vec![account("a", "inactive"), account("b", "active"), account("c", "inactive")];
    let tokens = vec![token("a", "ta"), token("b", "tb")];
    let snaps = vec![usage("a", 50_000), usage("b", 100_000)];
    let out = collect_gateway_candidates(&accounts, &tokens, &snaps, UsageCutoffs::full());
    assert_eq!(ids(&out), vec!["a"]);
    let out = collect_gateway_candidates(&accounts, &Vec::new(), &snaps, UsageCutoffs::full());
    assert!(out.is_empty());
}

#[test]
fn last_row_of_an_account_wins() {
    let tokens = vec![token("a", "old"), token("b", "tb"), token("a", "new")];
    assert_eq!(find_token(&tokens, "a"), Some(2));
    assert_eq!(find_token(&tokens, "b"), Some(1));
    assert_eq!(find_token(&tokens, "z"), None);
    let snaps = vec![usage("a", 100_000), usage("a", 1)];
    assert_eq!(find_usage(&snaps, "a"), Some(1));
    let out = collect_gateway_candidates(
        &vec![account("a", "active")],
        &tokens,
        &snaps,
        UsageCutoffs::full(),
    );
    assert_eq!(out.len(), 1);
    assert_eq!(out[0].1.access_token, "new");
}

#[test]
fn cutoffs_are_applied_to_the_primary_set() {
    let accounts = vec![account("a", "active"), account("b", "active")];
    let tokens = vec![token("a", "ta"), token("b", "tb")];
    let snaps = vec![usage("a", 95_000), usage("b", 10_000)];
    let strict = UsageCutoffs { primary: 90_000, secondary: 90_000 };
    assert_eq!(ids(&collect_gateway_candidates(&accounts, &tokens, &snaps, strict)), vec!["b"]);
    assert_eq!(
        ids(&collect_gateway_candidates(&accounts, &tokens, &snaps, UsageCutoffs::full())),
        vec!["a", "b"]
    );
}

#[test]
fn rotation_is_left_by_cursor_modulo_length() {
    let base = vec![
        (account("a", "active"), token("a", "ta")),
        (account("b", "active"), token("b", "tb")),
        (account("c", "active"), token("c", "tc")),
    ];
    let mut cursor = FairnessCursor { position: 4 };
    let mut list = base.clone();
    rotate_candidates_for_fairness(&mut list, &mut cursor);
    assert_eq!(ids(&list), vec!["b", "c", "a"]);
    assert_eq!(cursor.position, 5);
    let mut list = base.clone();
    rotate_candidates_for_fairness(&mut list, &mut cursor);
    assert_eq!(ids(&list), vec!["c", "a", "b"]);
    let mut list = base.clone();
    rotate_candidates_for_fairness(&mut list, &mut cursor);
    assert_eq!(ids(&list), vec!["a", "b", "c"]);
    assert_eq!(cursor.position, 7);
}

#[test]
fn the_cursor_advances_on_every_call() {
    let mut cursor = FairnessCursor { position: 3 };
    let mut one = vec![(account("a", "active"), token("a", "ta"))];
    rotate_candidates_for_fairness(&mut one, &mut cursor);
    assert_eq!(ids(&one), vec!["a"]);
    assert_eq!(cursor.position, 4);
    let mut none: Vec<(Account, Token)> = Vec::new();
    rotate_candidates_for_fairness(&mut none, &mut cursor);
    assert!(none.is_empty());
    assert_eq!(cursor.position, 5);
    let mut two = vec![
        (account("a", "active"), token("a", "ta")),
        (account("b", "active"), token("b", "tb")),
    ];
    rotate_candidates_for_fairness(&mut two, &mut cursor);
    assert_eq!(ids(&two), vec!["b", "a"]);
    assert_eq!(cursor.position, 6);
}

#[test]
fn the_cursor_wraps_at_the_end_of_its_range() {
    let mut cursor = FairnessCursor { position: usize::MAX };
    assert_eq!(cursor.take(), usize::MAX);
    assert_eq!(cursor.position, 0);
    assert_eq!(FairnessCursor::new().position, 0);
    let mut cursor = FairnessCursor { position: usize::MAX };
    let mut one = vec![(account("a", "active"), token("a", "ta"))];
    rotate_candidates_for_fairness(&mut one, &mut cursor);
    assert_eq!(cursor.position, 0);
}

#[test]
fn rotation_loses_and_doubles_no_candidate() {
    let base = vec![
        (account("a", "active"), token("a", "ta")),
        (account("b", "active"), token("b", "tb")),
        (account("c", "active"), token("c", "tc")),
        (account("d", "active"), token("d", "td")),
    ];
    for position in [0usize, 1, 2, 3, 4, 7, 1001] {
        let mut cursor = FairnessCursor { position };
        let mut list = base.clone();
        rotate_candidates_for_fairness(&mut list, &mut cursor);
        assert_eq!(list.len(), base.len());
        for i in 0..base.len() {
            let from = (i + position % base.len()) % base.len();
            assert_eq!(list[i].0.id, base[from].0.id, "position {position}, place {i}");
            assert_eq!(list[i].1.access_token, base[from].1.access_token);
        }
    }
}

#[test]
fn fairness_three_requests_start_on_three_accounts() {
    let base = vec![
        (account("a", "active"), token("a", "ta")),
        (account("b", "active"), token("b", "tb")),
        (account("c", "active"), token("c", "tc")),
    ];
    let mut cursor = FairnessCursor::new();
    let mut firsts = Vec::new();
    for _ in 0..3 {
        let mut list = base.clone();
        rotate_candidates_for_fairness(&mut list, &mut cursor);
        firsts.push(list[0].0.id.clone());
    }
    firsts.sort();
    assert_eq!(firsts, vec!["a", "b", "c"]);
}

#[test]
fn report_on_accounts_without_candidates() {
    let accounts = vec![account("a", "inactive"), account("b", "active")];
    let tokens = vec![token("a", "ta")];
    let snaps = vec![usage("b", 100_000)];
    let report = log_no_candidates(&accounts, &tokens, &snaps);
    assert_eq!(report.len(), 2);
    assert_eq!(report[0].account, 0);
    assert!(!report[0].active);
    assert!(report[0].has_token);
    assert!(!report[0].has_usage);
    assert_eq!(report[0].used_percent, None);
    assert!(report[1].active);
    assert!(!report[1].has_token);
    assert!(report[1].has_usage);
    assert_eq!(report[1].used_percent, Some(100_000));
    assert_eq!(report[1].window_minutes, Some(300));
    assert_eq!(report[1].secondary_used_percent, None);
}
