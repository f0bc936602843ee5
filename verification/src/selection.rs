//! The candidate accounts of a request: the join of accounts, tokens and
//! latest usage, and the rotation that spreads the first pick.

use vstd::prelude::*;
use crate::records::{Account, Token, UsageSnapshotRecord};
use crate::text::str_eq;
use crate::usage::{available_under, fallback_ok, fallback_allowed, is_available_with, UsageCutoffs};

verus! {

/// The position below `n` of the last token whose account is `id`, or -1.
pub open spec fn last_token_index(tokens: Seq<Token>, id: Seq<char>, n: int) -> int
    decreases n,
{
    if n <= 0 {
        -1
    } else if tokens[n - 1].account_id@ == id {
        n - 1
    } else {
        last_token_index(tokens, id, n - 1)
    }
}

/// The position below `n` of the last snapshot whose account is `id`, or -1.
pub open spec fn last_usage_index(snaps: Seq<UsageSnapshotRecord>, id: Seq<char>, n: int) -> int
    decreases n,
{
    if n <= 0 {
        -1
    } else if snaps[n - 1].account_id@ == id {
        n - 1
    } else {
        last_usage_index(snaps, id, n - 1)
    }
}

/// The token row of an account: where several rows name it, the last one.
pub open spec fn token_of(tokens: Seq<Token>, id: Seq<char>) -> Option<Token> {
    let k = last_token_index(tokens, id, tokens.len() as int);
    if k >= 0 {
        Some(tokens[k])
    } else {
        None
    }
}

/// The usage snapshot of an account: where several name it, the last one.
pub open spec fn usage_of(snaps: Seq<UsageSnapshotRecord>, id: Seq<char>) -> Option<
    UsageSnapshotRecord,
> {
    let k = last_usage_index(snaps, id, snaps.len() as int);
    if k >= 0 {
        Some(snaps[k])
    } else {
        None
    }
}

/// An account of the primary set: active, with a token, and available.
pub open spec fn is_primary(
    account: Account,
    tokens: Seq<Token>,
    snaps: Seq<UsageSnapshotRecord>,
    cutoffs: UsageCutoffs,
) -> bool {
    &&& account.status@ == "active"@
    &&& token_of(tokens, account.id@) is Some
    &&& available_under(usage_of(snaps, account.id@), cutoffs)
}

/// An account of the fallback set: with a token and usage short of one
/// hundred percent, whatever its status.
pub open spec fn is_fallback(account: Account, tokens: Seq<Token>, snaps: Seq<UsageSnapshotRecord>) -> bool {
    &&& token_of(tokens, account.id@) is Some
    &&& fallback_ok(usage_of(snaps, account.id@))
}

pub open spec fn is_eligible(
    account: Account,
    tokens: Seq<Token>,
    snaps: Seq<UsageSnapshotRecord>,
    cutoffs: UsageCutoffs,
    fallback: bool,
) -> bool {
    if fallback {
        is_fallback(account, tokens, snaps)
    } else {
        is_primary(account, tokens, snaps, cutoffs)
    }
}

/// The eligible accounts among the first `n`, in their listed order, each
/// with its token.
pub open spec fn eligible_upto(
    accounts: Seq<Account>,
    tokens: Seq<Token>,
    snaps: Seq<UsageSnapshotRecord>,
    cutoffs: UsageCutoffs,
    fallback: bool,
    n: int,
) -> Seq<(Account, Token)>
    decreases n,
{
    if n <= 0 {
        Seq::empty()
    } else {
        let rest = eligible_upto(accounts, tokens, snaps, cutoffs, fallback, n - 1);
        let account = accounts[n - 1];
        if is_eligible(account, tokens, snaps, cutoffs, fallback) {
            rest.push((account, token_of(tokens, account.id@)->0))
        } else {
            rest
        }
    }
}

/// The candidates of a request: the primary set, or the fallback set where
/// the primary set is empty.
pub open spec fn gateway_candidates(
    accounts: Seq<Account>,
    tokens: Seq<Token>,
    snaps: Seq<UsageSnapshotRecord>,
    cutoffs: UsageCutoffs,
) -> Seq<(Account, Token)> {
    let primary = eligible_upto(accounts, tokens, snaps, cutoffs, false, accounts.len() as int);
    if primary.len() > 0 {
        primary
    } else {
        eligible_upto(accounts, tokens, snaps, cutoffs, true, accounts.len() as int)
    }
}

/// The position of the token row of an account.
pub fn find_token(tokens: &Vec<Token>, id: &str) -> (out: Option<usize>)
    ensures
        match out {
            Some(k) => k == last_token_index(tokens@, id@, tokens.len() as int),
            None => last_token_index(tokens@, id@, tokens.len() as int) == -1,
        },
{
    let mut n: usize = tokens.len();
    while n > 0
        invariant
            n <= tokens.len(),
            last_token_index(tokens@, id@, tokens.len() as int) == last_token_index(
                tokens@,
                id@,
                n as int,
            ),
        decreases n,
    {
        if str_eq(tokens[n - 1].account_id.as_str(), id) {
            return Some(n - 1);
        }
        n -= 1;
    }
    None
}

/// The position of the usage snapshot of an account.
pub fn find_usage(snaps: &Vec<UsageSnapshotRecord>, id: &str) -> (out: Option<usize>)
    ensures
        match out {
            Some(k) => k == last_usage_index(snaps@, id@, snaps.len() as int),
            None => last_usage_index(snaps@, id@, snaps.len() as int) == -1,
        },
{
    let mut n: usize = snaps.len();
    while n > 0
        invariant
            n <= snaps.len(),
            last_usage_index(snaps@, id@, snaps.len() as int) == last_usage_index(
                snaps@,
                id@,
                n as int,
            ),
        decreases n,
    {
        if str_eq(snaps[n - 1].account_id.as_str(), id) {
            return Some(n - 1);
        }
        n -= 1;
    }
    None
}

proof fn lemma_last_token_index_bounds(tokens: Seq<Token>, id: Seq<char>, n: int)
    requires
        0 <= n <= tokens.len(),
    ensures
        -1 <= last_token_index(tokens, id, n) < n,
    decreases n,
{
    if n > 0 && tokens[n - 1].account_id@ != id {
        lemma_last_token_index_bounds(tokens, id, n - 1);
    }
}

proof fn lemma_last_usage_index_bounds(snaps: Seq<UsageSnapshotRecord>, id: Seq<char>, n: int)
    requires
        0 <= n <= snaps.len(),
    ensures
        -1 <= last_usage_index(snaps, id, n) < n,
    decreases n,
{
    if n > 0 && snaps[n - 1].account_id@ != id {
        lemma_last_usage_index_bounds(snaps, id, n - 1);
    }
}

fn collect_eligible(
    accounts: &Vec<Account>,
    tokens: &Vec<Token>,
    snaps: &Vec<UsageSnapshotRecord>,
    cutoffs: UsageCutoffs,
    fallback: bool,
) -> (out: Vec<(Account, Token)>)
    ensures
        out@ == eligible_upto(accounts@, tokens@, snaps@, cutoffs, fallback, accounts.len() as int),
{
    let mut out: Vec<(Account, Token)> = Vec::new();
    let mut i: usize = 0;
    while i < accounts.len()
        invariant
            i <= accounts.len(),
            out@ == eligible_upto(accounts@, tokens@, snaps@, cutoffs, fallback, i as int),
        decreases accounts.len() - i,
    {
        let account = &accounts[i];
        proof {
            lemma_last_token_index_bounds(tokens@, account.id@, tokens.len() as int);
            lemma_last_usage_index_bounds(snaps@, account.id@, snaps.len() as int);
        }
        let status_ok = fallback || str_eq(account.status.as_str(), "active");
        if status_ok {
            if let Some(t) = find_token(tokens, account.id.as_str()) {
                let usage = match find_usage(snaps, account.id.as_str()) {
                    Some(u) => Some(&snaps[u]),
                    None => None,
                };
                let usage_ok = if fallback {
                    fallback_allowed(usage)
                } else {
                    is_available_with(usage, cutoffs)
                };
                if usage_ok {
                    out.push((account.clone(), tokens[t].clone()));
                }
            }
        }
        i += 1;
    }
    out
}

/// Selects the candidate accounts of a request from the rows of the store.
pub fn collect_gateway_candidates(
    accounts: &Vec<Account>,
    tokens: &Vec<Token>,
    snaps: &Vec<UsageSnapshotRecord>,
    cutoffs: UsageCutoffs,
) -> (out: Vec<(Account, Token)>)
    ensures
        out@ == gateway_candidates(accounts@, tokens@, snaps@, cutoffs),
{
    let primary = collect_eligible(accounts, tokens, snaps, cutoffs, false);
    if primary.len() > 0 {
        primary
    } else {
        collect_eligible(accounts, tokens, snaps, cutoffs, true)
    }
}

/// What the gateway reports of an account when it finds no candidate.
#[derive(Debug, Clone, Copy, PartialEq, Eq, Structural)]
pub struct CandidateReport {
    /// The position of the account in the list.
    pub account: usize,
    pub active: bool,
    pub has_token: bool,
    pub has_usage: bool,
    pub used_percent: Option<i64>,
    pub window_minutes: Option<i64>,
    pub secondary_used_percent: Option<i64>,
    pub secondary_window_minutes: Option<i64>,
}

/// The report on the account at position `i`: whether it is active, whether
/// it has a token and a usage snapshot, and what the snapshot says.
pub open spec fn report_of(
    accounts: Seq<Account>,
    tokens: Seq<Token>,
    snaps: Seq<UsageSnapshotRecord>,
    i: int,
) -> CandidateReport {
    let usage = usage_of(snaps, accounts[i].id@);
    CandidateReport {
        account: i as usize,
        active: accounts[i].status@ == "active"@,
        has_token: token_of(tokens, accounts[i].id@) is Some,
        has_usage: usage is Some,
        used_percent: match usage {
            Some(snap) => snap.used_percent,
            None => None,
        },
        window_minutes: match usage {
            Some(snap) => snap.window_minutes,
            None => None,
        },
        secondary_used_percent: match usage {
            Some(snap) => snap.secondary_used_percent,
            None => None,
        },
        secondary_window_minutes: match usage {
            Some(snap) => snap.secondary_window_minutes,
            None => None,
        },
    }
}

/// Reports on every account, in the listed order, for the diagnosis of a
/// request that found no candidate.
pub fn log_no_candidates(
    accounts: &Vec<Account>,
    tokens: &Vec<Token>,
    snaps: &Vec<UsageSnapshotRecord>,
) -> (out: Vec<CandidateReport>)
    ensures
        out@.len() == accounts@.len(),
        forall|i: int|
            0 <= i < accounts@.len() ==> #[trigger] out@[i] == report_of(
                accounts@,
                tokens@,
                snaps@,
                i,
            ),
{
    let mut out: Vec<CandidateReport> = Vec::new();
    let mut i: usize = 0;
    while i < accounts.len()
        invariant
            i <= accounts.len(),
            out@.len() == i,
            forall|k: int|
                0 <= k < i ==> #[trigger] out@[k] == report_of(accounts@, tokens@, snaps@, k),
        decreases accounts.len() - i,
    {
        let account = &accounts[i];
        proof {
            lemma_last_usage_index_bounds(snaps@, account.id@, snaps.len() as int);
        }
        let has_token = find_token(tokens, account.id.as_str()).is_some();
        let usage = match find_usage(snaps, account.id.as_str()) {
            Some(u) => Some(&snaps[u]),
            None => None,
        };
        let report = CandidateReport {
            account: i,
            active: str_eq(account.status.as_str(), "active"),
            has_token,
            has_usage: usage.is_some(),
            used_percent: match usage {
                Some(snap) => snap.used_percent,
                None => None,
            },
            window_minutes: match usage {
                Some(snap) => snap.window_minutes,
                None => None,
            },
            secondary_used_percent: match usage {
                Some(snap) => snap.secondary_used_percent,
                None => None,
            },
            secondary_window_minutes: match usage {
                Some(snap) => snap.secondary_window_minutes,
                None => None,
            },
        };
        out.push(report);
        i += 1;
    }
    out
}

/// The process-wide counter of candidate selections.
#[derive(Debug, Clone, Copy, PartialEq, Eq, Structural)]
pub struct FairnessCursor {
    pub position: usize,
}

/// `s` rotated to the left by `offset` places.
pub open spec fn rotated<T>(s: Seq<T>, offset: int) -> Seq<T> {
    s.subrange(offset, s.len() as int) + s.subrange(0, offset)
}

/// The counter after one more selection; it wraps around at the end of its
/// range.
pub open spec fn advanced(cursor: FairnessCursor) -> FairnessCursor {
    FairnessCursor {
        position: if cursor.position == usize::MAX {
            0
        } else {
            (cursor.position + 1) as usize
        },
    }
}

impl FairnessCursor {
    /// A counter at its start.
    pub fn new() -> (out: Self)
        ensures
            out.position == 0,
    {
        FairnessCursor { position: 0 }
    }

    /// Hands out the current position and moves on by one.
    pub fn take(&mut self) -> (out: usize)
        ensures
            out == old(self).position,
            *final(self) == advanced(*old(self)),
    {
        let at = self.position;
        self.position = if at == usize::MAX {
            0
        } else {
            at + 1
        };
        at
    }
}

/// The list as a selection at the given cursor position leaves it: a list
/// of two or more candidates is rotated to the left by the position modulo
/// its length, so that it holds the same pairs in the same cyclic order; a
/// shorter list is itself.
pub open spec fn fairly_rotated<T>(s: Seq<T>, position: int) -> Seq<T> {
    if s.len() <= 1 {
        s
    } else {
        rotated(s, position % (s.len() as int))
    }
}

/// Rotates the candidates for one selection and advances the cursor: the
/// cursor moves on by one on every call, whatever the length of the list.
pub fn rotate_candidates_for_fairness(
    candidates: &mut Vec<(Account, Token)>,
    cursor: &mut FairnessCursor,
)
    ensures
        final(candidates)@ == fairly_rotated(old(candidates)@, old(cursor).position as int),
        *final(cursor) == advanced(*old(cursor)),
{
    let at = cursor.take();
    if candidates.len() <= 1 {
        return ;
    }
    let offset = at % candidates.len();
    let ghost before = candidates@;
    let mut moved: usize = 0;
    assert(candidates@ =~= rotated(before, 0));
    while moved < offset
        invariant
            moved <= offset < before.len(),
            candidates@ == rotated(before, moved as int),
        decreases offset - moved,
    {
        let first = candidates.remove(0);
        candidates.push(first);
        assert(candidates@ =~= rotated(before, moved + 1));
        moved += 1;
    }
}

/// A rotated list holds every candidate of the list once, at the place that
/// the rotation gives it: none is lost and none is doubled.
pub proof fn lemma_rotation_keeps_every_candidate<T>(s: Seq<T>, position: int, i: int)
    requires
        position >= 0,
        0 <= i < s.len(),
    ensures
        fairly_rotated(s, position).len() == s.len(),
        fairly_rotated(s, position)[i] == s[(i + position % (s.len() as int)) % (s.len() as int)],
{
    let len = s.len() as int;
    let offset = position % len;
    if len > 1 {
        assert(0 <= offset < len);
        if i + offset < len {
            assert((i + offset) % len == i + offset) by (nonlinear_arith)
                requires
                    0 <= i + offset < len,
            ;
        } else {
            assert((i + offset) % len == i + offset - len) by (nonlinear_arith)
                requires
                    len <= i + offset < 2 * len,
            ;
        }
    } else {
        assert(i == 0 && offset == 0);
    }
}

/// While the cursor does not wrap, selections that follow one another
/// within the length of the list start on different candidates: the `i`-th
/// and the `j`-th selection from a cursor position on put different places of
/// the list first.
pub proof fn lemma_consecutive_rotations_start_apart<T>(s: Seq<T>, position: int, i: int, j: int)
    requires
        position >= 0,
        0 <= i < j < s.len(),
    ensures
        (position + i) % (s.len() as int) != (position + j) % (s.len() as int),
        fairly_rotated(s, position + i)[0] == s[(position + i) % (s.len() as int)],
        fairly_rotated(s, position + j)[0] == s[(position + j) % (s.len() as int)],
{
    let len = s.len() as int;
    assert((position + i) % len != (position + j) % len) by (nonlinear_arith)
        requires
            len > 0,
            position >= 0,
            0 <= i < j < len,
    ;
    assert(0 <= (position + i) % len < len && 0 <= (position + j) % len < len)
        by (nonlinear_arith)
        requires
            len > 0,
    ;
}

/// The cursor after `n` more selections.
pub open spec fn advanced_by(cursor: FairnessCursor, n: nat) -> FairnessCursor
    decreases n,
{
    if n == 0 {
        cursor
    } else {
        advanced(advanced_by(cursor, (n - 1) as nat))
    }
}

/// Short of the end of its range the cursor counts the selections: after
/// `n` of them it stands `n` places further on.
pub proof fn lemma_cursor_counts_selections(cursor: FairnessCursor, n: nat)
    requires
        cursor.position + n <= usize::MAX,
    ensures
        advanced_by(cursor, n).position == cursor.position + n,
    decreases n,
{
    if n > 0 {
        lemma_cursor_counts_selections(cursor, (n - 1) as nat);
    }
}

/// Over as many selections in a row as there are candidates, every
/// candidate comes first once: whichever candidate `j` is, one of the next
/// `len` positions of the cursor puts it at the head of the list.
pub proof fn lemma_rotation_reaches_every_candidate<T>(s: Seq<T>, position: int, j: int)
    requires
        position >= 0,
        0 <= j < s.len(),
    ensures
        exists|i: int| 0 <= i < s.len() && #[trigger] fairly_rotated(s, position + i)[0] == s[j],
{
    let len = s.len() as int;
    let i = (j - position) % len;
    assert(0 <= i < len && (position + i) % len == j) by (nonlinear_arith)
        requires
            len > 0,
            0 <= j < len,
            i == (j - position) % len,
    ;
    assert(rotated(s, j)[0] == s[j]);
    assert(fairly_rotated(s, position + i)[0] == s[j]);
}

} // verus!
