//! Availability of an account as a function of its usage snapshots, and the
//! choice of the latest snapshot of each account.

use vstd::prelude::*;
use crate::records::UsageSnapshotRecord;

verus! {

/// A used percentage of exactly one hundred, in thousandths of a percent.
pub const FULL_USAGE: i64 = 100_000;

/// The used percentages from which a window counts as exhausted, in
/// thousandths of a percent.
#[derive(Debug, Clone, Copy, PartialEq, Eq, Structural)]
pub struct UsageCutoffs {
    pub primary: i64,
    pub secondary: i64,
}

/// Why a snapshot makes its account unavailable.
#[derive(Debug, Clone, Copy, PartialEq, Eq, Structural)]
pub enum UnavailableReason {
    MissingPrimary,
    MissingSecondary,
    ExhaustedPrimary,
    ExhaustedSecondary,
}

/// What the most recent snapshot of an account says of it.
#[derive(Debug, Clone, Copy, PartialEq, Eq, Structural)]
pub enum Availability {
    Available,
    Unavailable(UnavailableReason),
}

/// Both cutoffs at one hundred percent.
pub open spec fn full_cutoffs() -> UsageCutoffs {
    UsageCutoffs { primary: FULL_USAGE, secondary: FULL_USAGE }
}

/// The availability that a snapshot gives under the cutoffs: the primary
/// window must be known; a secondary window that is known in part must be
/// known in full; neither used percentage may have reached its cutoff.
pub open spec fn availability_of(snap: UsageSnapshotRecord, cutoffs: UsageCutoffs) -> Availability {
    if snap.used_percent is None || snap.window_minutes is None {
        Availability::Unavailable(UnavailableReason::MissingPrimary)
    } else if (snap.secondary_used_percent is Some || snap.secondary_window_minutes is Some) && (
    snap.secondary_used_percent is None || snap.secondary_window_minutes is None) {
        Availability::Unavailable(UnavailableReason::MissingSecondary)
    } else if snap.used_percent->0 >= cutoffs.primary {
        Availability::Unavailable(UnavailableReason::ExhaustedPrimary)
    } else if snap.secondary_used_percent is Some && snap.secondary_used_percent->0
        >= cutoffs.secondary {
        Availability::Unavailable(UnavailableReason::ExhaustedSecondary)
    } else {
        Availability::Available
    }
}

/// An account is available while it has no snapshot yet, or while its
/// snapshot says so.
pub open spec fn available_under(usage: Option<UsageSnapshotRecord>, cutoffs: UsageCutoffs) -> bool {
    match usage {
        None => true,
        Some(snap) => availability_of(snap, cutoffs) == Availability::Available,
    }
}

/// An account may serve as a fallback unless a used percentage of its
/// snapshot has reached one hundred.
pub open spec fn fallback_ok(usage: Option<UsageSnapshotRecord>) -> bool {
    match usage {
        None => true,
        Some(snap) => !(snap.used_percent is Some && snap.used_percent->0 >= FULL_USAGE) && !(
        snap.secondary_used_percent is Some && snap.secondary_used_percent->0 >= FULL_USAGE),
    }
}

impl UsageCutoffs {
    /// Cutoffs at one hundred percent for both windows.
    pub fn full() -> (out: Self)
        ensures
            out == full_cutoffs(),
    {
        UsageCutoffs { primary: FULL_USAGE, secondary: FULL_USAGE }
    }
}

impl UnavailableReason {
    /// The reason as it is recorded with the account.
    pub fn as_text(&self) -> (out: &'static str)
        ensures
            out@ == match *self {
                UnavailableReason::MissingPrimary => "usage_missing_primary"@,
                UnavailableReason::MissingSecondary => "usage_missing_secondary"@,
                UnavailableReason::ExhaustedPrimary => "usage_exhausted_primary"@,
                UnavailableReason::ExhaustedSecondary => "usage_exhausted_secondary"@,
            },
    {
        match self {
            UnavailableReason::MissingPrimary => "usage_missing_primary",
            UnavailableReason::MissingSecondary => "usage_missing_secondary",
            UnavailableReason::ExhaustedPrimary => "usage_exhausted_primary",
            UnavailableReason::ExhaustedSecondary => "usage_exhausted_secondary",
        }
    }
}

/// Evaluates a snapshot under the given cutoffs.
pub fn evaluate_snapshot_with(snap: &UsageSnapshotRecord, cutoffs: UsageCutoffs) -> (out:
    Availability)
    ensures
        out == availability_of(*snap, cutoffs),
{
    let primary_missing = snap.used_percent.is_none() || snap.window_minutes.is_none();
    if primary_missing {
        return Availability::Unavailable(UnavailableReason::MissingPrimary);
    }
    let secondary_present = snap.secondary_used_percent.is_some()
        || snap.secondary_window_minutes.is_some();
    let secondary_missing = snap.secondary_used_percent.is_none()
        || snap.secondary_window_minutes.is_none();
    if secondary_present && secondary_missing {
        return Availability::Unavailable(UnavailableReason::MissingSecondary);
    }
    if let Some(value) = snap.used_percent {
        if value >= cutoffs.primary {
            return Availability::Unavailable(UnavailableReason::ExhaustedPrimary);
        }
    }
    if let Some(value) = snap.secondary_used_percent {
        if value >= cutoffs.secondary {
            return Availability::Unavailable(UnavailableReason::ExhaustedSecondary);
        }
    }
    Availability::Available
}

/// Evaluates a snapshot with both cutoffs at one hundred percent.
pub fn evaluate_snapshot(snap: &UsageSnapshotRecord) -> (out: Availability)
    ensures
        out == availability_of(*snap, full_cutoffs()),
{
    evaluate_snapshot_with(snap, UsageCutoffs::full())
}

/// Whether an account with this latest snapshot, if any, is available under
/// the given cutoffs.
pub fn is_available_with(usage: Option<&UsageSnapshotRecord>, cutoffs: UsageCutoffs) -> (out: bool)
    ensures
        out == available_under(
            match usage {
                Some(snap) => Some(*snap),
                None => None,
            },
            cutoffs,
        ),
{
    match usage {
        None => true,
        Some(snap) => match evaluate_snapshot_with(snap, cutoffs) {
            Availability::Available => true,
            Availability::Unavailable(_) => false,
        },
    }
}

/// Whether an account with this latest snapshot, if any, is available.
pub fn is_available(usage: Option<&UsageSnapshotRecord>) -> (out: bool)
    ensures
        out == available_under(
            match usage {
                Some(snap) => Some(*snap),
                None => None,
            },
            full_cutoffs(),
        ),
{
    is_available_with(usage, UsageCutoffs::full())
}

/// Whether an account with this latest snapshot, if any, may serve as a
/// fallback candidate.
pub fn fallback_allowed(usage: Option<&UsageSnapshotRecord>) -> (out: bool)
    ensures
        out == fallback_ok(
            match usage {
                Some(snap) => Some(*snap),
                None => None,
            },
        ),
{
    if let Some(record) = usage {
        if let Some(value) = record.used_percent {
            if value >= FULL_USAGE {
                return false;
            }
        }
        if let Some(value) = record.secondary_used_percent {
            if value >= FULL_USAGE {
                return false;
            }
        }
    }
    true
}

/// Row `j` is a newer reading than row `i`: captured later, or captured at
/// the same time and inserted later. Rows stand in the order of insertion.
pub open spec fn newer(rows: Seq<UsageSnapshotRecord>, j: int, i: int) -> bool {
    rows[j].captured_at > rows[i].captured_at || (rows[j].captured_at == rows[i].captured_at && j
        > i)
}

/// Row `i` is the latest reading of its account: no row of the same account
/// is newer.
pub open spec fn is_latest(rows: Seq<UsageSnapshotRecord>, i: int) -> bool {
    &&& 0 <= i < rows.len()
    &&& forall|j: int|
        0 <= j < rows.len() && (#[trigger] rows[j]).account_id@ == rows[i].account_id@ ==> !newer(
            rows,
            j,
            i,
        )
}

/// `picks` lists the latest row of every account once, newest first.
pub open spec fn latest_picks(rows: Seq<UsageSnapshotRecord>, picks: Seq<usize>) -> bool {
    &&& forall|k: int| 0 <= k < picks.len() ==> is_latest(rows, #[trigger] picks[k] as int)
    &&& forall|i: int| #[trigger] is_latest(rows, i) ==> picks.contains(i as usize)
    &&& forall|k: int, l: int|
        0 <= k < l < picks.len() ==> newer(rows, #[trigger] picks[k] as int, #[trigger] picks[l] as int)
}

/// Whether row `i` is the latest reading of its account.
pub fn row_is_latest(rows: &Vec<UsageSnapshotRecord>, i: usize) -> (out: bool)
    ensures
        out == is_latest(rows@, i as int),
{
    if i >= rows.len() {
        return false;
    }
    let mut j: usize = 0;
    while j < rows.len()
        invariant
            i < rows.len(),
            j <= rows.len(),
            forall|k: int|
                0 <= k < j && (#[trigger] rows@[k]).account_id@ == rows@[i as int].account_id@
                    ==> !newer(rows@, k, i as int),
        decreases rows.len() - j,
    {
        if rows[j].account_id == rows[i].account_id {
            if rows[j].captured_at > rows[i].captured_at || (rows[j].captured_at
                == rows[i].captured_at && j > i) {
                assert(newer(rows@, j as int, i as int));
                return false;
            }
        }
        j += 1;
    }
    true
}

/// The positions of the latest row of every account, newest first.
pub fn latest_usage_order(rows: &Vec<UsageSnapshotRecord>) -> (out: Vec<usize>)
    ensures
        latest_picks(rows@, out@),
{
    let mut out: Vec<usize> = Vec::new();
    let mut i: usize = 0;
    while i < rows.len()
        invariant
            i <= rows.len(),
            forall|k: int| 0 <= k < out.len() ==> is_latest(rows@, #[trigger] out@[k] as int),
            forall|k: int| 0 <= k < out.len() ==> (#[trigger] out@[k]) < i,
            forall|r: int| 0 <= r < i && #[trigger] is_latest(rows@, r) ==> out@.contains(r as usize),
            forall|k: int, l: int|
                0 <= k < l < out.len() ==> newer(
                    rows@,
                    #[trigger] out@[k] as int,
                    #[trigger] out@[l] as int,
                ),
        decreases rows.len() - i,
    {
        if row_is_latest(rows, i) {
            let mut p: usize = 0;
            while p < out.len() && !(rows[i].captured_at > rows[out[p]].captured_at || (
            rows[i].captured_at == rows[out[p]].captured_at && i > out[p]))
                invariant
                    i < rows.len(),
                    p <= out.len(),
                    forall|k: int| 0 <= k < out.len() ==> (#[trigger] out@[k]) < i,
                    forall|k: int| 0 <= k < p ==> newer(rows@, #[trigger] out@[k] as int, i as int),
                decreases out.len() - p,
            {
                p += 1;
            }
            let ghost before = out@;
            out.insert(p, i);
            assert(out@ == before.insert(p as int, i));
            assert forall|k: int, l: int| 0 <= k < l < out.len() implies newer(
                rows@,
                #[trigger] out@[k] as int,
                #[trigger] out@[l] as int,
            ) by {
                if l < p {
                    assert(out@[k] == before[k] && out@[l] == before[l]);
                } else if l == p {
                    assert(out@[k] == before[k]);
                } else if k < p {
                    assert(out@[k] == before[k] && out@[l] == before[l - 1]);
                } else if k == p {
                    assert(out@[l] == before[l - 1]);
                    assert(newer(rows@, i as int, before[p as int] as int));
                    if l - 1 > p {
                        assert(newer(rows@, before[p as int] as int, before[l - 1] as int));
                    }
                } else {
                    assert(out@[k] == before[k - 1] && out@[l] == before[l - 1]);
                }
            }
            assert forall|r: int| 0 <= r < i + 1 && #[trigger] is_latest(rows@, r) implies out@.contains(
                r as usize,
            ) by {
                if r == i {
                    assert(out@[p as int] == i);
                } else {
                    assert(before.contains(r as usize));
                    let w = choose|w: int| 0 <= w < before.len() && before[w] == r as usize;
                    if w < p {
                        assert(out@[w] == r as usize);
                    } else {
                        assert(out@[w + 1] == r as usize);
                    }
                }
            }
            assert forall|k: int| 0 <= k < out.len() implies is_latest(
                rows@,
                #[trigger] out@[k] as int,
            ) && out@[k] < i + 1 by {
                if k < p {
                    assert(out@[k] == before[k]);
                } else if k > p {
                    assert(out@[k] == before[k - 1]);
                }
            }
        }
        i += 1;
    }
    assert forall|r: int| #[trigger] is_latest(rows@, r) implies out@.contains(r as usize) by {}
    out
}

/// The latest snapshot of every account, newest first.
pub fn latest_usage_snapshots_by_account(rows: &Vec<UsageSnapshotRecord>) -> (out: Vec<
    UsageSnapshotRecord,
>)
    ensures
        exists|picks: Seq<usize>|
            {
                &&& latest_picks(rows@, picks)
                &&& out@.len() == picks.len()
                &&& forall|k: int| 0 <= k < picks.len() ==> out@[k] == rows@[#[trigger] picks[k] as int]
            },
{
    let picks = latest_usage_order(rows);
    let mut out: Vec<UsageSnapshotRecord> = Vec::new();
    let mut k: usize = 0;
    while k < picks.len()
        invariant
            k <= picks.len(),
            latest_picks(rows@, picks@),
            out@.len() == k,
            forall|m: int| 0 <= m < k ==> out@[m] == rows@[#[trigger] picks@[m] as int],
        decreases picks.len() - k,
    {
        assert(is_latest(rows@, picks@[k as int] as int));
        out.push(rows[picks[k]].clone());
        k += 1;
    }
    assert(latest_picks(rows@, picks@) && out@.len() == picks@.len());
    out
}

/// Of two rows of one account captured at the same time, the one inserted
/// first is not the latest: the later-inserted row wins.
pub proof fn lemma_later_row_wins(rows: Seq<UsageSnapshotRecord>, i: int, j: int)
    requires
        0 <= i < j < rows.len(),
        rows[i].account_id@ == rows[j].account_id@,
        rows[i].captured_at == rows[j].captured_at,
    ensures
        !is_latest(rows, i),
{
    assert(newer(rows, j, i));
}

/// The latest rows hold at most one row of each account.
pub proof fn lemma_latest_is_unique(rows: Seq<UsageSnapshotRecord>, i: int, j: int)
    requires
        is_latest(rows, i),
        is_latest(rows, j),
        rows[i].account_id@ == rows[j].account_id@,
    ensures
        i == j,
{
    if i != j {
        assert(newer(rows, i, j) || newer(rows, j, i));
    }
}

} // verus!
