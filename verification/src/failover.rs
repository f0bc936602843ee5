//! How the gateway reads an upstream answer: the cooldown reason of a
//! status, challenge detection, and the verdict after a usage refresh.

use vstd::prelude::*;
use crate::records::UsageSnapshotRecord;
use crate::text::{
    chars_of, has_prefix, is_prefix_of, lower, lower_between, str_eq, str_starts_with, trim_range,
    trimmed,
};
use crate::usage::{
    availability_of, evaluate_snapshot, full_cutoffs, Availability, UnavailableReason,
};

verus! {

/// Why an account is put on cooldown.
#[derive(Debug, Clone, Copy, PartialEq, Eq, Structural)]
pub enum CooldownReason {
    Default,
    RateLimited,
    Upstream5xx,
    Upstream4xx,
    Challenge,
}

/// The cooldown reason of an upstream status: 429 is a rate limit, 5xx an
/// upstream fault, 403 a challenge, any other 4xx a client fault, and every
/// other status gives no cooldown.
pub open spec fn cooldown_reason_of(status: u16) -> CooldownReason {
    if status == 429 {
        CooldownReason::RateLimited
    } else if 500 <= status <= 599 {
        CooldownReason::Upstream5xx
    } else if status == 403 {
        CooldownReason::Challenge
    } else if 400 <= status <= 499 {
        CooldownReason::Upstream4xx
    } else {
        CooldownReason::Default
    }
}

/// Maps an upstream status to its cooldown reason.
pub fn cooldown_reason_for_status(status: u16) -> (out: CooldownReason)
    ensures
        out == cooldown_reason_of(status),
{
    if status == 429 {
        CooldownReason::RateLimited
    } else if 500 <= status && status <= 599 {
        CooldownReason::Upstream5xx
    } else if status == 403 {
        CooldownReason::Challenge
    } else if 400 <= status && status <= 499 {
        CooldownReason::Upstream4xx
    } else {
        CooldownReason::Default
    }
}

/// A content type names HTML when, trimmed and in lower case, it starts
/// with `text/html`.
pub open spec fn is_html(value: Seq<char>) -> bool {
    is_prefix_of("text/html"@, lower(trimmed(value)))
}

/// Whether a content type names HTML.
pub fn is_html_content_type(value: &str) -> (out: bool)
    ensures
        out == is_html(value@),
{
    let chars = chars_of(value);
    let (from, to) = trim_range(chars.as_slice());
    let folded = lower_between(chars.as_slice(), from, to);
    let prefix = chars_of("text/html");
    has_prefix(folded.as_slice(), prefix.as_slice())
}

/// A byte that may stand in the text form of a header value: visible ASCII
/// or a tab.
pub open spec fn is_visible_byte(b: u8) -> bool {
    (32 <= b && b < 127) || b == 9
}

/// The text of a header value, which it has when all its bytes are visible.
pub open spec fn header_text_of(bytes: Seq<u8>) -> Option<Seq<char>> {
    if forall|i: int| 0 <= i < bytes.len() ==> is_visible_byte(#[trigger] bytes[i]) {
        Some(Seq::new(bytes.len(), |i: int| bytes[i] as char))
    } else {
        None
    }
}

/// The text of a header value, or nothing where a byte of it is not visible.
pub fn header_value_text(bytes: &[u8]) -> (out: Option<Vec<char>>)
    ensures
        match out {
            Some(text) => header_text_of(bytes@) == Some(text@),
            None => header_text_of(bytes@) is None,
        },
{
    let mut text: Vec<char> = Vec::new();
    let mut i: usize = 0;
    while i < bytes.len()
        invariant
            i <= bytes.len(),
            text@.len() == i,
            forall|k: int| 0 <= k < i ==> is_visible_byte(#[trigger] bytes@[k]),
            forall|k: int| 0 <= k < i ==> text@[k] == bytes@[k] as char,
        decreases bytes.len() - i,
    {
        let b = bytes[i];
        if !((32 <= b && b < 127) || b == 9) {
            assert(!is_visible_byte(bytes@[i as int]));
            return None;
        }
        text.push(b as char);
        i += 1;
    }
    assert(text@ =~= Seq::new(bytes@.len(), |i: int| bytes@[i] as char));
    Some(text)
}

/// Whether a header value, if there is one and it has a text, names HTML.
pub open spec fn names_html(content_type: Option<Seq<u8>>) -> bool {
    match content_type {
        Some(bytes) => match header_text_of(bytes) {
            Some(text) => is_html(text),
            None => false,
        },
        None => false,
    }
}

/// Whether the content type header of an answer names HTML.
pub fn content_type_is_html(content_type: Option<&[u8]>) -> (out: bool)
    ensures
        out == names_html(bytes_view(content_type)),
{
    match content_type {
        Some(bytes) => match header_value_text(bytes) {
            Some(chars) => {
                let (from, to) = trim_range(chars.as_slice());
                let folded = lower_between(chars.as_slice(), from, to);
                let prefix = chars_of("text/html");
                has_prefix(folded.as_slice(), prefix.as_slice())
            },
            None => false,
        },
        None => false,
    }
}

/// An upstream answer is a challenge when its status is 429 or its content
/// type names HTML. A 403 with any other content type is none.
pub open spec fn is_challenge(status: u16, content_type: Option<Seq<u8>>) -> bool {
    status == 429 || names_html(content_type)
}

/// The view of an optional header value.
pub open spec fn bytes_view(value: Option<&[u8]>) -> Option<Seq<u8>> {
    match value {
        Some(bytes) => Some(bytes@),
        None => None,
    }
}

/// Whether an upstream answer is a challenge.
pub fn is_upstream_challenge_response(status_code: u16, content_type: Option<&[u8]>) -> (out: bool)
    ensures
        out == is_challenge(status_code, bytes_view(content_type)),
{
    let html = content_type_is_html(content_type);
    html || status_code == 429
}

/// Why the gateway marks an account inactive after a usage refresh.
#[derive(Debug, Clone, Copy, PartialEq, Eq, Structural)]
pub enum InactiveReason {
    Usage(UnavailableReason),
    MissingSnapshot,
    Unreachable,
}

impl InactiveReason {
    /// The reason as it is recorded with the account.
    pub fn as_text(&self) -> (out: &'static str)
        ensures
            out@ == match *self {
                InactiveReason::Usage(UnavailableReason::MissingPrimary) => "usage_missing_primary"@,
                InactiveReason::Usage(
                    UnavailableReason::MissingSecondary,
                ) => "usage_missing_secondary"@,
                InactiveReason::Usage(
                    UnavailableReason::ExhaustedPrimary,
                ) => "usage_exhausted_primary"@,
                InactiveReason::Usage(
                    UnavailableReason::ExhaustedSecondary,
                ) => "usage_exhausted_secondary"@,
                InactiveReason::MissingSnapshot => "usage_missing_snapshot"@,
                InactiveReason::Unreachable => "usage_unreachable"@,
            },
    {
        match self {
            InactiveReason::Usage(reason) => reason.as_text(),
            InactiveReason::MissingSnapshot => "usage_missing_snapshot",
            InactiveReason::Unreachable => "usage_unreachable",
        }
    }
}

/// The position from `from` on of the first snapshot of an account, or the
/// length of the list where there is none.
pub open spec fn first_usage_index(snaps: Seq<UsageSnapshotRecord>, id: Seq<char>, from: int) -> int
    decreases snaps.len() - from,
{
    if from < 0 || from >= snaps.len() {
        snaps.len() as int
    } else if snaps[from].account_id@ == id {
        from
    } else {
        first_usage_index(snaps, id, from + 1)
    }
}

/// The verdict after a usage refresh that an upstream failure set off.
/// After a refresh that succeeded, the first listed snapshot of the account
/// decides: one that makes it unavailable marks it inactive for that reason,
/// and none at all marks it inactive as well; a list that could not be read
/// counts as empty. After a refresh that failed, only an error that starts
/// with `usage endpoint status` marks the account inactive. Some reason
/// means: mark the account inactive for it and fail over; none means: stay.
pub open spec fn refresh_verdict(
    latest: Option<Seq<UsageSnapshotRecord>>,
    account_id: Seq<char>,
    refresh_result: Result<(), Seq<char>>,
) -> Option<InactiveReason> {
    match refresh_result {
        Ok(_) => {
            let snaps = match latest {
                Some(snaps) => snaps,
                None => Seq::empty(),
            };
            let k = first_usage_index(snaps, account_id, 0);
            if k < snaps.len() {
                match availability_of(snaps[k], full_cutoffs()) {
                    Availability::Unavailable(reason) => Some(InactiveReason::Usage(reason)),
                    Availability::Available => None,
                }
            } else {
                Some(InactiveReason::MissingSnapshot)
            }
        },
        Err(error) => if is_prefix_of("usage endpoint status"@, error) {
            Some(InactiveReason::Unreachable)
        } else {
            None
        },
    }
}

/// The text of a refresh result as the verdict reads it.
pub open spec fn refresh_result_view(refresh_result: Result<(), String>) -> Result<(), Seq<char>> {
    match refresh_result {
        Ok(_) => Ok(()),
        Err(error) => Err(error@),
    }
}

/// The position of the first listed snapshot of an account.
pub fn first_snapshot_of(snaps: &Vec<UsageSnapshotRecord>, account_id: &str) -> (out: Option<usize>)
    ensures
        match out {
            Some(k) => k < snaps.len() && k == first_usage_index(snaps@, account_id@, 0),
            None => first_usage_index(snaps@, account_id@, 0) == snaps.len(),
        },
{
    let mut i: usize = 0;
    while i < snaps.len()
        invariant
            i <= snaps.len(),
            first_usage_index(snaps@, account_id@, 0) == first_usage_index(
                snaps@,
                account_id@,
                i as int,
            ),
        decreases snaps.len() - i,
    {
        if str_eq(snaps[i].account_id.as_str(), account_id) {
            return Some(i);
        }
        i += 1;
    }
    None
}

/// Decides, after a usage refresh, whether the gateway leaves the account:
/// some reason says to mark it inactive for that reason and to fail over.
pub fn should_failover_after_refresh(
    latest: Option<&Vec<UsageSnapshotRecord>>,
    account_id: &str,
    refresh_result: &Result<(), String>,
) -> (out: Option<InactiveReason>)
    ensures
        out == refresh_verdict(
            match latest {
                Some(snaps) => Some(snaps@),
                None => None,
            },
            account_id@,
            refresh_result_view(*refresh_result),
        ),
{
    match refresh_result {
        Ok(_) => {
            match latest {
                Some(snaps) => match first_snapshot_of(snaps, account_id) {
                    Some(k) => match evaluate_snapshot(&snaps[k]) {
                        Availability::Unavailable(reason) => Some(InactiveReason::Usage(reason)),
                        Availability::Available => None,
                    },
                    None => Some(InactiveReason::MissingSnapshot),
                },
                None => Some(InactiveReason::MissingSnapshot),
            }
        },
        Err(error) => {
            if str_starts_with(error.as_str(), "usage endpoint status") {
                Some(InactiveReason::Unreachable)
            } else {
                None
            }
        },
    }
}

/// After a refresh that succeeded, an account whose snapshot does not know
/// the primary window is marked inactive and left, whatever the snapshot
/// says of the secondary window.
pub proof fn lemma_missing_primary_fails_over(
    latest: Seq<UsageSnapshotRecord>,
    account_id: Seq<char>,
)
    requires
        first_usage_index(latest, account_id, 0) < latest.len(),
        latest[first_usage_index(latest, account_id, 0)].used_percent is None,
    ensures
        refresh_verdict(Some(latest), account_id, Ok(())) == Some(
            InactiveReason::Usage(UnavailableReason::MissingPrimary),
        ),
{
}

/// After a refresh that succeeded, an account without any snapshot is
/// marked inactive and left.
pub proof fn lemma_missing_snapshot_fails_over(
    latest: Option<Seq<UsageSnapshotRecord>>,
    account_id: Seq<char>,
)
    requires
        latest matches Some(snaps) ==> first_usage_index(snaps, account_id, 0) >= snaps.len(),
    ensures
        refresh_verdict(latest, account_id, Ok(())) == Some(InactiveReason::MissingSnapshot),
{
    if latest is None {
        assert(first_usage_index(Seq::<UsageSnapshotRecord>::empty(), account_id, 0) == 0);
    }
}

} // verus!
