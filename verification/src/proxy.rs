//! The candidate loop of one request: which account is tried next, and what
//! the outcome of an attempt does to the loop and to the gateway's counters.

use vstd::prelude::*;
use crate::failover::{
    bytes_view, content_type_is_html, cooldown_reason_for_status, cooldown_reason_of,
    is_challenge, is_upstream_challenge_response, names_html, CooldownReason, InactiveReason,
};
use crate::rewrite::{fallback_eligible, should_try_openai_fallback};
use crate::gate::{
    account_inflight_count, acquire_account_inflight, record_gateway_cooldown_mark,
    record_gateway_failover_attempt, release_account_inflight, released, wrap_inc,
    GatewayMetrics,
};
use crate::records::{clone_text, Account, Token};
use crate::text::{owned_view, slice_view};
use crate::validation::LocalValidationResult;

verus! {

/// A candidate is passed over when a limit is set, the account has reached
/// it, and the candidate is not the last one: the last one is always tried.
pub open spec fn is_skipped(inflight: nat, idx: int, candidate_count: int, limit: usize) -> bool {
    limit > 0 && idx + 1 < candidate_count && inflight >= limit
}

/// Whether the candidate at `idx` is passed over for the load on its account.
pub fn should_skip_candidate_for_proxy(
    gate: &GatewayMetrics,
    account_id: &str,
    idx: usize,
    candidate_count: usize,
    account_max_inflight: usize,
) -> (out: bool)
    ensures
        out == is_skipped(
            gate.inflight_of(account_id@),
            idx as int,
            candidate_count as int,
            account_max_inflight,
        ),
{
    if account_max_inflight == 0 {
        return false;
    }
    if idx >= candidate_count || candidate_count - idx <= 1 {
        return false;
    }
    account_inflight_count(gate, account_id) >= account_max_inflight
}

/// The position from `from` on of the first candidate that is not passed
/// over, or the number of candidates where there is none.
pub open spec fn next_index(
    gate: GatewayMetrics,
    candidates: Seq<(Account, Token)>,
    from: int,
    limit: usize,
) -> int
    decreases candidates.len() - from,
{
    if from < 0 || from >= candidates.len() {
        candidates.len() as int
    } else if !is_skipped(
        gate.inflight_of(candidates[from].0.id@),
        from,
        candidates.len() as int,
        limit,
    ) {
        from
    } else {
        next_index(gate, candidates, from + 1, limit)
    }
}

/// While a candidate is left, one is tried: the load on the accounts never
/// leaves a request without an attempt.
pub proof fn lemma_some_candidate_is_tried(
    gate: GatewayMetrics,
    candidates: Seq<(Account, Token)>,
    from: int,
    limit: usize,
)
    requires
        0 <= from < candidates.len(),
    ensures
        from <= next_index(gate, candidates, from, limit) < candidates.len(),
    decreases candidates.len() - from,
{
    if is_skipped(gate.inflight_of(candidates[from].0.id@), from, candidates.len() as int, limit) {
        lemma_some_candidate_is_tried(gate, candidates, from + 1, limit);
    }
}

/// How an attempt on one candidate ended.
#[derive(Debug)]
pub enum CandidateOutcome {
    /// The upstream answer goes back to the client.
    RespondUpstream,
    /// The candidate is abandoned for the given reason.
    Failover { cooldown: CooldownReason },
    /// The request ends with this answer.
    Terminal { status_code: u16, message: String },
}

/// What the loop asks of its caller.
#[derive(Debug)]
pub enum ProxyStep {
    /// Try the candidate at `index`, whose account now counts one more
    /// request in flight. The session headers are held back on every attempt
    /// but the first candidate's.
    Attempt { index: usize, strip_session_affinity: bool, has_more: bool },
    /// Answer with 503: no candidate is left.
    Exhausted,
}

/// What remains to do after an attempt.
#[derive(Debug)]
pub enum Settled {
    /// Hand the upstream answer to the client, and release the account of the
    /// candidate at `index` once the body has been passed on.
    Respond { index: usize },
    /// Go on to the next candidate.
    Continue,
    /// Answer with this status and message.
    Terminal { status_code: u16, message: String },
}

/// The status of the answer when no candidate is left.
pub const EXHAUSTED_STATUS: u16 = 503;

/// The message of the answer when no candidate is left.
pub const EXHAUSTED_MESSAGE: &'static str = "no available account";

/// The place of one request in its list of candidates.
#[derive(Debug, Clone, Copy, PartialEq, Eq, Structural)]
pub struct CandidateLoop {
    /// The position of the next candidate to look at.
    pub next: usize,
    /// The most requests in flight on one account; 0 sets no limit.
    pub max_inflight: usize,
}

impl CandidateLoop {
    /// A loop before its first attempt.
    pub fn new(max_inflight: usize) -> (out: Self)
        ensures
            out == (CandidateLoop { next: 0, max_inflight }),
    {
        CandidateLoop { next: 0, max_inflight }
    }

    /// Picks the next candidate: the first from `next` on that is not passed
    /// over. Its account counts one more request in flight. Where none is left
    /// the loop is exhausted and the counters stay as they are.
    pub fn next_attempt(&mut self, candidates: &Vec<(Account, Token)>, gate: &mut GatewayMetrics) -> (out:
        ProxyStep)
        requires
            old(gate).inflight_total() < usize::MAX,
        ensures
            final(self).max_inflight == old(self).max_inflight,
            final(gate).same_counters(old(gate)),
            ({
                let k = next_index(
                    *old(gate),
                    candidates@,
                    old(self).next as int,
                    old(self).max_inflight,
                );
                if k < candidates.len() {
                    &&& out == (ProxyStep::Attempt {
                        index: k as usize,
                        strip_session_affinity: k > 0,
                        has_more: k + 1 < candidates.len(),
                    })
                    &&& final(self).next == k + 1
                    &&& final(gate).inflight_of(candidates@[k].0.id@) == old(gate).inflight_of(
                        candidates@[k].0.id@,
                    ) + 1
                    &&& final(gate).inflight_total() == old(gate).inflight_total() + 1
                    &&& forall|id: Seq<char>|
                        id != candidates@[k].0.id@ ==> final(gate).inflight_of(id) == old(
                            gate,
                        ).inflight_of(id)
                } else {
                    &&& out == ProxyStep::Exhausted
                    &&& final(self).next == old(self).next
                    &&& final(gate).same_inflight(old(gate))
                }
            }),
    {
        let count = candidates.len();
        let mut idx: usize = self.next;
        while idx < count
            invariant
                count == candidates.len(),
                self.next <= idx,
                *gate == *old(gate),
                gate.inflight_total() < usize::MAX,
                *self == *old(self),
                next_index(*old(gate), candidates@, old(self).next as int, old(self).max_inflight)
                    == next_index(*old(gate), candidates@, idx as int, old(self).max_inflight),
            decreases count - idx,
        {
            let id = candidates[idx].0.id.as_str();
            if !should_skip_candidate_for_proxy(gate, id, idx, count, self.max_inflight) {
                acquire_account_inflight(gate, id);
                self.next = idx + 1;
                return ProxyStep::Attempt {
                    index: idx,
                    strip_session_affinity: idx > 0,
                    has_more: count - idx > 1,
                };
            }
            idx += 1;
        }
        ProxyStep::Exhausted
    }
}

/// The text of what remains to do after an attempt.
pub enum SettledView {
    Respond { index: usize },
    Continue,
    Terminal { status_code: u16, message: Seq<char> },
}

impl View for Settled {
    type V = SettledView;

    open spec fn view(&self) -> SettledView {
        match *self {
            Settled::Respond { index } => SettledView::Respond { index },
            Settled::Continue => SettledView::Continue,
            Settled::Terminal { status_code, message } => SettledView::Terminal {
                status_code,
                message: message@,
            },
        }
    }
}

/// Takes in the outcome of the attempt on the candidate at `index`.
///
/// An upstream answer that goes back to the client leaves everything as it
/// is: the account stays counted until the caller has passed the body on. A
/// failover releases the account, counts one failover attempt, counts one
/// cooldown mark unless the reason is the default one, and lets the loop go
/// on. A terminal answer releases the account and ends the request.
pub fn settle_attempt(
    index: usize,
    outcome: CandidateOutcome,
    candidates: &Vec<(Account, Token)>,
    gate: &mut GatewayMetrics,
) -> (out: Settled)
    ensures
        final(gate).total_requests() == old(gate).total_requests(),
        final(gate).active_requests() == old(gate).active_requests(),
        match outcome {
            CandidateOutcome::RespondUpstream => {
                &&& out@ == (SettledView::Respond { index })
                &&& final(gate).same_counters(old(gate))
                &&& final(gate).same_inflight(old(gate))
            },
            CandidateOutcome::Failover { cooldown } => {
                &&& out@ == SettledView::Continue
                &&& final(gate).failover_attempts() == wrap_inc(old(gate).failover_attempts())
                &&& final(gate).cooldown_marks() == if cooldown == CooldownReason::Default {
                    old(gate).cooldown_marks()
                } else {
                    wrap_inc(old(gate).cooldown_marks())
                }
                &&& index < candidates.len() ==> released(
                    *old(gate),
                    *final(gate),
                    candidates@[index as int].0.id@,
                )
                &&& index >= candidates.len() ==> final(gate).same_inflight(old(gate))
            },
            CandidateOutcome::Terminal { status_code, message } => {
                &&& out@ == (SettledView::Terminal { status_code, message: message@ })
                &&& final(gate).same_counters(old(gate))
                &&& index < candidates.len() ==> released(
                    *old(gate),
                    *final(gate),
                    candidates@[index as int].0.id@,
                )
                &&& index >= candidates.len() ==> final(gate).same_inflight(old(gate))
            },
        },
{
    match outcome {
        CandidateOutcome::RespondUpstream => Settled::Respond { index },
        CandidateOutcome::Failover { cooldown } => {
            if index < candidates.len() {
                release_account_inflight(gate, candidates[index].0.id.as_str());
            }
            record_gateway_failover_attempt(gate);
            match cooldown {
                CooldownReason::Default => {},
                _ => {
                    record_gateway_cooldown_mark(gate);
                },
            }
            Settled::Continue
        },
        CandidateOutcome::Terminal { status_code, message } => {
            if index < candidates.len() {
                release_account_inflight(gate, candidates[index].0.id.as_str());
            }
            Settled::Terminal { status_code, message }
        },
    }
}

/// Which URL an attempt has called.
#[derive(Debug, Clone, Copy, PartialEq, Eq, Structural)]
pub enum UpstreamStage {
    /// The primary URL.
    Primary,
    /// The alternate URL, which keeps the path as the client sent it.
    Alternate,
    /// The same path on the fallback base.
    Fallback,
}

/// Where the same candidate is tried next after an answer, if anywhere. An
/// HTML answer from the primary URL sends the request to the alternate URL
/// where there is one. Otherwise an answer whose status gives a cooldown
/// reason sends it to the fallback base, once, where the request is eligible
/// for it.
pub open spec fn next_stage(
    stage: UpstreamStage,
    status: u16,
    content_type: Option<Seq<u8>>,
    has_alternate: bool,
    base: Seq<char>,
    path: Seq<char>,
) -> Option<UpstreamStage> {
    if stage == UpstreamStage::Primary && has_alternate && names_html(content_type) {
        Some(UpstreamStage::Alternate)
    } else if stage != UpstreamStage::Fallback && cooldown_reason_of(status)
        != CooldownReason::Default && fallback_eligible(base, path, content_type) {
        Some(UpstreamStage::Fallback)
    } else {
        None
    }
}

/// Decides where the same candidate is tried next after an answer.
pub fn next_upstream_stage(
    stage: UpstreamStage,
    status: u16,
    content_type: Option<&[u8]>,
    has_alternate: bool,
    base: &str,
    path: &str,
) -> (out: Option<UpstreamStage>)
    ensures
        out == next_stage(stage, status, bytes_view(content_type), has_alternate, base@, path@),
{
    let is_primary = match stage {
        UpstreamStage::Primary => true,
        _ => false,
    };
    let is_fallback = match stage {
        UpstreamStage::Fallback => true,
        _ => false,
    };
    if is_primary && has_alternate && content_type_is_html(content_type) {
        return Some(UpstreamStage::Alternate);
    }
    let failed = match cooldown_reason_for_status(status) {
        CooldownReason::Default => false,
        _ => true,
    };
    if !is_fallback && failed && should_try_openai_fallback(base, path, content_type) {
        return Some(UpstreamStage::Fallback);
    }
    None
}

/// What the last answer of an attempt means for its candidate.
#[derive(Debug, Clone, Copy, PartialEq, Eq, Structural)]
pub enum AnswerReading {
    /// The answer goes back to the client.
    Respond,
    /// The candidate is abandoned for the given reason.
    Failover { cooldown: CooldownReason },
    /// The usage of the account is refreshed, and the refresh decides.
    Refresh { cooldown: CooldownReason },
}

/// The reading of an answer. A status without a cooldown reason goes back
/// to the client. A challenge abandons the candidate, as a rate limit where
/// the status is 429 and as a challenge otherwise, and so does a fault of the
/// upstream. Any other client fault waits for the usage refresh.
pub open spec fn reading_of(status: u16, content_type: Option<Seq<u8>>) -> AnswerReading {
    let reason = cooldown_reason_of(status);
    if reason == CooldownReason::Default {
        AnswerReading::Respond
    } else if is_challenge(status, content_type) {
        AnswerReading::Failover {
            cooldown: if status == 429 {
                CooldownReason::RateLimited
            } else {
                CooldownReason::Challenge
            },
        }
    } else if reason == CooldownReason::Upstream5xx {
        AnswerReading::Failover { cooldown: CooldownReason::Upstream5xx }
    } else {
        AnswerReading::Refresh { cooldown: reason }
    }
}

/// Reads the last answer of an attempt.
pub fn read_upstream_answer(status: u16, content_type: Option<&[u8]>) -> (out: AnswerReading)
    ensures
        out == reading_of(status, bytes_view(content_type)),
{
    let reason = cooldown_reason_for_status(status);
    match reason {
        CooldownReason::Default => AnswerReading::Respond,
        _ => {
            if is_upstream_challenge_response(status, content_type) {
                if status == 429 {
                    AnswerReading::Failover { cooldown: CooldownReason::RateLimited }
                } else {
                    AnswerReading::Failover { cooldown: CooldownReason::Challenge }
                }
            } else {
                match reason {
                    CooldownReason::Upstream5xx => AnswerReading::Failover {
                        cooldown: CooldownReason::Upstream5xx,
                    },
                    _ => AnswerReading::Refresh { cooldown: reason },
                }
            }
        },
    }
}

/// The outcome of an attempt whose answer waited for the usage refresh: a
/// verdict that marks the account inactive abandons the candidate, and
/// without one the answer goes back to the client as it is.
pub fn outcome_after_refresh(cooldown: CooldownReason, verdict: Option<InactiveReason>) -> (out:
    CandidateOutcome)
    ensures
        match verdict {
            Some(_) => out == (CandidateOutcome::Failover { cooldown }),
            None => out == CandidateOutcome::RespondUpstream,
        },
{
    match verdict {
        Some(_) => CandidateOutcome::Failover { cooldown },
        None => CandidateOutcome::RespondUpstream,
    }
}

/// The outcome of an attempt that got no answer, or no bearer: the
/// candidate is abandoned. A transport fault counts as a fault of the
/// upstream; a bearer that could not be resolved gives no cooldown.
pub fn outcome_without_answer(transport_fault: bool) -> (out: CandidateOutcome)
    ensures
        out == (CandidateOutcome::Failover {
            cooldown: if transport_fault {
                CooldownReason::Upstream5xx
            } else {
                CooldownReason::Default
            },
        }),
{
    if transport_fault {
        CandidateOutcome::Failover { cooldown: CooldownReason::Upstream5xx }
    } else {
        CandidateOutcome::Failover { cooldown: CooldownReason::Default }
    }
}

/// The row that the request log gets for one gateway request.
#[derive(Debug)]
pub struct RequestLog {
    pub key_id: Option<String>,
    pub request_path: String,
    pub method: String,
    pub model: Option<String>,
    pub reasoning_effort: Option<String>,
    pub upstream_url: Option<String>,
    pub status_code: Option<u16>,
    pub error: Option<String>,
    pub created_at: i64,
}

/// `row` is the log row of a request that ended with the given status.
pub open spec fn logs_request(
    row: RequestLog,
    request: LocalValidationResult,
    upstream_url: Option<Seq<char>>,
    status_code: u16,
    error: Option<Seq<char>>,
    created_at: i64,
) -> bool {
    &&& owned_view(row.key_id) == Some(request.key_id@)
    &&& row.request_path@ == request.path@
    &&& row.method@ == request.request_method@
    &&& owned_view(row.model) == owned_view(request.model_for_log)
    &&& owned_view(row.reasoning_effort) == owned_view(request.reasoning_for_log)
    &&& owned_view(row.upstream_url) == upstream_url
    &&& row.status_code == Some(status_code)
    &&& owned_view(row.error) == error
    &&& row.created_at == created_at
}

fn owned_text(text: Option<&str>) -> (out: Option<String>)
    ensures
        owned_view(out) == slice_view(text),
{
    match text {
        Some(t) => Some(t.to_string()),
        None => None,
    }
}

/// Makes the log row of a request: its key, path, method, model and effort,
/// the upstream URL where one is known, the final status, and the error
/// where there is one.
pub fn request_log_row(
    request: &LocalValidationResult,
    upstream_url: Option<&str>,
    status_code: u16,
    error: Option<&str>,
    created_at: i64,
) -> (out: RequestLog)
    ensures
        logs_request(
            out,
            *request,
            slice_view(upstream_url),
            status_code,
            slice_view(error),
            created_at,
        ),
{
    RequestLog {
        key_id: Some(request.key_id.clone()),
        request_path: request.path.clone(),
        method: request.request_method.clone(),
        model: clone_text(&request.model_for_log),
        reasoning_effort: clone_text(&request.reasoning_for_log),
        upstream_url: owned_text(upstream_url),
        status_code: Some(status_code),
        error: owned_text(error),
        created_at,
    }
}

/// Makes the log row of a request for which no candidate was left: status
/// 503 against the upstream base, with the error that says so.
pub fn exhausted_log_row(request: &LocalValidationResult, upstream_base: &str, created_at: i64) -> (out:
    RequestLog)
    ensures
        logs_request(
            out,
            *request,
            Some(upstream_base@),
            EXHAUSTED_STATUS,
            Some(EXHAUSTED_MESSAGE@),
            created_at,
        ),
{
    request_log_row(
        request,
        Some(upstream_base),
        EXHAUSTED_STATUS,
        Some(EXHAUSTED_MESSAGE),
        created_at,
    )
}

} // verus!
