//! The gateway's process-wide counters and the per-account count of
//! requests in flight.

use vstd::prelude::*;
use vstd::string::StringExecFns;
use crate::text::{decimal, push_decimal, str_eq};

verus! {

/// A reading of all gateway counters at one moment.
#[derive(Clone, Copy, Debug, PartialEq, Eq, Structural)]
pub struct GatewayMetricsSnapshot {
    pub total_requests: usize,
    pub active_requests: usize,
    pub account_inflight_total: usize,
    pub failover_attempts: usize,
    pub cooldown_marks: usize,
}

/// The requests in flight on one account.
pub struct InflightEntry {
    pub account_id: String,
    pub count: usize,
}

/// The counters of the gateway and its table of requests in flight.
pub struct GatewayMetrics {
    total_requests: usize,
    active_requests: usize,
    failover_attempts: usize,
    cooldown_marks: usize,
    inflight: Vec<InflightEntry>,
}

/// A counter after one more event; it wraps around at the end of its range.
pub open spec fn wrap_inc(n: usize) -> usize {
    if n == usize::MAX {
        0
    } else {
        (n + 1) as usize
    }
}

/// A counter after one event has ended; it wraps around below zero.
pub open spec fn wrap_dec(n: usize) -> usize {
    if n == 0 {
        usize::MAX
    } else {
        (n - 1) as usize
    }
}

/// The count that the first `n` entries hold for an account.
pub open spec fn count_in(entries: Seq<InflightEntry>, id: Seq<char>, n: int) -> nat
    decreases n,
{
    if n <= 0 {
        0
    } else if entries[n - 1].account_id@ == id {
        entries[n - 1].count as nat
    } else {
        count_in(entries, id, n - 1)
    }
}

/// The sum of the counts of the first `n` entries.
pub open spec fn sum_in(entries: Seq<InflightEntry>, n: int) -> nat
    decreases n,
{
    if n <= 0 {
        0
    } else {
        sum_in(entries, n - 1) + entries[n - 1].count as nat
    }
}

/// No account has two entries, and no entry stands at zero.
pub open spec fn entries_wf(entries: Seq<InflightEntry>) -> bool {
    &&& forall|i: int| 0 <= i < entries.len() ==> (#[trigger] entries[i]).count >= 1
    &&& forall|i: int, j: int|
        0 <= i < j < entries.len() ==> (#[trigger] entries[i]).account_id@ != (
        #[trigger] entries[j]).account_id@
    &&& sum_in(entries, entries.len() as int) <= usize::MAX
}

/// The line of one series in the metrics text.
pub open spec fn metric_line(name: Seq<char>, value: nat) -> Seq<char> {
    name + seq![' '] + decimal(value) + seq!['\n']
}

/// The metrics text of a reading: one line for each of the five series.
pub open spec fn prometheus_text(m: GatewayMetricsSnapshot) -> Seq<char> {
    metric_line("gpttools_gateway_requests_total"@, m.total_requests as nat) + metric_line(
        "gpttools_gateway_requests_active"@,
        m.active_requests as nat,
    ) + metric_line("gpttools_gateway_account_inflight_total"@, m.account_inflight_total as nat)
        + metric_line("gpttools_gateway_failover_attempts_total"@, m.failover_attempts as nat)
        + metric_line("gpttools_gateway_cooldown_marks_total"@, m.cooldown_marks as nat)
}

impl GatewayMetrics {
    #[verifier::type_invariant]
    pub closed spec fn wf(&self) -> bool {
        entries_wf(self.inflight@)
    }

    pub closed spec fn total_requests(&self) -> usize {
        self.total_requests
    }

    pub closed spec fn active_requests(&self) -> usize {
        self.active_requests
    }

    pub closed spec fn failover_attempts(&self) -> usize {
        self.failover_attempts
    }

    pub closed spec fn cooldown_marks(&self) -> usize {
        self.cooldown_marks
    }

    /// The requests in flight on an account.
    pub closed spec fn inflight_of(&self, id: Seq<char>) -> nat {
        count_in(self.inflight@, id, self.inflight@.len() as int)
    }

    /// The requests in flight on all accounts together.
    pub closed spec fn inflight_total(&self) -> nat {
        sum_in(self.inflight@, self.inflight@.len() as int)
    }

    /// The reading that the counters give.
    pub open spec fn reading(&self) -> GatewayMetricsSnapshot {
        GatewayMetricsSnapshot {
            total_requests: self.total_requests(),
            active_requests: self.active_requests(),
            account_inflight_total: self.inflight_total() as usize,
            failover_attempts: self.failover_attempts(),
            cooldown_marks: self.cooldown_marks(),
        }
    }

    /// All counters at zero and nothing in flight.
    pub fn new() -> (out: Self)
        ensures
            out.total_requests() == 0,
            out.active_requests() == 0,
            out.failover_attempts() == 0,
            out.cooldown_marks() == 0,
            out.inflight_total() == 0,
            forall|id: Seq<char>| out.inflight_of(id) == 0,
    {
        GatewayMetrics {
            total_requests: 0,
            active_requests: 0,
            failover_attempts: 0,
            cooldown_marks: 0,
            inflight: Vec::new(),
        }
    }
}

proof fn lemma_count_at(entries: Seq<InflightEntry>, id: Seq<char>, k: int, n: int)
    requires
        entries_wf(entries),
        0 <= k < n <= entries.len(),
        entries[k].account_id@ == id,
    ensures
        count_in(entries, id, n) == entries[k].count,
    decreases n,
{
    if n - 1 != k {
        assert(entries[n - 1].account_id@ != entries[k].account_id@);
        lemma_count_at(entries, id, k, n - 1);
    }
}

proof fn lemma_count_absent(entries: Seq<InflightEntry>, id: Seq<char>, n: int)
    requires
        0 <= n <= entries.len(),
        forall|i: int| 0 <= i < n ==> (#[trigger] entries[i]).account_id@ != id,
    ensures
        count_in(entries, id, n) == 0,
    decreases n,
{
    if n > 0 {
        lemma_count_absent(entries, id, n - 1);
    }
}

proof fn lemma_sum_update(entries: Seq<InflightEntry>, k: int, entry: InflightEntry, n: int)
    requires
        0 <= k < entries.len(),
        0 <= n <= entries.len(),
    ensures
        sum_in(entries.update(k, entry), n) == if k < n {
            sum_in(entries, n) - entries[k].count + entry.count
        } else {
            sum_in(entries, n) as int
        },
        sum_in(entries, n) >= if k < n {
            entries[k].count as int
        } else {
            0
        },
    decreases n,
{
    if n > 0 {
        lemma_sum_update(entries, k, entry, n - 1);
    }
}

proof fn lemma_sum_remove(entries: Seq<InflightEntry>, k: int, n: int)
    requires
        0 <= k < entries.len(),
        0 <= n < entries.len(),
    ensures
        sum_in(entries.remove(k), n) == if k < n {
            sum_in(entries, n + 1) - entries[k].count
        } else {
            sum_in(entries, n) as int
        },
    decreases n,
{
    if n > 0 {
        lemma_sum_remove(entries, k, n - 1);
        assert(sum_in(entries, n + 1) == sum_in(entries, n) + entries[n].count);
        assert(sum_in(entries, n) == sum_in(entries, n - 1) + entries[n - 1].count);
        if k < n {
            assert(entries.remove(k)[n - 1] == entries[n]);
        } else {
            assert(entries.remove(k)[n - 1] == entries[n - 1]);
        }
    }
}

proof fn lemma_sum_push(entries: Seq<InflightEntry>, entry: InflightEntry, n: int)
    requires
        0 <= n <= entries.len(),
    ensures
        sum_in(entries.push(entry), n) == sum_in(entries, n),
    decreases n,
{
    if n > 0 {
        lemma_sum_push(entries, entry, n - 1);
    }
}

/// The count of an account is the count of its entry, and zero without one.
proof fn lemma_count_by_entry(entries: Seq<InflightEntry>, id: Seq<char>)
    requires
        entries_wf(entries),
    ensures
        (exists|k: int| 0 <= k < entries.len() && (#[trigger] entries[k]).account_id@ == id)
            ==> {
            let k = choose|k: int| 0 <= k < entries.len() && (#[trigger] entries[k]).account_id@ == id;
            count_in(entries, id, entries.len() as int) == entries[k].count
        },
        (forall|k: int| 0 <= k < entries.len() ==> (#[trigger] entries[k]).account_id@ != id)
            ==> count_in(entries, id, entries.len() as int) == 0,
{
    if exists|k: int| 0 <= k < entries.len() && (#[trigger] entries[k]).account_id@ == id {
        let k = choose|k: int| 0 <= k < entries.len() && (#[trigger] entries[k]).account_id@ == id;
        lemma_count_at(entries, id, k, entries.len() as int);
    } else {
        lemma_count_absent(entries, id, entries.len() as int);
    }
}

impl GatewayMetrics {
    fn find_entry(&self, account_id: &str) -> (out: Option<usize>)
        ensures
            match out {
                Some(k) => k < self.inflight@.len() && self.inflight@[k as int].account_id@
                    == account_id@ && self.inflight_of(account_id@) == self.inflight@[k as int].count,
                None => self.inflight_of(account_id@) == 0 && forall|i: int|
                    0 <= i < self.inflight@.len() ==> (#[trigger] self.inflight@[i]).account_id@
                        != account_id@,
            },
    {
        proof {
            use_type_invariant(self);
        }
        let mut i: usize = 0;
        while i < self.inflight.len()
            invariant
                self.wf(),
                i <= self.inflight@.len(),
                forall|k: int| 0 <= k < i ==> (#[trigger] self.inflight@[k]).account_id@ != account_id@,
            decreases self.inflight@.len() - i,
        {
            if str_eq(self.inflight[i].account_id.as_str(), account_id) {
                proof {
                    lemma_count_at(self.inflight@, account_id@, i as int, self.inflight@.len() as int);
                }
                return Some(i);
            }
            i += 1;
        }
        proof {
            lemma_count_absent(self.inflight@, account_id@, self.inflight@.len() as int);
        }
        None
    }
}

impl GatewayMetrics {
    /// Nothing in flight has changed between `self` and `other`.
    pub open spec fn same_inflight(&self, other: &GatewayMetrics) -> bool {
        &&& self.inflight_total() == other.inflight_total()
        &&& forall|id: Seq<char>| self.inflight_of(id) == other.inflight_of(id)
    }
}

/// Counts a request that enters the gateway.
pub fn begin_gateway_request(m: &mut GatewayMetrics)
    ensures
        final(m).total_requests() == wrap_inc(old(m).total_requests()),
        final(m).active_requests() == wrap_inc(old(m).active_requests()),
        final(m).failover_attempts() == old(m).failover_attempts(),
        final(m).cooldown_marks() == old(m).cooldown_marks(),
        final(m).same_inflight(old(m)),
{
    proof {
        use_type_invariant(&*m);
    }
    m.total_requests = m.total_requests.wrapping_add(1);
    m.active_requests = m.active_requests.wrapping_add(1);
}

/// Counts a request that leaves the gateway.
pub fn end_gateway_request(m: &mut GatewayMetrics)
    ensures
        final(m).total_requests() == old(m).total_requests(),
        final(m).active_requests() == wrap_dec(old(m).active_requests()),
        final(m).failover_attempts() == old(m).failover_attempts(),
        final(m).cooldown_marks() == old(m).cooldown_marks(),
        final(m).same_inflight(old(m)),
{
    proof {
        use_type_invariant(&*m);
    }
    m.active_requests = m.active_requests.wrapping_sub(1);
}

/// Counts a move from one candidate to the next.
pub fn record_gateway_failover_attempt(m: &mut GatewayMetrics)
    ensures
        final(m).total_requests() == old(m).total_requests(),
        final(m).active_requests() == old(m).active_requests(),
        final(m).failover_attempts() == wrap_inc(old(m).failover_attempts()),
        final(m).cooldown_marks() == old(m).cooldown_marks(),
        final(m).same_inflight(old(m)),
{
    proof {
        use_type_invariant(&*m);
    }
    m.failover_attempts = m.failover_attempts.wrapping_add(1);
}

/// Counts an account put on cooldown.
pub fn record_gateway_cooldown_mark(m: &mut GatewayMetrics)
    ensures
        final(m).total_requests() == old(m).total_requests(),
        final(m).active_requests() == old(m).active_requests(),
        final(m).failover_attempts() == old(m).failover_attempts(),
        final(m).cooldown_marks() == wrap_inc(old(m).cooldown_marks()),
        final(m).same_inflight(old(m)),
{
    proof {
        use_type_invariant(&*m);
    }
    m.cooldown_marks = m.cooldown_marks.wrapping_add(1);
}

/// The requests in flight on all accounts together.
pub fn account_inflight_total(m: &GatewayMetrics) -> (out: usize)
    ensures
        out == m.inflight_total(),
{
    proof {
        use_type_invariant(m);
    }
    let mut sum: usize = 0;
    let mut i: usize = 0;
    while i < m.inflight.len()
        invariant
            m.wf(),
            i <= m.inflight@.len(),
            sum == sum_in(m.inflight@, i as int),
        decreases m.inflight@.len() - i,
    {
        proof {
            lemma_sum_monotone(m.inflight@, i + 1, m.inflight@.len() as int);
        }
        sum = sum + m.inflight[i].count;
        i += 1;
    }
    sum
}

/// The requests in flight on one account.
pub fn account_inflight_count(m: &GatewayMetrics, account_id: &str) -> (out: usize)
    ensures
        out == m.inflight_of(account_id@),
{
    match m.find_entry(account_id) {
        Some(k) => m.inflight[k].count,
        None => 0,
    }
}

/// Reads all counters.
pub fn gateway_metrics_snapshot(m: &GatewayMetrics) -> (out: GatewayMetricsSnapshot)
    ensures
        out == m.reading(),
{
    GatewayMetricsSnapshot {
        total_requests: m.total_requests,
        active_requests: m.active_requests,
        account_inflight_total: account_inflight_total(m),
        failover_attempts: m.failover_attempts,
        cooldown_marks: m.cooldown_marks,
    }
}

fn push_metric_line(out: &mut String, name: &str, value: usize)
    ensures
        final(out)@ == old(out)@ + metric_line(name@, value as nat),
{
    out.append(name);
    out.push(' ');
    push_decimal(out, value);
    out.push('\n');
    assert(out@ =~= old(out)@ + metric_line(name@, value as nat));
}

/// Renders a reading as metrics text.
pub fn render_prometheus(reading: &GatewayMetricsSnapshot) -> (out: String)
    ensures
        out@ == prometheus_text(*reading),
{
    let mut out = String::new();
    push_metric_line(&mut out, "gpttools_gateway_requests_total", reading.total_requests);
    push_metric_line(&mut out, "gpttools_gateway_requests_active", reading.active_requests);
    push_metric_line(
        &mut out,
        "gpttools_gateway_account_inflight_total",
        reading.account_inflight_total,
    );
    push_metric_line(
        &mut out,
        "gpttools_gateway_failover_attempts_total",
        reading.failover_attempts,
    );
    push_metric_line(&mut out, "gpttools_gateway_cooldown_marks_total", reading.cooldown_marks);
    assert(out@ =~= prometheus_text(*reading));
    out
}

/// The metrics text of the counters as they stand.
pub fn gateway_metrics_prometheus(m: &GatewayMetrics) -> (out: String)
    ensures
        out@ == prometheus_text(m.reading()),
{
    let reading = gateway_metrics_snapshot(m);
    render_prometheus(&reading)
}

impl GatewayMetrics {
    /// The four event counters are the same in `self` and `other`.
    pub open spec fn same_counters(&self, other: &GatewayMetrics) -> bool {
        &&& self.total_requests() == other.total_requests()
        &&& self.active_requests() == other.active_requests()
        &&& self.failover_attempts() == other.failover_attempts()
        &&& self.cooldown_marks() == other.cooldown_marks()
    }
}

fn copy_entries(entries: &Vec<InflightEntry>) -> (out: Vec<InflightEntry>)
    ensures
        out@ == entries@,
{
    let mut out: Vec<InflightEntry> = Vec::new();
    let mut i: usize = 0;
    while i < entries.len()
        invariant
            i <= entries.len(),
            out@ == entries@.subrange(0, i as int),
        decreases entries.len() - i,
    {
        out.push(
            InflightEntry { account_id: entries[i].account_id.clone(), count: entries[i].count },
        );
        assert(out@ == entries@.subrange(0, i + 1));
        i += 1;
    }
    assert(out@ == entries@);
    out
}

/// Counts one more request in flight on an account.
pub fn acquire_account_inflight(m: &mut GatewayMetrics, account_id: &str)
    requires
        old(m).inflight_total() < usize::MAX,
    ensures
        final(m).same_counters(old(m)),
        final(m).inflight_of(account_id@) == old(m).inflight_of(account_id@) + 1,
        final(m).inflight_total() == old(m).inflight_total() + 1,
        forall|id: Seq<char>| id != account_id@ ==> final(m).inflight_of(id) == old(m).inflight_of(id),
{
    proof {
        use_type_invariant(&*m);
    }
    let ghost before = m.inflight@;
    match m.find_entry(account_id) {
        Some(k) => {
            proof {
                lemma_sum_update(before, k as int, before[k as int], before.len() as int);
            }
            let entry = InflightEntry {
                account_id: m.inflight[k].account_id.clone(),
                count: m.inflight[k].count + 1,
            };
            proof {
                lemma_sum_update(before, k as int, entry, before.len() as int);
                let after = before.update(k as int, entry);
                assert(entries_wf(after));
                lemma_count_at(after, account_id@, k as int, after.len() as int);
                assert forall|id: Seq<char>| id != account_id@ implies count_in(
                    after,
                    id,
                    after.len() as int,
                ) == count_in(before, id, before.len() as int) by {
                    lemma_count_by_entry(before, id);
                    lemma_count_by_entry(after, id);
                    if exists|j: int| 0 <= j < before.len() && (#[trigger] before[j]).account_id@ == id {
                        let j = choose|j: int|
                            0 <= j < before.len() && (#[trigger] before[j]).account_id@ == id;
                        assert(after[j].account_id@ == id);
                        lemma_count_at(after, id, j, after.len() as int);
                        lemma_count_at(before, id, j, before.len() as int);
                    } else {
                        assert forall|j: int| 0 <= j < after.len() implies (
                        #[trigger] after[j]).account_id@ != id by {
                            assert(before[j].account_id@ != id);
                        }
                    }
                }
            }
            let mut entries = copy_entries(&m.inflight);
            entries.set(k, entry);
            m.inflight = entries;
        },
        None => {
            let entry = InflightEntry { account_id: account_id.to_string(), count: 1 };
            proof {
                let after = before.push(entry);
                lemma_sum_push(before, entry, before.len() as int);
                assert(after[before.len() as int] == entry);
                assert(entries_wf(after));
                lemma_count_at(after, account_id@, before.len() as int, after.len() as int);
                assert forall|id: Seq<char>| id != account_id@ implies count_in(
                    after,
                    id,
                    after.len() as int,
                ) == count_in(before, id, before.len() as int) by {
                    lemma_count_prefix(before, after, id, before.len() as int);
                }
            }
            let mut entries = copy_entries(&m.inflight);
            entries.push(entry);
            m.inflight = entries;
        },
    }
}

/// The account `id` counts one request fewer in flight in `after` than in
/// `before`, unless it had none, and nothing else in flight has changed.
pub open spec fn released(before: GatewayMetrics, after: GatewayMetrics, id: Seq<char>) -> bool {
    &&& before.inflight_of(id) > 0 ==> after.inflight_of(id) == before.inflight_of(id) - 1
        && after.inflight_total() == before.inflight_total() - 1
    &&& before.inflight_of(id) == 0 ==> after.inflight_of(id) == 0 && after.inflight_total()
        == before.inflight_total()
    &&& forall|other: Seq<char>| other != id ==> after.inflight_of(other) == before.inflight_of(other)
}

/// Counts one request fewer in flight on an account; an account with
/// nothing in flight is left as it is.
pub fn release_account_inflight(m: &mut GatewayMetrics, account_id: &str)
    ensures
        final(m).same_counters(old(m)),
        released(*old(m), *final(m), account_id@),
{
    proof {
        use_type_invariant(&*m);
    }
    let ghost before = m.inflight@;
    match m.find_entry(account_id) {
        Some(k) => {
            if m.inflight[k].count > 1 {
                let entry = InflightEntry {
                    account_id: m.inflight[k].account_id.clone(),
                    count: m.inflight[k].count - 1,
                };
                proof {
                    lemma_sum_update(before, k as int, entry, before.len() as int);
                    let after = before.update(k as int, entry);
                    assert(entries_wf(after));
                    lemma_count_at(after, account_id@, k as int, after.len() as int);
                    assert forall|id: Seq<char>| id != account_id@ implies count_in(
                        after,
                        id,
                        after.len() as int,
                    ) == count_in(before, id, before.len() as int) by {
                        if exists|j: int|
                            0 <= j < before.len() && (#[trigger] before[j]).account_id@ == id {
                            let j = choose|j: int|
                                0 <= j < before.len() && (#[trigger] before[j]).account_id@ == id;
                            assert(after[j].account_id@ == id);
                            lemma_count_at(after, id, j, after.len() as int);
                            lemma_count_at(before, id, j, before.len() as int);
                        } else {
                            assert forall|j: int| 0 <= j < after.len() implies (
                            #[trigger] after[j]).account_id@ != id by {
                                assert(before[j].account_id@ != id);
                            }
                            lemma_count_absent(before, id, before.len() as int);
                            lemma_count_absent(after, id, after.len() as int);
                        }
                    }
                }
                let mut entries = copy_entries(&m.inflight);
            entries.set(k, entry);
            m.inflight = entries;
            } else {
                proof {
                    let after = before.remove(k as int);
                    lemma_sum_remove(before, k as int, after.len() as int);
                    assert forall|i: int| 0 <= i < after.len() implies (#[trigger] after[i]).count
                        >= 1 by {
                        if i < k {
                            assert(after[i] == before[i]);
                        } else {
                            assert(after[i] == before[i + 1]);
                        }
                    }
                    assert forall|i: int, j: int| 0 <= i < j < after.len() implies (
                    #[trigger] after[i]).account_id@ != (#[trigger] after[j]).account_id@ by {
                        let bi = if i < k { i } else { i + 1 };
                        let bj = if j < k { j } else { j + 1 };
                        assert(after[i] == before[bi] && after[j] == before[bj]);
                    }
                    assert(entries_wf(after));
                    assert forall|j: int| 0 <= j < after.len() implies (
                    #[trigger] after[j]).account_id@ != account_id@ by {
                        let bj = if j < k { j } else { j + 1 };
                        assert(after[j] == before[bj]);
                    }
                    lemma_count_absent(after, account_id@, after.len() as int);
                    assert forall|id: Seq<char>| id != account_id@ implies count_in(
                        after,
                        id,
                        after.len() as int,
                    ) == count_in(before, id, before.len() as int) by {
                        if exists|j: int|
                            0 <= j < before.len() && (#[trigger] before[j]).account_id@ == id {
                            let j = choose|j: int|
                                0 <= j < before.len() && (#[trigger] before[j]).account_id@ == id;
                            let aj = if j < k { j } else { j - 1 };
                            assert(after[aj] == before[j]);
                            lemma_count_at(after, id, aj, after.len() as int);
                            lemma_count_at(before, id, j, before.len() as int);
                        } else {
                            assert forall|j: int| 0 <= j < after.len() implies (
                            #[trigger] after[j]).account_id@ != id by {
                                let bj = if j < k { j } else { j + 1 };
                                assert(after[j] == before[bj]);
                            }
                            lemma_count_absent(before, id, before.len() as int);
                            lemma_count_absent(after, id, after.len() as int);
                        }
                    }
                }
                let mut entries = copy_entries(&m.inflight);
                let _ = entries.remove(k);
                m.inflight = entries;
            }
        },
        None => {},
    }
}

/// Sets all counters back to zero and forgets what is in flight.
pub fn reset_gateway_metrics(m: &mut GatewayMetrics)
    ensures
        final(m).total_requests() == 0,
        final(m).active_requests() == 0,
        final(m).failover_attempts() == 0,
        final(m).cooldown_marks() == 0,
        final(m).inflight_total() == 0,
        forall|id: Seq<char>| final(m).inflight_of(id) == 0,
{
    *m = GatewayMetrics::new();
}

proof fn lemma_count_prefix(
    before: Seq<InflightEntry>,
    after: Seq<InflightEntry>,
    id: Seq<char>,
    n: int,
)
    requires
        0 <= n <= before.len(),
        after.len() == before.len() + 1,
        forall|i: int| 0 <= i < before.len() ==> after[i] == before[i],
        after[before.len() as int].account_id@ != id,
    ensures
        count_in(after, id, n) == count_in(before, id, n),
        n == before.len() ==> count_in(after, id, after.len() as int) == count_in(before, id, n),
    decreases n,
{
    if n > 0 {
        lemma_count_prefix(before, after, id, n - 1);
    }
    if n == before.len() {
        assert(count_in(after, id, after.len() as int) == count_in(after, id, after.len() - 1));
    }
}

/// `line` stands in `text` at position `i` as a line of its own: at the
/// start of the text or behind a line break.
pub open spec fn is_line_at(text: Seq<char>, line: Seq<char>, i: int) -> bool {
    &&& 0 <= i
    &&& i + line.len() <= text.len()
    &&& text.subrange(i, i + line.len()) == line
    &&& i == 0 || text[i - 1] == '\n'
}

/// `line` stands in `text` as a line of its own.
pub open spec fn has_line(text: Seq<char>, line: Seq<char>) -> bool {
    exists|i: int| is_line_at(text, line, i)
}

/// The metrics text holds each of the five series as a line of its own.
pub proof fn lemma_metrics_text_has_all_series(m: GatewayMetricsSnapshot)
    ensures
        has_line(
            prometheus_text(m),
            metric_line("gpttools_gateway_requests_total"@, m.total_requests as nat),
        ),
        has_line(
            prometheus_text(m),
            metric_line("gpttools_gateway_requests_active"@, m.active_requests as nat),
        ),
        has_line(
            prometheus_text(m),
            metric_line(
                "gpttools_gateway_account_inflight_total"@,
                m.account_inflight_total as nat,
            ),
        ),
        has_line(
            prometheus_text(m),
            metric_line("gpttools_gateway_failover_attempts_total"@, m.failover_attempts as nat),
        ),
        has_line(
            prometheus_text(m),
            metric_line("gpttools_gateway_cooldown_marks_total"@, m.cooldown_marks as nat),
        ),
{
    let text = prometheus_text(m);
    let l1 = metric_line("gpttools_gateway_requests_total"@, m.total_requests as nat);
    let l2 = metric_line("gpttools_gateway_requests_active"@, m.active_requests as nat);
    let l3 = metric_line(
        "gpttools_gateway_account_inflight_total"@,
        m.account_inflight_total as nat,
    );
    let l4 = metric_line("gpttools_gateway_failover_attempts_total"@, m.failover_attempts as nat);
    let l5 = metric_line("gpttools_gateway_cooldown_marks_total"@, m.cooldown_marks as nat);
    assert(text == l1 + l2 + l3 + l4 + l5);
    assert(l1.last() == '\n' && l2.last() == '\n' && l3.last() == '\n' && l4.last() == '\n');
    let o2 = l1.len() as int;
    let o3 = o2 + l2.len();
    let o4 = o3 + l3.len();
    let o5 = o4 + l4.len();
    assert(text.subrange(0, l1.len() as int) =~= l1);
    assert(text.subrange(o2, o2 + l2.len()) =~= l2);
    assert(text.subrange(o3, o3 + l3.len()) =~= l3);
    assert(text.subrange(o4, o4 + l4.len()) =~= l4);
    assert(text.subrange(o5, o5 + l5.len()) =~= l5);
    assert(text[o2 - 1] == l1.last());
    assert(text[o3 - 1] == l2.last());
    assert(text[o4 - 1] == l3.last());
    assert(text[o5 - 1] == l4.last());
    assert(is_line_at(text, l1, 0));
    assert(is_line_at(text, l2, o2));
    assert(is_line_at(text, l3, o3));
    assert(is_line_at(text, l4, o4));
    assert(is_line_at(text, l5, o5));
}

proof fn lemma_sum_monotone(entries: Seq<InflightEntry>, n: int, m: int)
    requires
        0 <= n <= m <= entries.len(),
    ensures
        sum_in(entries, n) <= sum_in(entries, m),
    decreases m - n,
{
    if n < m {
        lemma_sum_monotone(entries, n, m - 1);
    }
}

} // verus!
