//! Telemetry aggregation: a global operation counter, a global error
//! counter, and one latency aggregate per operation name.
//!
//! The abstract value of the telemetry state is a [`TelemetryView`]: three
//! counters and a total map from operation name to its latency aggregate
//! (all-zero for a name that was never sampled). Counters only ever grow,
//! saturating at the top of `u64`; no aggregate is ever reset or removed.
//! Operation names are plain `u64` identifiers chosen by the embedding host.

use vstd::prelude::*;
use vstd::arithmetic::div_mod::{lemma_div_by_multiple, lemma_div_is_ordered};
use vstd::arithmetic::mul::lemma_mul_inequality;
use vstd::string::StringExecFns;

verus! {

/// Saturating addition on `u64`, as a mathematical function.
pub open spec fn sat_add(a: u64, b: u64) -> u64 {
    if a + b > u64::MAX {
        u64::MAX
    } else {
        (a + b) as u64
    }
}

/// Saturating subtraction on `u64`: durations clamp at zero, so a clock
/// anomaly can never make a latency sample underflow.
pub open spec fn sat_sub(a: u64, b: u64) -> u64 {
    if a - b < 0 {
        0u64
    } else {
        (a - b) as u64
    }
}

/// One stored latency aggregate, keyed by its operation name.
#[derive(Clone, Copy, Debug, PartialEq, Eq, Structural)]
pub struct PerfRecord {
    pub name: u64,
    pub call_count: u64,
    pub total_duration: u64,
    pub last_called: u64,
}

/// The abstract value of one latency aggregate.
#[derive(PartialEq, Eq, Structural)]
pub struct PerfView {
    pub count: u64,
    pub total: u64,
    pub last: u64,
}

/// The aggregate of a name that was never sampled.
pub open spec fn perf_zero() -> PerfView {
    PerfView { count: 0, total: 0, last: 0 }
}

pub open spec fn perf_of(r: PerfRecord) -> PerfView {
    PerfView { count: r.call_count, total: r.total_duration, last: r.last_called }
}

/// The aggregate stored for `name` in `s`: the first record carrying that
/// name, or the all-zero aggregate when none does.
pub open spec fn perf_lookup(s: Seq<PerfRecord>, name: u64) -> PerfView
    decreases s.len(),
{
    if s.len() == 0 {
        perf_zero()
    } else if s[0].name == name {
        perf_of(s[0])
    } else {
        perf_lookup(s.subrange(1, s.len() as int), name)
    }
}

/// The abstract value of the whole telemetry state.
#[verifier::ext_equal]
pub struct TelemetryView {
    pub ops: u64,
    pub errors: u64,
    pub users: u64,
    pub perf: Map<u64, PerfView>,
}

impl TelemetryView {
    /// Errors are a subset of operations, so the error counter can never
    /// pass the operation counter.
    pub open spec fn wf(self) -> bool {
        self.errors <= self.ops
    }
}

/// Telemetry as it stands before anything was recorded.
pub open spec fn tel_zero() -> TelemetryView {
    TelemetryView { ops: 0, errors: 0, users: 0, perf: Map::total(|name: u64| perf_zero()) }
}

/// The counter update performed by tracking one operation outcome.
pub open spec fn tel_tracked(t: TelemetryView, success: bool) -> TelemetryView {
    TelemetryView {
        ops: sat_add(t.ops, 1),
        errors: if success {
            t.errors
        } else {
            sat_add(t.errors, 1)
        },
        ..t
    }
}

/// One latency sample folded into an aggregate.
pub open spec fn perf_bumped(p: PerfView, duration: u64, timestamp: u64) -> PerfView {
    PerfView { count: sat_add(p.count, 1), total: sat_add(p.total, duration), last: timestamp }
}

/// The per-name update performed by recording one latency sample.
pub open spec fn tel_perf(t: TelemetryView, name: u64, duration: u64, timestamp: u64) -> TelemetryView {
    TelemetryView { perf: t.perf.insert(name, perf_bumped(t.perf[name], duration, timestamp)), ..t }
}

/// The average latency of an aggregate, defined only from a non-zero call
/// count and zero otherwise.
pub open spec fn avg_of(p: PerfView) -> u64 {
    if p.count == 0 {
        0u64
    } else {
        (p.total as int / p.count as int) as u64
    }
}

/// The error rate in basis points: `floor(errors * 10000 / ops)`, and zero
/// when no operation was tracked.
pub open spec fn rate_of(errors: u64, ops: u64) -> u32 {
    if ops == 0 {
        0u32
    } else {
        ((errors as int * 10000) / (ops as int)) as u32
    }
}

/// Operation counters and per-operation latency aggregates.
///
/// `unique_users` is carried for the analytics surface, but no governance
/// path increments it: it stays at zero unless an embedding host wires it
/// up, a deliberately preserved trait of the design.
pub struct Telemetry {
    pub operation_count: u64,
    pub error_count: u64,
    pub unique_users: u64,
    pub perf: Vec<PerfRecord>,
}

impl View for Telemetry {
    type V = TelemetryView;

    open spec fn view(&self) -> TelemetryView {
        TelemetryView {
            ops: self.operation_count,
            errors: self.error_count,
            users: self.unique_users,
            perf: Map::total(|name: u64| perf_lookup(self.perf@, name)),
        }
    }
}

impl Telemetry {
    /// Representation invariant: at most one stored aggregate per name, and
    /// the abstract counters are coherent.
    pub open spec fn wf(&self) -> bool {
        &&& self@.wf()
        &&& forall|i: int, j: int|
            0 <= i < j < self.perf@.len() ==> #[trigger] self.perf@[i].name != #[trigger] self.perf@[j].name
    }

    /// Fresh telemetry: every counter and every aggregate is zero.
    pub fn new() -> (t: Telemetry)
        ensures
            t.wf(),
            t@ == tel_zero(),
    {
        let t = Telemetry { operation_count: 0, error_count: 0, unique_users: 0, perf: Vec::new() };
        proof {
            assert(t@.perf =~= tel_zero().perf);
            assert(t@ =~= tel_zero());
        }
        t
    }
}

/// Audit record of one tracked operation, for the host to publish.
#[derive(Clone, Copy, Debug, PartialEq, Eq, Structural)]
pub struct OperationMetric {
    pub operation: u64,
    pub caller: u64,
    pub timestamp: u64,
    pub success: bool,
}

/// Audit record of one latency sample, for the host to publish.
#[derive(Clone, Copy, Debug, PartialEq, Eq, Structural)]
pub struct PerformanceMetric {
    pub function: u64,
    pub duration: u64,
    pub timestamp: u64,
}

/// Liveness summary of the governance core.
pub struct HealthStatus {
    pub is_healthy: bool,
    pub last_operation: u64,
    pub total_operations: u64,
    pub contract_version: String,
}

/// Aggregate usage analytics.
#[derive(Clone, Copy, Debug, PartialEq, Eq, Structural)]
pub struct Analytics {
    pub operation_count: u64,
    pub unique_users: u64,
    pub error_count: u64,
    pub error_rate: u32,
}

/// Point-in-time counter snapshot.
#[derive(Clone, Copy, Debug, PartialEq, Eq, Structural)]
pub struct StateSnapshot {
    pub timestamp: u64,
    pub total_operations: u64,
    pub total_users: u64,
    pub total_errors: u64,
}

/// The latency aggregate of one operation name, with its derived average.
#[derive(Clone, Copy, Debug, PartialEq, Eq, Structural)]
pub struct PerformanceStats {
    pub function_name: u64,
    pub call_count: u64,
    pub total_time: u64,
    pub avg_time: u64,
    pub last_called: u64,
}

/// The index of the first aggregate stored for `name`, if any.
fn find_perf(perf: &Vec<PerfRecord>, name: u64) -> (r: Option<usize>)
    ensures
        match r {
            Some(i) => i < perf@.len() && perf@[i as int].name == name && forall|j: int|
                0 <= j < i ==> #[trigger] perf@[j].name != name,
            None => forall|j: int| 0 <= j < perf@.len() ==> #[trigger] perf@[j].name != name,
        },
{
    let mut i: usize = 0;
    while i < perf.len()
        invariant
            i <= perf@.len(),
            forall|j: int| 0 <= j < i ==> #[trigger] perf@[j].name != name,
        decreases perf@.len() - i,
    {
        if perf[i].name == name {
            return Some(i);
        }
        i += 1;
    }
    None
}

/// Where the first record named `name` sits at index `i`, the lookup yields
/// exactly that record.
proof fn lemma_perf_lookup_at(s: Seq<PerfRecord>, name: u64, i: int)
    requires
        0 <= i < s.len(),
        s[i].name == name,
        forall|j: int| 0 <= j < i ==> #[trigger] s[j].name != name,
    ensures
        perf_lookup(s, name) == perf_of(s[i]),
    decreases i,
{
    if i > 0 {
        let sub = s.subrange(1, s.len() as int);
        assert forall|j: int| 0 <= j < i - 1 implies #[trigger] sub[j].name != name by {
            assert(sub[j] == s[j + 1]);
        }
        assert(sub[i - 1] == s[i]);
        lemma_perf_lookup_at(sub, name, i - 1);
    }
}

/// Where no record is named `name`, the lookup yields the zero aggregate.
proof fn lemma_perf_lookup_absent(s: Seq<PerfRecord>, name: u64)
    requires
        forall|j: int| 0 <= j < s.len() ==> #[trigger] s[j].name != name,
    ensures
        perf_lookup(s, name) == perf_zero(),
    decreases s.len(),
{
    if s.len() > 0 {
        let sub = s.subrange(1, s.len() as int);
        assert forall|j: int| 0 <= j < sub.len() implies #[trigger] sub[j].name != name by {
            assert(sub[j] == s[j + 1]);
        }
        lemma_perf_lookup_absent(sub, name);
    }
}

/// Replacing the record at `i` by one with the same name leaves the lookup
/// of every other name unchanged.
proof fn lemma_perf_lookup_update_other(s: Seq<PerfRecord>, i: int, r: PerfRecord, m: u64)
    requires
        0 <= i < s.len(),
        s[i].name == r.name,
        m != r.name,
    ensures
        perf_lookup(s.update(i, r), m) == perf_lookup(s, m),
    decreases i,
{
    let u = s.update(i, r);
    if i == 0 {
        assert(u.subrange(1, u.len() as int) =~= s.subrange(1, s.len() as int));
    } else {
        assert(u[0] == s[0]);
        if s[0].name != m {
            let sub = s.subrange(1, s.len() as int);
            assert(u.subrange(1, u.len() as int) =~= sub.update(i - 1, r));
            assert(sub[i - 1] == s[i]);
            lemma_perf_lookup_update_other(sub, i - 1, r, m);
        }
    }
}

/// Replacing the first record named `r.name` makes the lookup of that name
/// yield the replacement.
proof fn lemma_perf_lookup_update_hit(s: Seq<PerfRecord>, i: int, r: PerfRecord)
    requires
        0 <= i < s.len(),
        s[i].name == r.name,
        forall|j: int| 0 <= j < i ==> #[trigger] s[j].name != r.name,
    ensures
        perf_lookup(s.update(i, r), r.name) == perf_of(r),
{
    let u = s.update(i, r);
    assert forall|j: int| 0 <= j < i implies #[trigger] u[j].name != r.name by {
        assert(u[j] == s[j]);
    }
    lemma_perf_lookup_at(u, r.name, i);
}

/// Appending a record with a fresh name makes it the aggregate for its name
/// and leaves every other lookup unchanged.
proof fn lemma_perf_lookup_push(s: Seq<PerfRecord>, r: PerfRecord, m: u64)
    requires
        forall|j: int| 0 <= j < s.len() ==> #[trigger] s[j].name != r.name,
    ensures
        perf_lookup(s.push(r), r.name) == perf_of(r),
        m != r.name ==> perf_lookup(s.push(r), m) == perf_lookup(s, m),
    decreases s.len(),
{
    let p = s.push(r);
    if s.len() == 0 {
        assert(p[0] == r);
        assert(p.subrange(1, p.len() as int) =~= Seq::<PerfRecord>::empty());
        if m != r.name {
            assert(perf_lookup(p, m) == perf_lookup(Seq::<PerfRecord>::empty(), m));
            assert(perf_lookup(p, m) == perf_zero());
            assert(perf_lookup(s, m) == perf_zero());
        }
    } else {
        assert(p[0] == s[0]);
        let sub = s.subrange(1, s.len() as int);
        assert(p.subrange(1, p.len() as int) =~= sub.push(r));
        assert forall|j: int| 0 <= j < sub.len() implies #[trigger] sub[j].name != r.name by {
            assert(sub[j] == s[j + 1]);
        }
        lemma_perf_lookup_push(sub, r, m);
        if m != r.name {
            if s[0].name == m {
                assert(perf_lookup(p, m) == perf_of(s[0]));
                assert(perf_lookup(s, m) == perf_of(s[0]));
            } else {
                assert(perf_lookup(p, m) == perf_lookup(sub.push(r), m));
                assert(perf_lookup(s, m) == perf_lookup(sub, m));
            }
        }
    }
}

/// Records the outcome of one governance operation: bumps the global
/// operation counter, bumps the error counter when the operation failed,
/// and returns the audit record for the host to publish.
pub fn track_operation(t: &mut Telemetry, operation: u64, caller: u64, success: bool, timestamp: u64) -> (r:
    OperationMetric)
    requires
        old(t).wf(),
    ensures
        final(t).wf(),
        final(t)@ == tel_tracked(old(t)@, success),
        r == (OperationMetric { operation, caller, timestamp, success }),
{
    t.operation_count = t.operation_count.saturating_add(1);
    if !success {
        t.error_count = t.error_count.saturating_add(1);
    }
    proof {
        assert(t@.perf =~= tel_tracked(old(t)@, success).perf);
        assert(t@ =~= tel_tracked(old(t)@, success));
    }
    OperationMetric { operation, caller, timestamp, success }
}

/// Records one latency sample for `function`: bumps its call counter, adds
/// `duration` to its cumulative time, stamps the last-called time, and
/// returns the audit record for the host to publish.
pub fn emit_performance(t: &mut Telemetry, function: u64, duration: u64, timestamp: u64) -> (r:
    PerformanceMetric)
    requires
        old(t).wf(),
    ensures
        final(t).wf(),
        final(t)@ == tel_perf(old(t)@, function, duration, timestamp),
        r == (PerformanceMetric { function, duration, timestamp }),
{
    let ghost s0 = t.perf@;
    let ghost target = tel_perf(old(t)@, function, duration, timestamp);
    match find_perf(&t.perf, function) {
        Some(i) => {
            let rec = PerfRecord {
                name: function,
                call_count: t.perf[i].call_count.saturating_add(1),
                total_duration: t.perf[i].total_duration.saturating_add(duration),
                last_called: timestamp,
            };
            t.perf.set(i, rec);
            proof {
                lemma_perf_lookup_at(s0, function, i as int);
                lemma_perf_lookup_update_hit(s0, i as int, rec);
                assert forall|m: u64| m != function implies perf_lookup(t.perf@, m) == perf_lookup(
                    s0,
                    m,
                ) by {
                    lemma_perf_lookup_update_other(s0, i as int, rec, m);
                }
                assert(t@.perf =~= target.perf);
                assert(t@ =~= target);
            }
        },
        None => {
            let rec = PerfRecord {
                name: function,
                call_count: 1,
                total_duration: duration,
                last_called: timestamp,
            };
            t.perf.push(rec);
            proof {
                lemma_perf_lookup_absent(s0, function);
                assert forall|m: u64| m != function implies perf_lookup(t.perf@, m) == perf_lookup(
                    s0,
                    m,
                ) by {
                    lemma_perf_lookup_push(s0, rec, m);
                }
                lemma_perf_lookup_push(s0, rec, function);
                assert(t@.perf =~= target.perf);
                assert(t@ =~= target);
            }
        },
    }
    PerformanceMetric { function, duration, timestamp }
}

/// A liveness summary: this core is healthy whenever it can answer at all.
pub fn health_check(t: &Telemetry, now: u64) -> (r: HealthStatus)
    ensures
        r.is_healthy,
        r.last_operation == now,
        r.total_operations == t@.ops,
        r.contract_version@ == "1.0.0"@,
{
    HealthStatus {
        is_healthy: true,
        last_operation: now,
        total_operations: t.operation_count,
        contract_version: String::from_str("1.0.0"),
    }
}

/// The aggregate analytics: the raw counters plus the error rate in basis
/// points, computed through a wide intermediate so the multiplication can
/// never overflow.
pub fn get_analytics(t: &Telemetry) -> (r: Analytics)
    requires
        t.wf(),
    ensures
        r == (Analytics {
            operation_count: t@.ops,
            unique_users: t@.users,
            error_count: t@.errors,
            error_rate: rate_of(t@.errors, t@.ops),
        }),
{
    let error_rate: u32 = if t.operation_count > 0 {
        proof {
            lemma_mul_inequality(t.error_count as int, t.operation_count as int, 10000);
            lemma_div_is_ordered(
                t.error_count as int * 10000,
                t.operation_count as int * 10000,
                t.operation_count as int,
            );
            lemma_div_by_multiple(10000, t.operation_count as int);
        }
        let wide: u128 = (t.error_count as u128) * 10000;
        ((wide / (t.operation_count as u128)) as u32)
    } else {
        0
    };
    Analytics {
        operation_count: t.operation_count,
        unique_users: t.unique_users,
        error_count: t.error_count,
        error_rate,
    }
}

/// A point-in-time snapshot of the global counters.
pub fn get_state_snapshot(t: &Telemetry, now: u64) -> (r: StateSnapshot)
    ensures
        r == (StateSnapshot {
            timestamp: now,
            total_operations: t@.ops,
            total_users: t@.users,
            total_errors: t@.errors,
        }),
{
    StateSnapshot {
        timestamp: now,
        total_operations: t.operation_count,
        total_users: t.unique_users,
        total_errors: t.error_count,
    }
}

/// The latency aggregate recorded for `function_name`, with the average
/// computed only from a non-zero call count.
pub fn get_performance_stats(t: &Telemetry, function_name: u64) -> (r: PerformanceStats)
    ensures
        r == (PerformanceStats {
            function_name,
            call_count: t@.perf[function_name].count,
            total_time: t@.perf[function_name].total,
            avg_time: avg_of(t@.perf[function_name]),
            last_called: t@.perf[function_name].last,
        }),
{
    match find_perf(&t.perf, function_name) {
        Some(i) => {
            proof {
                lemma_perf_lookup_at(t.perf@, function_name, i as int);
            }
            let rec = t.perf[i];
            let avg: u64 = if rec.call_count > 0 {
                rec.total_duration / rec.call_count
            } else {
                0
            };
            PerformanceStats {
                function_name,
                call_count: rec.call_count,
                total_time: rec.total_duration,
                avg_time: avg,
                last_called: rec.last_called,
            }
        },
        None => {
            proof {
                lemma_perf_lookup_absent(t.perf@, function_name);
            }
            PerformanceStats {
                function_name,
                call_count: 0,
                total_time: 0,
                avg_time: 0,
                last_called: 0,
            }
        },
    }
}

} // verus!
