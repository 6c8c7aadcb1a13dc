//! The general laws of the governance core, each proved once and for all
//! over the spec-level transition functions that the executable operations
//! are contracted to implement.

use vstd::prelude::*;
use vstd::arithmetic::div_mod::{lemma_div_by_multiple, lemma_div_is_ordered};
use vstd::arithmetic::mul::lemma_mul_inequality;
use crate::errors::UpgradeError;
use crate::governance::{
    admin_gate, approve_next, approve_result, execute_next, execute_result, init_admin_next,
    init_admin_result, init_next, init_result, set_version_next, upgrade_next, GovView,
};
use crate::monitoring::{rate_of, tel_tracked, tel_zero, TelemetryView};

verus! {

/// Approval is idempotent: once a signer's approval of an open proposal has
/// been accepted, any repetition by the same signer is accepted and changes
/// nothing, so a signer can grow the approvals set by at most one however
/// often it calls.
pub proof fn lemma_approve_idempotent(g: GovView, proposal_id: u64, signer: u64)
    requires
        g.wf(),
        approve_result(g, proposal_id, signer) is Ok,
    ensures
        approve_next(g, proposal_id, signer).proposals[proposal_id as int].approvals.len() <= g
            .proposals[proposal_id as int].approvals.len() + 1,
        approve_result(approve_next(g, proposal_id, signer), proposal_id, signer) is Ok,
        approve_next(approve_next(g, proposal_id, signer), proposal_id, signer) == approve_next(
            g,
            proposal_id,
            signer,
        ),
{
    let i = proposal_id as int;
    let g1 = approve_next(g, proposal_id, signer);
    let p = g.proposals[i];
    let p1 = g1.proposals[i];
    if !p.approvals.contains(signer) {
        assert(p1.approvals[p.approvals.len() as int] == signer);
    }
    assert(p1.approvals.contains(signer));
    assert(g1.proposals.update(i, p1) =~= g1.proposals);
    assert(approve_next(g1, proposal_id, signer) =~= g1);
}

/// The state reached by `n` consecutive `approve_upgrade` calls by the
/// same signer on the same proposal.
pub open spec fn approve_many(g: GovView, proposal_id: u64, signer: u64, n: nat) -> GovView
    decreases n,
{
    if n == 0 {
        g
    } else {
        approve_next(approve_many(g, proposal_id, signer, (n - 1) as nat), proposal_id, signer)
    }
}

/// However long the sequence of approvals by one signer on an open
/// proposal, the state it reaches is the state after a single approval.
pub proof fn lemma_approve_many_collapses(g: GovView, proposal_id: u64, signer: u64, n: nat)
    requires
        g.wf(),
        approve_result(g, proposal_id, signer) is Ok,
        n >= 1,
    ensures
        approve_many(g, proposal_id, signer, n) == approve_next(g, proposal_id, signer),
    decreases n,
{
    if n == 1 {
        assert(approve_many(g, proposal_id, signer, 0nat) == g);
        assert(approve_many(g, proposal_id, signer, 1nat) == approve_next(
            g,
            proposal_id,
            signer,
        ));
    } else {
        lemma_approve_many_collapses(g, proposal_id, signer, (n - 1) as nat);
        lemma_approve_idempotent(g, proposal_id, signer);
    }
}

/// Execution is gated exactly by the threshold and the executed flag, and
/// happens at most once: after a success, re-executing the same proposal is
/// rejected as already executed, and every other proposal is untouched.
pub proof fn lemma_execute_exactly_once(g: GovView, proposal_id: u64)
    ensures
        execute_result(g, proposal_id) is Ok <==> (g.is_multisig() && proposal_id
            < g.proposals.len() && !g.proposals[proposal_id as int].executed && g.proposals[
            proposal_id as int
        ].approvals.len() >= g.threshold()),
        execute_result(g, proposal_id) is Ok ==> execute_next(
            g,
            proposal_id,
        ).proposals[proposal_id as int].executed,
        execute_result(g, proposal_id) is Ok ==> execute_result(
            execute_next(g, proposal_id),
            proposal_id,
        ) == Err::<Seq<u8>, UpgradeError>(UpgradeError::AlreadyExecuted),
        execute_result(g, proposal_id) is Ok ==> forall|j: int|
            0 <= j < g.proposals.len() && j != proposal_id as int ==> execute_next(
                g,
                proposal_id,
            ).proposals[j] == #[trigger] g.proposals[j],
{
}

/// The initializers are mutually exclusive: each one's success makes the
/// state initialized, and on an initialized state both are rejected as
/// already initialized — whichever path ran first.
pub proof fn lemma_initializers_exclusive(
    g: GovView,
    signers: Seq<u64>,
    threshold: u32,
    admin: u64,
    start: u64,
    now: u64,
)
    ensures
        init_result(g, signers, threshold) is Ok ==> init_next(
            g,
            signers,
            threshold,
        ).initialized(),
        init_admin_result(g, admin) is Ok ==> init_admin_next(g, admin, start, now).initialized(),
        g.initialized() ==> init_result(g, signers, threshold) == Err::<(), UpgradeError>(
            UpgradeError::AlreadyInitialized,
        ),
        g.initialized() ==> init_admin_result(g, admin) == Err::<(), UpgradeError>(
            UpgradeError::AlreadyInitialized,
        ),
{
}

/// Before any initialization the observable version is 0; immediately after
/// either initializer succeeds it is 1.
pub proof fn lemma_version_after_init(
    g: GovView,
    signers: Seq<u64>,
    threshold: u32,
    admin: u64,
    start: u64,
    now: u64,
)
    ensures
        !g.initialized() ==> g.version_value() == 0,
        init_result(g, signers, threshold) is Ok ==> init_next(
            g,
            signers,
            threshold,
        ).version_value() == 1,
        init_admin_result(g, admin) is Ok ==> init_admin_next(
            g,
            admin,
            start,
            now,
        ).version_value() == 1,
{
}

/// A caller who is not the configured admin is turned away by the
/// admin-path gate as unauthorized, and neither `upgrade` nor `set_version`
/// changes any state for it.
pub proof fn lemma_non_admin_rejected(
    g: GovView,
    caller: u64,
    new_version: u32,
    start: u64,
    now: u64,
)
    requires
        g.is_admin_mode(),
        caller != g.admin(),
    ensures
        admin_gate(g, caller) == Err::<(), UpgradeError>(UpgradeError::Unauthorized),
        upgrade_next(g, caller, start, now) == g,
        set_version_next(g, caller, new_version, start, now) == g,
{
}

/// The telemetry counters after a sequence of tracked operation outcomes.
pub open spec fn tel_after(t: TelemetryView, outcomes: Seq<bool>) -> TelemetryView
    decreases outcomes.len(),
{
    if outcomes.len() == 0 {
        t
    } else {
        tel_tracked(tel_after(t, outcomes.drop_last()), outcomes.last())
    }
}

/// How many outcomes of a sequence are failures.
pub open spec fn failures(outcomes: Seq<bool>) -> int
    decreases outcomes.len(),
{
    if outcomes.len() == 0 {
        0int
    } else {
        failures(outcomes.drop_last()) + if outcomes.last() {
            0int
        } else {
            1int
        }
    }
}

proof fn lemma_tel_after_counts(outcomes: Seq<bool>)
    requires
        outcomes.len() <= u64::MAX,
    ensures
        0 <= failures(outcomes) <= outcomes.len(),
        tel_after(tel_zero(), outcomes).ops == outcomes.len(),
        tel_after(tel_zero(), outcomes).errors == failures(outcomes),
    decreases outcomes.len(),
{
    if outcomes.len() > 0 {
        lemma_tel_after_counts(outcomes.drop_last());
    }
}

/// Analytics round-trip: after `k` tracked operations of which `e` failed
/// (`e <= k` by construction), the analytics counters read exactly `k` and
/// `e`, and the error rate is `floor(e * 10000 / k)` basis points — 0 when
/// `k == 0`.
pub proof fn lemma_analytics_round_trip(outcomes: Seq<bool>)
    requires
        outcomes.len() <= u64::MAX,
    ensures
        tel_after(tel_zero(), outcomes).ops == outcomes.len(),
        tel_after(tel_zero(), outcomes).errors == failures(outcomes),
        rate_of(tel_after(tel_zero(), outcomes).errors, tel_after(tel_zero(), outcomes).ops) == (
        if outcomes.len() == 0 {
            0int
        } else {
            failures(outcomes) * 10000 / outcomes.len() as int
        }),
{
    lemma_tel_after_counts(outcomes);
    let k = outcomes.len() as int;
    let e = failures(outcomes);
    if k > 0 {
        lemma_mul_inequality(e, k, 10000);
        lemma_div_is_ordered(e * 10000, k * 10000, k);
        lemma_div_by_multiple(10000, k);
    }
}

} // verus!
