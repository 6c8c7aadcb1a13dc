//! The upgrade-governance state machine.
//!
//! A [`GrainlifyContract`] value is the whole durable state of the core: the
//! trust configuration (chosen exactly once), the version registry, the
//! proposal store, and the telemetry. Its abstract value is a [`GovView`],
//! and every operation's contract equates the outcome with a spec-level
//! transition function over that view.
//!
//! The embedding host performs everything that is not a state transition:
//! it proves that a caller controls a principal before passing that
//! principal in, reads the clock for the timestamp arguments, persists the
//! state between calls, and hands the artifact returned by a successful
//! execution to its code-replacement primitive.

use vstd::prelude::*;
use crate::errors::UpgradeError;
use crate::monitoring::{
    avg_of, rate_of, sat_sub, tel_perf, tel_tracked, tel_zero, Analytics, HealthStatus,
    PerformanceStats, StateSnapshot, Telemetry, TelemetryView,
};

verus! {

/// Operation-name identifier under which the initializers record telemetry.
pub const OP_INIT: u64 = 1;

/// Operation-name identifier of the admin-path upgrade.
pub const OP_UPGRADE: u64 = 2;

/// Operation-name identifier of the version-set operation.
pub const OP_SET_VERSION: u64 = 3;

/// The version written by either initializer.
pub const INITIAL_VERSION: u32 = 1;

/// The trust configuration: exactly one variant is chosen at initialization
/// and never mutated afterwards.
pub enum AuthConfig {
    /// A single principal holds upgrade authority.
    SingleAdmin(u64),
    /// A signer set whose members approve proposals, with the number of
    /// distinct approvals required before one may execute.
    Multisig { signers: Vec<u64>, threshold: u32 },
}

/// A pending request to replace the running code. Proposals are never
/// deleted; an executed one stays queryable for audit.
pub struct Proposal {
    /// Content-derived identifier of the code image to install.
    pub artifact: Vec<u8>,
    pub proposer: u64,
    /// Distinct approving signers; re-approval is a no-op.
    pub approvals: Vec<u64>,
    /// Set exactly once; irreversible.
    pub executed: bool,
}

/// Abstract value of the trust configuration.
#[verifier::ext_equal]
pub enum ConfigView {
    SingleAdmin(u64),
    Multisig { signers: Seq<u64>, threshold: u32 },
}

/// Abstract value of one proposal.
#[verifier::ext_equal]
pub struct ProposalView {
    pub artifact: Seq<u8>,
    pub proposer: u64,
    pub approvals: Seq<u64>,
    pub executed: bool,
}

impl ProposalView {
    /// The approvals are distinct members of the configured signer set.
    pub open spec fn wf_in(self, signers: Seq<u64>) -> bool {
        &&& forall|k: int| 0 <= k < self.approvals.len() ==> signers.contains(#[trigger] self.approvals[k])
        &&& forall|k: int, l: int|
            0 <= k < l < self.approvals.len() ==> #[trigger] self.approvals[k] != #[trigger] self.approvals[l]
    }
}

/// Abstract value of the whole governance state.
#[verifier::ext_equal]
pub struct GovView {
    pub config: Option<ConfigView>,
    pub version: Option<u32>,
    pub proposals: Seq<ProposalView>,
    pub telemetry: TelemetryView,
}

impl GovView {
    /// Whether some initializer has succeeded: the version marker exists.
    pub open spec fn initialized(self) -> bool {
        self.version is Some
    }

    /// What `get_version` answers: the marker, or 0 before initialization.
    pub open spec fn version_value(self) -> u32 {
        match self.version {
            Some(v) => v,
            None => 0,
        }
    }

    pub open spec fn is_admin_mode(self) -> bool {
        self.config matches Some(ConfigView::SingleAdmin(_))
    }

    pub open spec fn admin(self) -> u64
        recommends
            self.is_admin_mode(),
    {
        match self.config {
            Some(ConfigView::SingleAdmin(a)) => a,
            _ => 0,
        }
    }

    pub open spec fn is_multisig(self) -> bool {
        self.config matches Some(ConfigView::Multisig { .. })
    }

    pub open spec fn signers(self) -> Seq<u64> {
        match self.config {
            Some(ConfigView::Multisig { signers, .. }) => signers,
            _ => Seq::empty(),
        }
    }

    pub open spec fn threshold(self) -> u32 {
        match self.config {
            Some(ConfigView::Multisig { threshold, .. }) => threshold,
            _ => 0,
        }
    }

    /// The invariant every reachable state satisfies: the configuration and
    /// the version marker exist together, a multisig threshold respects
    /// `1 <= threshold <= |signers|`, proposals exist only under a multisig
    /// configuration, and each proposal's approvals are distinct signers.
    pub open spec fn wf(self) -> bool {
        &&& self.telemetry.wf()
        &&& (self.config is Some <==> self.version is Some)
        &&& (self.is_multisig() ==> 1 <= self.threshold() <= self.signers().len())
        &&& (!self.is_multisig() ==> self.proposals.len() == 0)
        &&& forall|i: int|
            0 <= i < self.proposals.len() ==> (#[trigger] self.proposals[i]).wf_in(self.signers())
    }
}

/// The state before any initializer has run.
pub open spec fn gov_zero() -> GovView {
    GovView { config: None, version: None, proposals: Seq::empty(), telemetry: tel_zero() }
}

/// Outcome of `init`: rejected exactly when some initialization already
/// exists, whichever path performed it.
pub open spec fn init_result(g: GovView, signers: Seq<u64>, threshold: u32) -> Result<
    (),
    UpgradeError,
> {
    if g.initialized() {
        Err(UpgradeError::AlreadyInitialized)
    } else {
        Ok(())
    }
}

/// State after `init`: on success, the multisig configuration and the
/// initial version marker; on rejection, unchanged.
pub open spec fn init_next(g: GovView, signers: Seq<u64>, threshold: u32) -> GovView {
    if g.initialized() {
        g
    } else {
        GovView {
            config: Some(ConfigView::Multisig { signers, threshold }),
            version: Some(INITIAL_VERSION),
            ..g
        }
    }
}

/// Outcome of `init_admin`: same guard as `init`, keyed off the same marker.
pub open spec fn init_admin_result(g: GovView, admin: u64) -> Result<(), UpgradeError> {
    if g.initialized() {
        Err(UpgradeError::AlreadyInitialized)
    } else {
        Ok(())
    }
}

/// State after `init_admin`: on success, the admin configuration, the
/// initial version marker, and one successful `init` operation recorded in
/// the telemetry with its latency sample.
pub open spec fn init_admin_next(g: GovView, admin: u64, start: u64, now: u64) -> GovView {
    if g.initialized() {
        g
    } else {
        GovView {
            config: Some(ConfigView::SingleAdmin(admin)),
            version: Some(INITIAL_VERSION),
            telemetry: tel_perf(tel_tracked(g.telemetry, true), OP_INIT, sat_sub(now, start), now),
            ..g
        }
    }
}

/// Outcome of `propose_upgrade`: the next proposal id, or `NotFound` when
/// no multisig configuration exists to govern the pipeline.
pub open spec fn propose_result(g: GovView, proposer: u64, artifact: Seq<u8>) -> Result<
    u64,
    UpgradeError,
> {
    if !g.is_multisig() {
        Err(UpgradeError::NotFound)
    } else {
        Ok(g.proposals.len() as u64)
    }
}

/// State after `propose_upgrade`: a fresh open proposal appended under the
/// next monotonically increasing id.
pub open spec fn propose_next(g: GovView, proposer: u64, artifact: Seq<u8>) -> GovView {
    if !g.is_multisig() {
        g
    } else {
        GovView {
            proposals: g.proposals.push(
                ProposalView { artifact, proposer, approvals: Seq::empty(), executed: false },
            ),
            ..g
        }
    }
}

/// Outcome of `approve_upgrade`: requires a multisig configuration, a
/// signer-set member, an existing proposal, and one not yet executed.
pub open spec fn approve_result(g: GovView, proposal_id: u64, signer: u64) -> Result<
    (),
    UpgradeError,
> {
    if !g.is_multisig() {
        Err(UpgradeError::NotFound)
    } else if !g.signers().contains(signer) {
        Err(UpgradeError::Unauthorized)
    } else if proposal_id >= g.proposals.len() {
        Err(UpgradeError::NotFound)
    } else if g.proposals[proposal_id as int].executed {
        Err(UpgradeError::AlreadyExecuted)
    } else {
        Ok(())
    }
}

/// One approval folded into a proposal: adding a signer already present
/// changes nothing.
pub open spec fn approved_set(p: ProposalView, signer: u64) -> ProposalView {
    if p.approvals.contains(signer) {
        p
    } else {
        ProposalView { approvals: p.approvals.push(signer), ..p }
    }
}

/// State after `approve_upgrade`.
pub open spec fn approve_next(g: GovView, proposal_id: u64, signer: u64) -> GovView {
    if approve_result(g, proposal_id, signer) is Ok {
        GovView {
            proposals: g.proposals.update(
                proposal_id as int,
                approved_set(g.proposals[proposal_id as int], signer),
            ),
            ..g
        }
    } else {
        g
    }
}

/// Outcome of `execute_upgrade`: the artifact to install, or the error that
/// names exactly what is missing. Execution succeeds if and only if the
/// proposal exists under a multisig configuration, was never executed, and
/// carries at least `threshold` distinct approvals.
pub open spec fn execute_result(g: GovView, proposal_id: u64) -> Result<Seq<u8>, UpgradeError> {
    if !g.is_multisig() {
        Err(UpgradeError::NotFound)
    } else if proposal_id >= g.proposals.len() {
        Err(UpgradeError::NotFound)
    } else if g.proposals[proposal_id as int].executed {
        Err(UpgradeError::AlreadyExecuted)
    } else if g.proposals[proposal_id as int].approvals.len() < g.threshold() {
        Err(UpgradeError::ThresholdNotMet)
    } else {
        Ok(g.proposals[proposal_id as int].artifact)
    }
}

/// State after `execute_upgrade`: on success the proposal is permanently
/// marked executed; nothing else moves.
pub open spec fn execute_next(g: GovView, proposal_id: u64) -> GovView {
    if execute_result(g, proposal_id) is Ok {
        GovView {
            proposals: g.proposals.update(
                proposal_id as int,
                ProposalView { executed: true, ..g.proposals[proposal_id as int] },
            ),
            ..g
        }
    } else {
        g
    }
}

/// The admin-path authorization gate: `NotFound` when no admin is
/// configured, `Unauthorized` when the authenticated caller is not the
/// admin, and success otherwise.
pub open spec fn admin_gate(g: GovView, caller: u64) -> Result<(), UpgradeError> {
    if !g.is_admin_mode() {
        Err(UpgradeError::NotFound)
    } else if caller != g.admin() {
        Err(UpgradeError::Unauthorized)
    } else {
        Ok(())
    }
}

/// State after the admin-path `upgrade`: on success only the telemetry
/// moves — code replacement does not touch the version registry.
pub open spec fn upgrade_next(g: GovView, caller: u64, start: u64, now: u64) -> GovView {
    if admin_gate(g, caller) is Ok {
        GovView {
            telemetry: tel_perf(
                tel_tracked(g.telemetry, true),
                OP_UPGRADE,
                sat_sub(now, start),
                now,
            ),
            ..g
        }
    } else {
        g
    }
}

/// State after `set_version`: the version is overwritten unconditionally —
/// deliberately without a monotonicity check — and the telemetry records
/// the operation.
pub open spec fn set_version_next(g: GovView, caller: u64, new_version: u32, start: u64, now: u64) -> GovView {
    if admin_gate(g, caller) is Ok {
        GovView {
            version: Some(new_version),
            telemetry: tel_perf(
                tel_tracked(g.telemetry, true),
                OP_SET_VERSION,
                sat_sub(now, start),
                now,
            ),
            ..g
        }
    } else {
        g
    }
}

impl View for AuthConfig {
    type V = ConfigView;

    open spec fn view(&self) -> ConfigView {
        match self {
            AuthConfig::SingleAdmin(a) => ConfigView::SingleAdmin(*a),
            AuthConfig::Multisig { signers, threshold } => ConfigView::Multisig {
                signers: signers@,
                threshold: *threshold,
            },
        }
    }
}

impl View for Proposal {
    type V = ProposalView;

    open spec fn view(&self) -> ProposalView {
        ProposalView {
            artifact: self.artifact@,
            proposer: self.proposer,
            approvals: self.approvals@,
            executed: self.executed,
        }
    }
}

/// The upgrade governor: the whole durable state of the governance core.
pub struct GrainlifyContract {
    pub config: Option<AuthConfig>,
    pub version: Option<u32>,
    pub proposals: Vec<Proposal>,
    pub telemetry: Telemetry,
}

impl View for GrainlifyContract {
    type V = GovView;

    open spec fn view(&self) -> GovView {
        GovView {
            config: match self.config {
                Some(c) => Some(c@),
                None => None,
            },
            version: self.version,
            proposals: self.proposals@.map_values(|p: Proposal| p@),
            telemetry: self.telemetry@,
        }
    }
}

/// Whether `x` occurs in `v`.
fn contains_u64(v: &Vec<u64>, x: u64) -> (b: bool)
    ensures
        b == v@.contains(x),
{
    let mut i: usize = 0;
    while i < v.len()
        invariant
            i <= v@.len(),
            forall|j: int| 0 <= j < i ==> v@[j] != x,
        decreases v@.len() - i,
    {
        if v[i] == x {
            return true;
        }
        i += 1;
    }
    false
}

/// Byte-for-byte copy of an artifact identifier.
fn copy_bytes(v: &Vec<u8>) -> (r: Vec<u8>)
    ensures
        r@ == v@,
{
    let mut r: Vec<u8> = Vec::new();
    let mut i: usize = 0;
    while i < v.len()
        invariant
            i <= v@.len(),
            r@ == v@.subrange(0, i as int),
        decreases v@.len() - i,
    {
        r.push(v[i]);
        proof {
            assert(r@ =~= v@.subrange(0, i as int + 1));
        }
        i += 1;
    }
    proof {
        assert(r@ =~= v@);
    }
    r
}

/// A mutable borrow of the proposal at `i`.
fn proposal_mut(v: &mut Vec<Proposal>, i: usize) -> (p: &mut Proposal)
    requires
        i < old(v)@.len(),
    ensures
        *p == old(v)@[i as int],
        final(v)@ == old(v)@.update(i as int, *final(p)),
{
    &mut v[i]
}

impl GrainlifyContract {
    /// Exec-level invariant: the abstract invariant, plus the telemetry
    /// representation invariant.
    pub open spec fn wf(&self) -> bool {
        &&& self@.wf()
        &&& self.telemetry.wf()
    }

    /// The governor before any initializer has run: no configuration, no
    /// version marker, no proposals, zero telemetry.
    pub fn new() -> (g: GrainlifyContract)
        ensures
            g.wf(),
            g@ == gov_zero(),
    {
        let g = GrainlifyContract {
            config: None,
            version: None,
            proposals: Vec::new(),
            telemetry: Telemetry::new(),
        };
        proof {
            assert(g@.proposals =~= gov_zero().proposals);
            assert(g@ =~= gov_zero());
        }
        g
    }

    /// Establishes multisig mode: records the signer set and threshold and
    /// writes the initial version marker. Rejected, changing nothing, when
    /// any initialization already exists. Callers must have validated the
    /// threshold bound `1 <= threshold <= signers.len()` — the
    /// configuration is immutable afterwards, so an unreachable threshold
    /// could never be corrected.
    pub fn init(&mut self, signers: Vec<u64>, threshold: u32) -> (r: Result<(), UpgradeError>)
        requires
            old(self).wf(),
            1 <= threshold,
            threshold as int <= signers@.len(),
        ensures
            final(self).wf(),
            r == init_result(old(self)@, signers@, threshold),
            final(self)@ == init_next(old(self)@, signers@, threshold),
    {
        let ghost s = signers@;
        if self.version.is_some() {
            return Err(UpgradeError::AlreadyInitialized);
        }
        self.config = Some(AuthConfig::Multisig { signers, threshold });
        self.version = Some(INITIAL_VERSION);
        proof {
            assert(self@ =~= init_next(old(self)@, s, threshold));
        }
        Ok(())
    }

    /// Establishes single-admin mode: records the admin principal and the
    /// initial version marker, then records one successful `init`
    /// operation with its latency sample (`start` and `now` are the host's
    /// clock readings around the call). Rejected, changing nothing, when
    /// any initialization already exists.
    pub fn init_admin(&mut self, admin: u64, start: u64, now: u64) -> (r: Result<
        (),
        UpgradeError,
    >)
        requires
            old(self).wf(),
        ensures
            final(self).wf(),
            r == init_admin_result(old(self)@, admin),
            final(self)@ == init_admin_next(old(self)@, admin, start, now),
    {
        if self.version.is_some() {
            return Err(UpgradeError::AlreadyInitialized);
        }
        self.config = Some(AuthConfig::SingleAdmin(admin));
        self.version = Some(INITIAL_VERSION);
        let duration = now.saturating_sub(start);
        let _ = crate::monitoring::track_operation(&mut self.telemetry, OP_INIT, admin, true, now);
        let _ = crate::monitoring::emit_performance(&mut self.telemetry, OP_INIT, duration, now);
        proof {
            assert(self@ =~= init_admin_next(old(self)@, admin, start, now));
        }
        Ok(())
    }

    /// Opens a proposal to install `artifact`, allocating the next id.
    /// Requires the multisig pipeline to be configured.
    pub fn propose_upgrade(&mut self, proposer: u64, artifact: Vec<u8>) -> (r: Result<
        u64,
        UpgradeError,
    >)
        requires
            old(self).wf(),
        ensures
            final(self).wf(),
            r == propose_result(old(self)@, proposer, artifact@),
            final(self)@ == propose_next(old(self)@, proposer, artifact@),
    {
        let ghost a = artifact@;
        let is_ms = match &self.config {
            Some(AuthConfig::Multisig { .. }) => true,
            _ => false,
        };
        if !is_ms {
            return Err(UpgradeError::NotFound);
        }
        let id = self.proposals.len() as u64;
        self.proposals.push(
            Proposal { artifact, proposer, approvals: Vec::new(), executed: false },
        );
        proof {
            assert(self@.proposals =~= propose_next(old(self)@, proposer, a).proposals);
            assert(self@ =~= propose_next(old(self)@, proposer, a));
        }
        Ok(id)
    }

    /// Adds `signer`'s approval to an open proposal. `signer` must be a
    /// host-authenticated member of the signer set; approving twice is a
    /// no-op, not an error.
    pub fn approve_upgrade(&mut self, proposal_id: u64, signer: u64) -> (r: Result<
        (),
        UpgradeError,
    >)
        requires
            old(self).wf(),
        ensures
            final(self).wf(),
            r == approve_result(old(self)@, proposal_id, signer),
            final(self)@ == approve_next(old(self)@, proposal_id, signer),
    {
        let signer_ok: bool;
        match &self.config {
            Some(AuthConfig::Multisig { signers, .. }) => {
                signer_ok = contains_u64(signers, signer);
            },
            _ => {
                return Err(UpgradeError::NotFound);
            },
        }
        if !signer_ok {
            return Err(UpgradeError::Unauthorized);
        }
        if proposal_id >= self.proposals.len() as u64 {
            return Err(UpgradeError::NotFound);
        }
        let idx = proposal_id as usize;
        if self.proposals[idx].executed {
            return Err(UpgradeError::AlreadyExecuted);
        }
        let already = contains_u64(&self.proposals[idx].approvals, signer);
        if !already {
            let p = proposal_mut(&mut self.proposals, idx);
            p.approvals.push(signer);
        }
        proof {
            assert(self@.proposals =~= approve_next(old(self)@, proposal_id, signer).proposals);
            assert(self@ =~= approve_next(old(self)@, proposal_id, signer));
        }
        Ok(())
    }

    /// Executes a proposal whose approvals have met the threshold: marks it
    /// executed — irreversibly and exactly once — and returns the artifact
    /// for the host to hand to its code-replacement primitive.
    pub fn execute_upgrade(&mut self, proposal_id: u64) -> (r: Result<Vec<u8>, UpgradeError>)
        requires
            old(self).wf(),
        ensures
            final(self).wf(),
            r is Ok <==> execute_result(old(self)@, proposal_id) is Ok,
            (r matches Ok(a) ==> a@ == execute_result(old(self)@, proposal_id)->Ok_0),
            (r matches Err(e) ==> Err::<Seq<u8>, UpgradeError>(e) == execute_result(
                old(self)@,
                proposal_id,
            )),
            final(self)@ == execute_next(old(self)@, proposal_id),
    {
        let threshold: u32;
        match &self.config {
            Some(AuthConfig::Multisig { threshold: t, .. }) => {
                threshold = *t;
            },
            _ => {
                return Err(UpgradeError::NotFound);
            },
        }
        if proposal_id >= self.proposals.len() as u64 {
            return Err(UpgradeError::NotFound);
        }
        let idx = proposal_id as usize;
        if self.proposals[idx].executed {
            return Err(UpgradeError::AlreadyExecuted);
        }
        if (self.proposals[idx].approvals.len() as u64) < (threshold as u64) {
            return Err(UpgradeError::ThresholdNotMet);
        }
        let artifact = copy_bytes(&self.proposals[idx].artifact);
        let p = proposal_mut(&mut self.proposals, idx);
        p.executed = true;
        proof {
            assert(self@.proposals =~= execute_next(old(self)@, proposal_id).proposals);
            assert(self@ =~= execute_next(old(self)@, proposal_id));
        }
        Ok(artifact)
    }

    /// The single-admin upgrade path: decides whether the authenticated
    /// `caller` may replace the running code and records the operation's
    /// telemetry. On success the host hands its artifact to the
    /// code-replacement primitive; the version registry is deliberately
    /// untouched — version bumps are a separate caller-driven action.
    pub fn upgrade(&mut self, caller: u64, new_wasm_hash: Vec<u8>, start: u64, now: u64) -> (r:
        Result<Vec<u8>, UpgradeError>)
        requires
            old(self).wf(),
        ensures
            final(self).wf(),
            r is Ok <==> admin_gate(old(self)@, caller) is Ok,
            (r matches Ok(a) ==> a@ == new_wasm_hash@),
            (r matches Err(e) ==> Err::<(), UpgradeError>(e) == admin_gate(old(self)@, caller)),
            final(self)@ == upgrade_next(old(self)@, caller, start, now),
    {
        let admin: u64;
        match &self.config {
            Some(AuthConfig::SingleAdmin(a)) => {
                admin = *a;
            },
            _ => {
                return Err(UpgradeError::NotFound);
            },
        }
        if caller != admin {
            return Err(UpgradeError::Unauthorized);
        }
        let duration = now.saturating_sub(start);
        let _ = crate::monitoring::track_operation(
            &mut self.telemetry,
            OP_UPGRADE,
            admin,
            true,
            now,
        );
        let _ = crate::monitoring::emit_performance(&mut self.telemetry, OP_UPGRADE, duration, now);
        proof {
            assert(self@ =~= upgrade_next(old(self)@, caller, start, now));
        }
        Ok(new_wasm_hash)
    }

    /// The registered version, or 0 before any initialization — a benign
    /// default, not an error.
    pub fn get_version(&self) -> (r: u32)
        ensures
            r == self@.version_value(),
    {
        match self.version {
            Some(v) => v,
            None => 0,
        }
    }

    /// Overwrites the version registry — deliberately without any
    /// monotonicity check, so a version may move backward — after the same
    /// authorization gate as `upgrade`, and records the operation's
    /// telemetry.
    pub fn set_version(&mut self, caller: u64, new_version: u32, start: u64, now: u64) -> (r:
        Result<(), UpgradeError>)
        requires
            old(self).wf(),
        ensures
            final(self).wf(),
            r == admin_gate(old(self)@, caller),
            final(self)@ == set_version_next(old(self)@, caller, new_version, start, now),
    {
        let admin: u64;
        match &self.config {
            Some(AuthConfig::SingleAdmin(a)) => {
                admin = *a;
            },
            _ => {
                return Err(UpgradeError::NotFound);
            },
        }
        if caller != admin {
            return Err(UpgradeError::Unauthorized);
        }
        self.version = Some(new_version);
        let duration = now.saturating_sub(start);
        let _ = crate::monitoring::track_operation(
            &mut self.telemetry,
            OP_SET_VERSION,
            admin,
            true,
            now,
        );
        let _ = crate::monitoring::emit_performance(
            &mut self.telemetry,
            OP_SET_VERSION,
            duration,
            now,
        );
        proof {
            assert(self@ =~= set_version_next(old(self)@, caller, new_version, start, now));
        }
        Ok(())
    }

    /// Liveness summary over the governor's telemetry.
    pub fn health_check(&self, now: u64) -> (r: HealthStatus)
        ensures
            r.is_healthy,
            r.last_operation == now,
            r.total_operations == self@.telemetry.ops,
            r.contract_version@ == "1.0.0"@,
    {
        crate::monitoring::health_check(&self.telemetry, now)
    }

    /// Aggregate usage analytics over the governor's telemetry.
    pub fn get_analytics(&self) -> (r: Analytics)
        requires
            self.wf(),
        ensures
            r == (Analytics {
                operation_count: self@.telemetry.ops,
                unique_users: self@.telemetry.users,
                error_count: self@.telemetry.errors,
                error_rate: rate_of(self@.telemetry.errors, self@.telemetry.ops),
            }),
    {
        crate::monitoring::get_analytics(&self.telemetry)
    }

    /// Point-in-time counter snapshot over the governor's telemetry.
    pub fn get_state_snapshot(&self, now: u64) -> (r: StateSnapshot)
        ensures
            r == (StateSnapshot {
                timestamp: now,
                total_operations: self@.telemetry.ops,
                total_users: self@.telemetry.users,
                total_errors: self@.telemetry.errors,
            }),
    {
        crate::monitoring::get_state_snapshot(&self.telemetry, now)
    }

    /// The latency aggregate recorded for `function_name`.
    pub fn get_performance_stats(&self, function_name: u64) -> (r: PerformanceStats)
        ensures
            r == (PerformanceStats {
                function_name,
                call_count: self@.telemetry.perf[function_name].count,
                total_time: self@.telemetry.perf[function_name].total,
                avg_time: avg_of(self@.telemetry.perf[function_name]),
                last_called: self@.telemetry.perf[function_name].last,
            }),
    {
        crate::monitoring::get_performance_stats(&self.telemetry, function_name)
    }
}

} // verus!
