use vstd::prelude::*;
use crate::chunker::chunk_count;
use crate::tracker::{
    all_confirmed, ascending, index_view, lemma_none_pending, lemma_pending_exact, merge_statuses,
    pending_indices, ConfirmationTracker,
};

verus! {

/// Where a deployment stands.
#[derive(Debug, Clone, Copy, PartialEq, Eq, Structural)]
pub enum Phase {
    /// Waiting for the rent of the buffer and of the final storage.
    Sizing,
    /// Waiting for the buffer account to be created.
    Allocating,
    /// The buffer exists; no chunk has been sent yet.
    StorageAllocated,
    /// Chunks were broadcast; polling for confirmations.
    Confirming,
    /// The fast path ran out of time; submitting the rest one by one.
    FallbackSubmitting,
    /// Every chunk is durable; finalize may be sent.
    AllConfirmed,
    /// The finalize instruction is being sent.
    Finalizing,
    /// The program is deployed.
    Finalized,
    /// The program is deployed and its upgrade authority revoked.
    AuthorityRevoked,
    /// A fatal error ended the run.
    Failed,
    /// The operator cancelled the run.
    Cancelled,
}

/// Why a deployment stopped.
#[derive(Debug, Clone)]
pub enum DeployError {
    /// The payload holds no byte.
    EmptyPayload,
    /// A rent query failed.
    SizingFailed,
    /// The buffer account could not be created.
    AllocationFailed,
    /// No endpoint of the cluster offers the fast transport.
    DiscoveryEmpty,
    /// The fast path ran out of time and the fallback is disabled.
    ConfirmationExhausted { pending: Vec<usize> },
    /// The reliable channel failed to land a chunk.
    FallbackFailed { index: usize },
    /// Finalize was asked for while these chunks are unconfirmed.
    IncompleteUpload { unconfirmed: Vec<usize> },
    /// The finalize instruction failed; the buffer is paid for and filled.
    FinalizeFailed,
    /// Revoking the upgrade authority failed; the program is deployed.
    RevokeFailed,
}

/// Time limits and options of one run; times are in seconds.
#[derive(Debug, Clone, Copy)]
pub struct DeployConfig {
    /// Budget of the fast path, from the first broadcast.
    pub max_wait: u64,
    /// Minimum time between two resends of the unconfirmed chunks.
    pub resend_interval: u64,
    /// Submit the remaining chunks over the reliable channel after `max_wait`.
    pub fallback_enabled: bool,
    /// Revoke the upgrade authority after deploying.
    pub make_immutable: bool,
}

/// What the driver does after a poll round.
#[derive(Debug, Clone)]
pub enum RoundAction {
    /// Every chunk is confirmed: go on to finalize.
    AllConfirmed,
    /// Nothing to send now: sleep and poll again.
    Wait,
    /// Broadcast again the already signed transactions of these chunks.
    Resend(Vec<usize>),
    /// Submit these chunks over the reliable channel, one at a time, in this order.
    Fallback(Vec<usize>),
}

/// What the driver does after finalize landed.
#[derive(Debug, Clone, Copy, PartialEq, Eq, Structural)]
pub enum NextStep {
    RevokeAuthority,
    Done,
}

/// Seconds from `since` to `now`; zero if the clock went backwards.
pub open spec fn elapsed(now: u64, since: u64) -> int {
    if now >= since {
        now - since
    } else {
        0
    }
}

/// The fast path's budget is spent.
pub open spec fn out_of_time(d: DeploymentView, now: u64) -> bool {
    elapsed(now, d.started_at) >= d.config.max_wait
}

/// The unconfirmed chunks are due to be sent again.
pub open spec fn resend_due(d: DeploymentView, now: u64) -> bool {
    elapsed(now, d.last_resend) >= d.config.resend_interval
}

/// The model of a deployment.
pub struct DeploymentView {
    pub phase: Phase,
    pub confirmed: Seq<bool>,
    pub payload_len: nat,
    pub chunk_size: nat,
    pub config: DeployConfig,
    pub started_at: u64,
    pub last_resend: u64,
    pub buffer_rent: u64,
    pub final_rent: u64,
}

/// The phases in which every chunk is known to be durable.
pub open spec fn upload_complete(p: Phase) -> bool {
    p == Phase::AllConfirmed || p == Phase::Finalizing || p == Phase::Finalized
        || p == Phase::AuthorityRevoked
}

/// One program deployment: its phase and the confirmation state of its chunks.
pub struct Deployment {
    phase: Phase,
    tracker: ConfirmationTracker,
    payload_len: usize,
    chunk_size: usize,
    config: DeployConfig,
    started_at: u64,
    last_resend: u64,
    buffer_rent: u64,
    final_rent: u64,
}

impl View for Deployment {
    type V = DeploymentView;

    closed spec fn view(&self) -> DeploymentView {
        DeploymentView {
            phase: self.phase,
            confirmed: self.tracker@,
            payload_len: self.payload_len as nat,
            chunk_size: self.chunk_size as nat,
            config: self.config,
            started_at: self.started_at,
            last_resend: self.last_resend,
            buffer_rent: self.buffer_rent,
            final_rent: self.final_rent,
        }
    }
}

impl Deployment {
    /// The chunk set matches the payload, and finalize-side phases have a
    /// complete upload.
    pub open spec fn wf(&self) -> bool {
        &&& self@.payload_len > 0
        &&& self@.chunk_size > 0
        &&& self@.confirmed.len() == chunk_count(self@.payload_len, self@.chunk_size)
        &&& upload_complete(self@.phase) ==> all_confirmed(self@.confirmed)
    }

    /// Plans the deployment of a payload of `payload_len` bytes cut into
    /// chunks of `chunk_size` bytes; an empty payload is refused.
    pub fn new(payload_len: usize, chunk_size: usize, config: DeployConfig) -> (r: Result<Deployment, DeployError>)
        requires
            chunk_size > 0,
        ensures
            payload_len == 0 <==> r is Err,
            r is Err ==> r->Err_0 is EmptyPayload,
            r is Ok ==> ({
                let d = r->Ok_0;
                &&& d.wf()
                &&& d@.phase == Phase::Sizing
                &&& d@.payload_len == payload_len
                &&& d@.chunk_size == chunk_size
                &&& d@.confirmed.len() == chunk_count(payload_len as nat, chunk_size as nat)
                &&& d@.config == config
                &&& d@.confirmed == Seq::new(d@.confirmed.len(), |i: int| false)
            }),
    {
        if payload_len == 0 {
            return Err(DeployError::EmptyPayload);
        }
        proof {
            vstd::arithmetic::div_mod::lemma_fundamental_div_mod(payload_len as int, chunk_size as int);
            let q = payload_len as int / chunk_size as int;
            let m = payload_len as int % chunk_size as int;
            assert(q <= q * chunk_size) by (nonlinear_arith) requires chunk_size >= 1, q >= 0;
            assert(q * chunk_size == chunk_size * q) by (nonlinear_arith);
            if m != 0 {
                assert(q < payload_len);
            }
        }
        let count = payload_len / chunk_size + if payload_len % chunk_size == 0 { 0 } else { 1 };
        proof {
            lemma_count_formula(payload_len as nat, chunk_size as nat);
        }
        let tracker = ConfirmationTracker::new(count);
        Ok(Deployment {
            phase: Phase::Sizing,
            tracker,
            payload_len,
            chunk_size,
            config,
            started_at: 0,
            last_resend: 0,
            buffer_rent: 0,
            final_rent: 0,
        })
    }

    pub fn phase(&self) -> (r: Phase)
        ensures
            r == self@.phase,
    {
        self.phase
    }

    pub fn chunk_count(&self) -> (r: usize)
        ensures
            r == self@.confirmed.len(),
    {
        self.tracker.len()
    }

    pub fn is_confirmed(&self, index: usize) -> (r: bool)
        requires
            index < self@.confirmed.len(),
        ensures
            r == self@.confirmed[index as int],
    {
        self.tracker.is_confirmed(index)
    }

    /// The unconfirmed chunk indices, ascending.
    pub fn pending(&self) -> (r: Vec<usize>)
        ensures
            index_view(r@) == pending_indices(self@.confirmed),
    {
        self.tracker.pending()
    }

    /// Rent of the buffer and of the final storage, as recorded.
    pub fn rents(&self) -> (r: (u64, u64))
        ensures
            r == (self@.buffer_rent, self@.final_rent),
    {
        (self.buffer_rent, self.final_rent)
    }
}

impl Deployment {
    /// Records the two rent queries; a failed query (`None`) is fatal.
    pub fn record_sizes(&mut self, buffer_rent: Option<u64>, final_rent: Option<u64>) -> (r: Result<(), DeployError>)
        requires
            old(self).wf(),
            old(self)@.phase == Phase::Sizing,
        ensures
            final(self).wf(),
            r is Ok <==> (buffer_rent is Some && final_rent is Some),
            r is Ok ==> final(self)@ == (DeploymentView {
                phase: Phase::Allocating,
                buffer_rent: buffer_rent->Some_0,
                final_rent: final_rent->Some_0,
                ..old(self)@
            }),
            r is Err ==> r->Err_0 is SizingFailed
                && final(self)@ == (DeploymentView { phase: Phase::Failed, ..old(self)@ }),
    {
        match (buffer_rent, final_rent) {
            (Some(b), Some(f)) => {
                self.buffer_rent = b;
                self.final_rent = f;
                self.phase = Phase::Allocating;
                Ok(())
            },
            _ => {
                self.phase = Phase::Failed;
                Err(DeployError::SizingFailed)
            },
        }
    }

    /// Records whether the buffer account was created.
    pub fn record_allocation(&mut self, created: bool) -> (r: Result<(), DeployError>)
        requires
            old(self).wf(),
            old(self)@.phase == Phase::Allocating,
        ensures
            final(self).wf(),
            final(self)@ == (DeploymentView { phase: final(self)@.phase, ..old(self)@ }),
            r is Ok <==> created,
            created ==> final(self)@.phase == Phase::StorageAllocated,
            !created ==> r->Err_0 is AllocationFailed && final(self)@.phase == Phase::Failed,
    {
        if created {
            self.phase = Phase::StorageAllocated;
            Ok(())
        } else {
            self.phase = Phase::Failed;
            Err(DeployError::AllocationFailed)
        }
    }

    /// Starts the fast path at time `now` with the endpoints found; returns
    /// the first broadcast batch, which is every chunk. No endpoint is fatal.
    pub fn start_broadcast(&mut self, endpoint_count: usize, now: u64) -> (r: Result<Vec<usize>, DeployError>)
        requires
            old(self).wf(),
            old(self)@.phase == Phase::StorageAllocated,
        ensures
            final(self).wf(),
            r is Ok <==> endpoint_count > 0,
            r is Ok ==> final(self)@ == (DeploymentView {
                phase: Phase::Confirming,
                started_at: now,
                last_resend: now,
                ..old(self)@
            }) && index_view((r->Ok_0)@) == pending_indices(old(self)@.confirmed),
            r is Err ==> r->Err_0 is DiscoveryEmpty
                && final(self)@ == (DeploymentView { phase: Phase::Failed, ..old(self)@ }),
    {
        if endpoint_count == 0 {
            self.phase = Phase::Failed;
            return Err(DeployError::DiscoveryEmpty);
        }
        self.phase = Phase::Confirming;
        self.started_at = now;
        self.last_resend = now;
        Ok(self.tracker.pending())
    }

    /// One round of the confirmation loop at time `now`, given the polled
    /// status of every chunk (`true`: the status is non-empty). Confirms the
    /// chunks with a status; then finishes when all are confirmed, switches to
    /// the fallback (or fails without one) once `max_wait` has passed since
    /// the first broadcast, resends exactly the unconfirmed chunks once
    /// `resend_interval` has passed since the last resend, and waits otherwise.
    pub fn poll_round(&mut self, statuses: &Vec<bool>, now: u64) -> (r: Result<RoundAction, DeployError>)
        requires
            old(self).wf(),
            old(self)@.phase == Phase::Confirming || old(self)@.phase == Phase::AllConfirmed,
            statuses@.len() == old(self)@.confirmed.len(),
        ensures
            final(self).wf(),
            final(self)@ == (DeploymentView {
                phase: final(self)@.phase,
                confirmed: merge_statuses(old(self)@.confirmed, statuses@),
                last_resend: final(self)@.last_resend,
                ..old(self)@
            }),
            all_confirmed(final(self)@.confirmed) ==> r is Ok && r->Ok_0 is AllConfirmed
                && final(self)@.phase == Phase::AllConfirmed
                && final(self)@.last_resend == old(self)@.last_resend,
            !all_confirmed(final(self)@.confirmed) && out_of_time(old(self)@, now)
                && old(self)@.config.fallback_enabled ==> r is Ok && r->Ok_0 is Fallback
                && index_view((r->Ok_0->Fallback_0)@) == pending_indices(final(self)@.confirmed)
                && final(self)@.phase == Phase::FallbackSubmitting
                && final(self)@.last_resend == old(self)@.last_resend,
            !all_confirmed(final(self)@.confirmed) && out_of_time(old(self)@, now)
                && !old(self)@.config.fallback_enabled ==> r is Err && r->Err_0 is ConfirmationExhausted
                && index_view((r->Err_0->pending)@) == pending_indices(final(self)@.confirmed)
                && final(self)@.phase == Phase::Failed
                && final(self)@.last_resend == old(self)@.last_resend,
            !all_confirmed(final(self)@.confirmed) && !out_of_time(old(self)@, now)
                && resend_due(old(self)@, now) ==> r is Ok && r->Ok_0 is Resend
                && index_view((r->Ok_0->Resend_0)@) == pending_indices(final(self)@.confirmed)
                && final(self)@.phase == Phase::Confirming
                && final(self)@.last_resend == now,
            !all_confirmed(final(self)@.confirmed) && !out_of_time(old(self)@, now)
                && !resend_due(old(self)@, now) ==> r is Ok && r->Ok_0 is Wait
                && final(self)@.phase == Phase::Confirming
                && final(self)@.last_resend == old(self)@.last_resend,
    {
        self.tracker.record_statuses(statuses);
        if self.tracker.all_confirmed() {
            self.phase = Phase::AllConfirmed;
            return Ok(RoundAction::AllConfirmed);
        }
        let since_start: u64 = if now >= self.started_at { now - self.started_at } else { 0 };
        let since_resend: u64 = if now >= self.last_resend { now - self.last_resend } else { 0 };
        let expired = since_start >= self.config.max_wait;
        let due = since_resend >= self.config.resend_interval;
        if expired {
            let pending = self.tracker.pending();
            if self.config.fallback_enabled {
                self.phase = Phase::FallbackSubmitting;
                Ok(RoundAction::Fallback(pending))
            } else {
                self.phase = Phase::Failed;
                Err(DeployError::ConfirmationExhausted { pending })
            }
        } else if due {
            self.last_resend = now;
            Ok(RoundAction::Resend(self.tracker.pending()))
        } else {
            Ok(RoundAction::Wait)
        }
    }

    /// The next chunk for the reliable channel: the lowest unconfirmed index.
    pub fn next_fallback(&self) -> (r: Option<usize>)
        ensures
            pending_indices(self@.confirmed).len() == 0 ==> r is None,
            pending_indices(self@.confirmed).len() > 0 ==> r is Some
                && r->Some_0 as int == pending_indices(self@.confirmed)[0],
    {
        let pending = self.tracker.pending();
        if pending.len() == 0 {
            None
        } else {
            assert(index_view(pending@)[0] == pending@[0] as int);
            Some(pending[0])
        }
    }

    /// Records the outcome of one submission over the reliable channel. A
    /// failure there is fatal.
    pub fn record_fallback(&mut self, index: usize, landed: bool) -> (r: Result<(), DeployError>)
        requires
            old(self).wf(),
            old(self)@.phase == Phase::FallbackSubmitting,
            index < old(self)@.confirmed.len(),
        ensures
            final(self).wf(),
            r is Ok <==> landed,
            landed ==> final(self)@ == (DeploymentView {
                phase: if all_confirmed(old(self)@.confirmed.update(index as int, true)) {
                    Phase::AllConfirmed
                } else {
                    Phase::FallbackSubmitting
                },
                confirmed: old(self)@.confirmed.update(index as int, true),
                ..old(self)@
            }),
            !landed ==> r->Err_0 == (DeployError::FallbackFailed { index })
                && final(self)@ == (DeploymentView { phase: Phase::Failed, ..old(self)@ }),
    {
        if !landed {
            self.phase = Phase::Failed;
            return Err(DeployError::FallbackFailed { index });
        }
        self.tracker.confirm(index);
        if self.tracker.all_confirmed() {
            self.phase = Phase::AllConfirmed;
        }
        Ok(())
    }

    /// Guards the finalize step: it may be sent only when every chunk is
    /// confirmed. Otherwise nothing changes and the unconfirmed chunks are
    /// reported.
    pub fn begin_finalize(&mut self) -> (r: Result<(), DeployError>)
        requires
            old(self).wf(),
            old(self)@.phase == Phase::Confirming || old(self)@.phase == Phase::FallbackSubmitting
                || old(self)@.phase == Phase::AllConfirmed,
        ensures
            final(self).wf(),
            r is Ok <==> all_confirmed(old(self)@.confirmed),
            r is Ok ==> final(self)@ == (DeploymentView { phase: Phase::Finalizing, ..old(self)@ }),
            r is Err ==> final(self)@ == old(self)@
                && r->Err_0 is IncompleteUpload
                && index_view((r->Err_0->unconfirmed)@) == pending_indices(old(self)@.confirmed),
    {
        if !self.tracker.all_confirmed() {
            return Err(DeployError::IncompleteUpload { unconfirmed: self.tracker.pending() });
        }
        self.phase = Phase::Finalizing;
        Ok(())
    }

    /// Records the outcome of the finalize instruction and says what follows.
    pub fn record_finalize(&mut self, landed: bool) -> (r: Result<NextStep, DeployError>)
        requires
            old(self).wf(),
            old(self)@.phase == Phase::Finalizing,
        ensures
            final(self).wf(),
            final(self)@ == (DeploymentView { phase: final(self)@.phase, ..old(self)@ }),
            r is Ok <==> landed,
            landed ==> final(self)@.phase == Phase::Finalized
                && r->Ok_0 == if old(self)@.config.make_immutable { NextStep::RevokeAuthority } else { NextStep::Done },
            !landed ==> r->Err_0 is FinalizeFailed && final(self)@.phase == Phase::Failed,
    {
        if !landed {
            self.phase = Phase::Failed;
            return Err(DeployError::FinalizeFailed);
        }
        self.phase = Phase::Finalized;
        if self.config.make_immutable {
            Ok(NextStep::RevokeAuthority)
        } else {
            Ok(NextStep::Done)
        }
    }

    /// Records the outcome of revoking the upgrade authority.
    pub fn record_revoke(&mut self, landed: bool) -> (r: Result<(), DeployError>)
        requires
            old(self).wf(),
            old(self)@.phase == Phase::Finalized,
            old(self)@.config.make_immutable,
        ensures
            final(self).wf(),
            final(self)@ == (DeploymentView { phase: final(self)@.phase, ..old(self)@ }),
            r is Ok <==> landed,
            landed ==> final(self)@.phase == Phase::AuthorityRevoked,
            !landed ==> r->Err_0 is RevokeFailed && final(self)@.phase == Phase::Finalized,
    {
        if landed {
            self.phase = Phase::AuthorityRevoked;
            Ok(())
        } else {
            Err(DeployError::RevokeFailed)
        }
    }

    /// Cancels a run that has not reached finalize; returns whether it did.
    /// The storage already created is left as it is.
    pub fn cancel(&mut self) -> (r: bool)
        requires
            old(self).wf(),
        ensures
            final(self).wf(),
            r <==> (old(self)@.phase == Phase::Sizing || old(self)@.phase == Phase::Allocating
                || old(self)@.phase == Phase::StorageAllocated || old(self)@.phase == Phase::Confirming
                || old(self)@.phase == Phase::FallbackSubmitting || old(self)@.phase == Phase::AllConfirmed),
            final(self)@ == (DeploymentView { phase: if r { Phase::Cancelled } else { old(self)@.phase }, ..old(self)@ }),
    {
        match self.phase {
            Phase::Sizing | Phase::Allocating | Phase::StorageAllocated | Phase::Confirming
            | Phase::FallbackSubmitting | Phase::AllConfirmed => {
                self.phase = Phase::Cancelled;
                true
            },
            _ => false,
        }
    }
}

/// Chunk flags after the reliable channel landed the chunks of `batch`, in order.
pub open spec fn confirm_each(c: Seq<bool>, batch: Seq<int>) -> Seq<bool>
    decreases batch.len(),
{
    if batch.len() == 0 {
        c
    } else {
        confirm_each(c, batch.drop_last()).update(batch.last(), true)
    }
}

/// Once every chunk is confirmed, another poll round leaves every chunk
/// confirmed and nothing pending, so it broadcasts nothing.
pub proof fn lemma_confirmed_round_is_quiet(c: Seq<bool>, statuses: Seq<bool>)
    requires
        all_confirmed(c),
        statuses.len() == c.len(),
    ensures
        all_confirmed(merge_statuses(c, statuses)),
        pending_indices(merge_statuses(c, statuses)).len() == 0,
{
    let m = merge_statuses(c, statuses);
    assert forall|i: int| 0 <= i < m.len() implies #[trigger] m[i] by {
        assert(c[i]);
    }
    lemma_none_pending(m);
}

/// When the fast path gives up with chunks unconfirmed, the fallback batch
/// lists each unconfirmed chunk once, in ascending order, and the upload is
/// complete after exactly as many landed submissions as the batch holds:
/// after any shorter prefix of it, some chunk is still unconfirmed.
pub proof fn lemma_fallback_submits_each_once(c: Seq<bool>, k: nat)
    requires
        k <= pending_indices(c).len(),
    ensures
        ascending(pending_indices(c)),
        forall|i: int| 0 <= i < c.len() ==> (pending_indices(c).contains(i) <==> !c[i]),
        all_confirmed(confirm_each(c, pending_indices(c).take(k as int))) <==> k == pending_indices(c).len(),
{
    let p = pending_indices(c);
    lemma_pending_exact(c);
    let b = p.take(k as int);
    lemma_confirm_each(c, b);
    let after = confirm_each(c, b);
    if k == p.len() {
        assert(b =~= p);
        assert forall|i: int| 0 <= i < after.len() implies #[trigger] after[i] by {
            if !c[i] {
                assert(p.contains(i));
            }
        }
    } else {
        let j = p[k as int];
        assert(p.contains(j));
        assert(!c[j]);
        if b.contains(j) {
            let t = choose|t: int| 0 <= t < b.len() && b[t] == j;
            assert(p[t] < p[k as int]);
        }
        assert(!after[j]);
    }
}

/// Landing a batch of chunks confirms exactly those chunks.
proof fn lemma_confirm_each(c: Seq<bool>, batch: Seq<int>)
    requires
        forall|t: int| 0 <= t < batch.len() ==> 0 <= #[trigger] batch[t] < c.len(),
    ensures
        confirm_each(c, batch).len() == c.len(),
        forall|i: int| 0 <= i < c.len() ==> #[trigger] confirm_each(c, batch)[i] == (c[i] || batch.contains(i)),
    decreases batch.len(),
{
    if batch.len() > 0 {
        let d = batch.drop_last();
        lemma_confirm_each(c, d);
        assert forall|i: int| 0 <= i < c.len() implies #[trigger] confirm_each(c, batch)[i] == (c[i] || batch.contains(i)) by {
            if d.contains(i) {
                let t = choose|t: int| 0 <= t < d.len() && d[t] == i;
                assert(batch[t] == i);
            }
            if batch.contains(i) && i != batch.last() {
                let t = choose|t: int| 0 <= t < batch.len() && batch[t] == i;
                assert(t < d.len());
                assert(d[t] == i);
            }
            if i == batch.last() {
                assert(batch[batch.len() - 1] == i);
            }
        }
    }
}

/// `ceil(len / size)` as quotient plus one for a remainder.
proof fn lemma_count_formula(len: nat, size: nat)
    requires
        size > 0,
    ensures
        chunk_count(len, size) == len / size + if len % size == 0 { 0nat } else { 1nat },
{
    vstd::arithmetic::div_mod::lemma_fundamental_div_mod(len as int, size as int);
    let q = len / size;
    let r = len % size;
    assert(len == q * size + r) by (nonlinear_arith) requires len == size * q + r;
    assert((q + 1) * size == q * size + size) by (nonlinear_arith);
    if r == 0 {
        vstd::arithmetic::div_mod::lemma_fundamental_div_mod_converse(
            (len + size - 1) as int, size as int, q as int, (size - 1) as int);
    } else {
        vstd::arithmetic::div_mod::lemma_fundamental_div_mod_converse(
            (len + size - 1) as int, size as int, (q + 1) as int, (r - 1) as int);
    }
}

} // verus!
