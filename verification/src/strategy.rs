//! Basic delivery strategy.
//!
//! The strategy owns a queue of not-yet-delivered nonce ranges, each tagged
//! with the source header at which it was observed, and the highest nonce
//! confirmed at the target. It selects nonces for delivery when there are
//! more nonces on the source side than on the target side and the header
//! that emitted them is already known to the target.

use crate::range::NonceRange;
use crate::state::{HeaderId, RaceState, SourceClientNonces, TargetClientNonces};
use std::collections::VecDeque;
use vstd::prelude::*;

verus! {

/// One queued batch: the source header it was observed at and its nonces.
pub type QueuedRange = (HeaderId, NonceRange);

/// Mathematical model of the strategy: the queued batches in order and the
/// highest nonce confirmed at the target.
#[verifier::ext_equal]
pub struct StrategyModel {
    /// Queued batches, oldest first.
    pub queue: Seq<QueuedRange>,
    /// Highest nonce the strategy believes is settled on the target.
    pub target_nonce: u64,
}

/// Every queued range holds at least one nonce, and the queue is in strictly
/// increasing nonce order with no overlapping coverage.
pub open spec fn queue_sorted(q: Seq<QueuedRange>) -> bool {
    &&& forall|i: int| 0 <= i < q.len() ==> (#[trigger] q[i]).1.wf()
    &&& forall|i: int, j: int|
        0 <= i < j < q.len() ==> (#[trigger] q[i]).1.end < (#[trigger] q[j]).1.begin
}

/// Every queued range lies strictly above `nonce`.
pub open spec fn queue_above(q: Seq<QueuedRange>, nonce: u64) -> bool {
    forall|i: int| 0 <= i < q.len() ==> (#[trigger] q[i]).1.begin > nonce
}

impl StrategyModel {
    /// The strategy's invariant: a sorted queue lying strictly above the
    /// target-confirmed nonce.
    pub open spec fn wf(self) -> bool {
        &&& queue_sorted(self.queue)
        &&& queue_above(self.queue, self.target_nonce)
    }

    /// Best nonce known at the source side: the end of the newest queued
    /// batch, but never below the target-confirmed nonce.
    pub open spec fn best_at_source(self) -> u64 {
        if self.queue.len() == 0 {
            self.target_nonce
        } else if self.queue.last().1.end >= self.target_nonce {
            self.queue.last().1.end
        } else {
            self.target_nonce
        }
    }
}

/// Effect of a source nonces report observed at header `at`: the part of the
/// report above everything already known is appended to the queue.
pub open spec fn source_update(m: StrategyModel, at: HeaderId, new_nonces: NonceRange) -> StrategyModel {
    match new_nonces.spec_greater_than(m.best_at_source()) {
        Some(fresh) => StrategyModel { queue: m.queue.push((at, fresh)), ..m },
        None => m,
    }
}

/// Queue left after the target confirmed every nonce up to `nonce`: fully
/// confirmed batches leave from the front, and a partially confirmed front
/// batch is trimmed to its unconfirmed suffix.
pub open spec fn trim_queue(q: Seq<QueuedRange>, nonce: u64) -> Seq<QueuedRange>
    decreases q.len(),
{
    if q.len() == 0 {
        q
    } else if q[0].1.begin > nonce {
        q
    } else {
        match q[0].1.spec_greater_than(nonce) {
            Some(suffix) => seq![(q[0].0, suffix)] + q.skip(1),
            None => trim_queue(q.skip(1), nonce),
        }
    }
}

/// Effect of a target nonces report: stale reports are ignored, otherwise
/// the queue is trimmed and the target-confirmed nonce advances.
pub open spec fn target_update(m: StrategyModel, nonce: u64) -> StrategyModel {
    if nonce < m.target_nonce {
        m
    } else {
        StrategyModel { queue: trim_queue(m.queue, nonce), target_nonce: nonce }
    }
}

/// An in-flight slot is cleared exactly when confirmation of `nonce`
/// supersedes it, that is when its range ends at or below `nonce`.
pub open spec fn cleared_if_superseded<Proof>(
    slot: Option<(HeaderId, NonceRange, Proof)>,
    nonce: u64,
) -> Option<(HeaderId, NonceRange, Proof)> {
    match slot {
        Some(entry) => if entry.1.end <= nonce {
            None
        } else {
            slot
        },
        None => None,
    }
}

/// Same clearing rule for the submitted-range slot.
pub open spec fn cleared_range_if_superseded(slot: Option<NonceRange>, nonce: u64) -> Option<
    NonceRange,
> {
    match slot {
        Some(range) => if range.end <= nonce {
            None
        } else {
            slot
        },
        None => None,
    }
}

/// Chooses which part of a deliverable range to hold back, for batching or
/// size limits.
pub trait NonceSelector: Sized {
    /// What the selector holds back, as a function of the offered range.
    spec fn spec_select(&self, range: NonceRange) -> Option<NonceRange>;

    /// Returns `None` when the whole `range` may be delivered now, or
    /// `Some` with the suffix of `range` that must stay queued. Nonces are
    /// delivered strictly in order, so the held-back part must be the
    /// sub-range that `range` ends with: it ends exactly where `range` ends
    /// and does not begin before `range` does.
    fn select(&self, range: NonceRange) -> (r: Option<NonceRange>)
        requires
            range.wf(),
        ensures
            r == self.spec_select(range),
            r matches Some(held) ==> held.wf() && held.begin >= range.begin && held.end
                == range.end,
    ;
}

/// The default selector: deliver everything, hold nothing back.
#[derive(Clone, Copy, Debug)]
pub struct DeliverAll;

impl NonceSelector for DeliverAll {
    open spec fn spec_select(&self, range: NonceRange) -> Option<NonceRange> {
        None
    }

    fn select(&self, range: NonceRange) -> (r: Option<NonceRange>) {
        None
    }
}

/// Walk of the queue made by one selection pass: batches observed at a
/// header the target has not yet confirmed (height above `peer_height`)
/// stop the walk; otherwise the selector either releases the whole front
/// batch, extending the delivered end `acc`, or holds back a suffix, which
/// replaces the batch at the front. Returns the end of the deliverable
/// range, if any, and the queue that remains.
pub open spec fn scan_deliverable<S: NonceSelector>(
    sel: S,
    q: Seq<QueuedRange>,
    peer_height: u64,
    acc: Option<u64>,
) -> (Option<u64>, Seq<QueuedRange>)
    decreases q.len(),
{
    if q.len() == 0 {
        (acc, q)
    } else if q[0].0.number > peer_height {
        (acc, q)
    } else {
        match sel.spec_select(q[0].1) {
            None => scan_deliverable(sel, q.skip(1), peer_height, Some(q[0].1.end)),
            Some(held) => (
                if held.begin != q[0].1.begin {
                    Some((held.begin - 1) as u64)
                } else {
                    acc
                },
                seq![(q[0].0, held)] + q.skip(1),
            ),
        }
    }
}

/// With the default selector the walk threads a `Some` accumulator through
/// to the end once it is set.
pub proof fn lemma_deliver_all_scan_keeps_some(q: Seq<QueuedRange>, peer_height: u64, acc: Option<u64>)
    requires
        acc is Some,
    ensures
        scan_deliverable(DeliverAll, q, peer_height, acc).0 is Some,
    decreases q.len(),
{
    if q.len() == 0 {
    } else if q[0].0.number > peer_height {
    } else {
        lemma_deliver_all_scan_keeps_some(q.skip(1), peer_height, Some(q[0].1.end));
    }
}

/// With the default selector, a walk that selects nothing leaves the queue
/// untouched.
pub proof fn lemma_deliver_all_scan_none_unchanged(q: Seq<QueuedRange>, peer_height: u64)
    ensures
        scan_deliverable(DeliverAll, q, peer_height, None::<u64>).0 is None ==> scan_deliverable(
            DeliverAll,
            q,
            peer_height,
            None::<u64>,
        ).1 == q,
{
    if q.len() == 0 {
    } else if q[0].0.number > peer_height {
    } else {
        lemma_deliver_all_scan_keeps_some(q.skip(1), peer_height, Some(q[0].1.end));
    }
}

/// Trimming keeps the queue sorted, and leaves only ranges strictly above
/// the confirmed nonce.
pub proof fn lemma_trim_queue_sorted(q: Seq<QueuedRange>, nonce: u64)
    requires
        queue_sorted(q),
    ensures
        queue_sorted(trim_queue(q, nonce)),
        queue_above(trim_queue(q, nonce), nonce),
    decreases q.len(),
{
    if q.len() == 0 {
    } else if q[0].1.begin > nonce {
        assert forall|i: int| 0 <= i < q.len() implies (#[trigger] q[i]).1.begin > nonce by {
            if i > 0 {
                assert(q[0].1.end < q[i].1.begin);
            }
        }
    } else {
        match q[0].1.spec_greater_than(nonce) {
            Some(suffix) => {
                let t = seq![(q[0].0, suffix)] + q.skip(1);
                assert forall|i: int, j: int| 0 <= i < j < t.len() implies (
                #[trigger] t[i]).1.end < (#[trigger] t[j]).1.begin by {
                    assert(q[i].1.end < q[j].1.begin);
                }
                assert forall|i: int| 0 <= i < t.len() implies (#[trigger] t[i]).1.begin
                    > nonce by {
                    if i > 0 {
                        assert(q[0].1.end < q[i].1.begin);
                    }
                }
            },
            None => {
                assert(queue_sorted(q.skip(1))) by {
                    assert forall|i: int, j: int| 0 <= i < j < q.skip(1).len() implies (
                    #[trigger] q.skip(1)[i]).1.end < (#[trigger] q.skip(1)[j]).1.begin by {
                        assert(q[i + 1].1.end < q[j + 1].1.begin);
                    }
                }
                lemma_trim_queue_sorted(q.skip(1), nonce);
            },
        }
    }
}

/// A queue already lying strictly above the confirmed nonce is left
/// untouched by trimming.
pub proof fn lemma_trim_queue_fixed(q: Seq<QueuedRange>, nonce: u64)
    requires
        queue_above(q, nonce),
    ensures
        trim_queue(q, nonce) == q,
{
    if q.len() > 0 {
        assert(q[0].1.begin > nonce);
    }
}

/// Law: under any sequence of target reports the best nonce at the target
/// never decreases: one confirmation step never lowers it, and no other
/// transition touches it.
pub proof fn lemma_target_update_monotonic(m: StrategyModel, nonce: u64)
    ensures
        target_update(m, nonce).target_nonce >= m.target_nonce,
{
}

/// Law: under any sequence of source reports the best nonce at the source
/// never decreases, and it is never below the best nonce at the target.
pub proof fn lemma_source_update_no_regression(m: StrategyModel, at: HeaderId, new_nonces: NonceRange)
    ensures
        source_update(m, at, new_nonces).best_at_source() >= m.best_at_source(),
        source_update(m, at, new_nonces).target_nonce == m.target_nonce,
        m.best_at_source() >= m.target_nonce,
{
    match new_nonces.spec_greater_than(m.best_at_source()) {
        Some(fresh) => {
            let pushed = source_update(m, at, new_nonces);
            assert(pushed.queue.last() == (at, fresh));
        },
        None => {},
    }
}

/// Law: confirming the same target nonce twice leaves the strategy in the
/// state the first confirmation produced.
pub proof fn lemma_target_update_idempotent(m: StrategyModel, nonce: u64)
    requires
        m.wf(),
    ensures
        target_update(target_update(m, nonce), nonce) == target_update(m, nonce),
{
    if nonce >= m.target_nonce {
        lemma_trim_queue_sorted(m.queue, nonce);
        let once = target_update(m, nonce);
        lemma_trim_queue_fixed(once.queue, nonce);
        assert(target_update(once, nonce) =~= once);
    }
}

/// Law: clearing the pending-to-submit slot on a confirmation is
/// idempotent.
pub proof fn lemma_cleared_if_superseded_idempotent<Proof>(
    slot: Option<(HeaderId, NonceRange, Proof)>,
    nonce: u64,
)
    ensures
        cleared_if_superseded(cleared_if_superseded(slot, nonce), nonce) == cleared_if_superseded(
            slot,
            nonce,
        ),
{
}

/// Law: clearing the submitted slot on a confirmation is idempotent.
pub proof fn lemma_cleared_range_if_superseded_idempotent(slot: Option<NonceRange>, nonce: u64)
    ensures
        cleared_range_if_superseded(cleared_range_if_superseded(slot, nonce), nonce)
            == cleared_range_if_superseded(slot, nonce),
{
}

/// Nonces delivery strategy.
#[derive(Debug)]
pub struct BasicStrategy {
    /// All queued nonces, oldest batch first.
    source_queue: VecDeque<QueuedRange>,
    /// Best nonce known to the target node.
    target_nonce: u64,
}

impl View for BasicStrategy {
    type V = StrategyModel;

    closed spec fn view(&self) -> StrategyModel {
        StrategyModel { queue: self.source_queue@, target_nonce: self.target_nonce }
    }
}

impl BasicStrategy {
    /// The strategy's invariant, stated over its model.
    pub open spec fn wf(self) -> bool {
        self@.wf()
    }

    /// Create a new, empty delivery strategy.
    pub fn new() -> (s: BasicStrategy)
        ensures
            s@.queue == Seq::<QueuedRange>::empty(),
            s@.target_nonce == 0,
            s.wf(),
    {
        BasicStrategy { source_queue: VecDeque::new(), target_nonce: 0 }
    }

    /// True iff nothing is queued for delivery.
    pub fn is_empty(&self) -> (r: bool)
        ensures
            r <==> self@.queue.len() == 0,
    {
        self.source_queue.len() == 0
    }

    /// The queued batches, oldest first.
    pub fn source_queue(&self) -> (r: &VecDeque<QueuedRange>)
        ensures
            r@ == self@.queue,
    {
        &self.source_queue
    }

    /// Best nonce known at the source node. Never lower than the best nonce
    /// known at the target node.
    pub fn best_at_source(&self) -> (r: u64)
        ensures
            r == self@.best_at_source(),
            r >= self@.target_nonce,
    {
        if self.source_queue.len() == 0 {
            self.target_nonce
        } else {
            let e = self.source_queue[self.source_queue.len() - 1].1.end;
            if e >= self.target_nonce {
                e
            } else {
                self.target_nonce
            }
        }
    }

    /// Best nonce known at the target node.
    pub fn best_at_target(&self) -> (r: u64)
        ensures
            r == self@.target_nonce,
    {
        self.target_nonce
    }

    /// Called when nonces are updated at the source node: the part of the
    /// report above everything already known is appended to the queue, so
    /// the queue never regresses or duplicates coverage. `best_at_source`
    /// never decreases.
    pub fn source_nonces_updated(&mut self, at_block: HeaderId, nonces: SourceClientNonces)
        requires
            old(self).wf(),
            nonces.new_nonces.wf(),
        ensures
            final(self).wf(),
            final(self)@ == source_update(old(self)@, at_block, nonces.new_nonces),
            final(self)@.target_nonce == old(self)@.target_nonce,
            final(self)@.best_at_source() >= old(self)@.best_at_source(),
    {
        let prev_best = self.best_at_source();
        match nonces.new_nonces.greater_than(prev_best) {
            Some(fresh) => {
                self.source_queue.push_back((at_block, fresh));
                proof {
                    let oldq = old(self)@.queue;
                    let newq = self@.queue;
                    assert(newq.last() == (at_block, fresh));
                    assert forall|i: int, j: int| 0 <= i < j < newq.len() implies (
                    #[trigger] newq[i]).1.end < (#[trigger] newq[j]).1.begin by {
                        if j == newq.len() - 1 {
                            if i < oldq.len() - 1 {
                                assert(oldq[i].1.end < oldq[oldq.len() - 1].1.begin);
                                assert(oldq[oldq.len() - 1].1.begin <= oldq[oldq.len() - 1].1.end);
                            }
                        }
                    }
                }
            },
            None => {},
        }
    }

    /// Called when nonces are updated at the target node. Stale reports (a
    /// `latest_nonce` below the target-confirmed nonce) are ignored
    /// entirely; otherwise every fully confirmed batch leaves the queue, a
    /// partially confirmed front batch is trimmed to its unconfirmed suffix,
    /// the in-flight slots of `race_state` are cleared when the confirmation
    /// supersedes them, and the target-confirmed nonce advances to
    /// `latest_nonce`. The target-confirmed nonce never decreases.
    #[verifier::loop_isolation(false)]
    pub fn target_nonces_updated<Proof>(
        &mut self,
        nonces: TargetClientNonces,
        race_state: &mut RaceState<Proof>,
    )
        requires
            old(self).wf(),
        ensures
            final(self).wf(),
            final(self)@ == target_update(old(self)@, nonces.latest_nonce),
            final(self)@.target_nonce >= old(self)@.target_nonce,
            queue_above(final(self)@.queue, nonces.latest_nonce),
            final(race_state).source_state == old(race_state).source_state,
            final(race_state).target_state == old(race_state).target_state,
            nonces.latest_nonce >= old(self)@.target_nonce ==> final(race_state).nonces_to_submit
                == cleared_if_superseded(old(race_state).nonces_to_submit, nonces.latest_nonce),
            nonces.latest_nonce >= old(self)@.target_nonce ==> final(race_state).nonces_submitted
                == cleared_range_if_superseded(
                old(race_state).nonces_submitted,
                nonces.latest_nonce,
            ),
            nonces.latest_nonce < old(self)@.target_nonce ==> *final(race_state) == *old(
                race_state,
            ),
    {
        let nonce = nonces.latest_nonce;
        if nonce < self.target_nonce {
            proof {
                assert forall|i: int| 0 <= i < self@.queue.len() implies (
                #[trigger] self@.queue[i]).1.begin > nonce by {
                    assert(self@.queue[i].1.begin > self@.target_nonce);
                }
            }
            return ;
        }
        // Drain fully confirmed batches from the front of the queue.
        while self.source_queue.len() > 0 && self.source_queue[0].1.begin <= nonce
            && self.source_queue[0].1.end <= nonce
            invariant
                queue_sorted(self.source_queue@),
                queue_above(self.source_queue@, self.target_nonce),
                self.target_nonce == old(self)@.target_nonce,
                trim_queue(self.source_queue@, nonce) == trim_queue(old(self)@.queue, nonce),
            decreases self.source_queue@.len(),
        {
            let ghost prev = self.source_queue@;
            let _removed = self.source_queue.pop_front();
            proof {
                assert(self.source_queue@ =~= prev.skip(1));
                assert(trim_queue(prev, nonce) == trim_queue(prev.skip(1), nonce));
                assert forall|i: int, j: int| 0 <= i < j < prev.skip(1).len() implies (
                #[trigger] prev.skip(1)[i]).1.end < (#[trigger] prev.skip(1)[j]).1.begin by {
                    assert(prev[i + 1].1.end < prev[j + 1].1.begin);
                }
                assert forall|i: int| 0 <= i < prev.skip(1).len() implies (
                #[trigger] prev.skip(1)[i]).1.begin > self.target_nonce by {
                    assert(prev[i + 1].1.begin > self.target_nonce);
                }
            }
        }
        // A partially confirmed front batch keeps only its unconfirmed suffix.
        if self.source_queue.len() > 0 && self.source_queue[0].1.begin <= nonce {
            let ghost prev = self.source_queue@;
            let front = self.source_queue.pop_front().unwrap();
            match front.1.greater_than(nonce) {
                Some(suffix) => {
                    self.source_queue.push_front((front.0, suffix));
                    proof {
                        assert(self.source_queue@ =~= seq![(prev[0].0, suffix)] + prev.skip(1));
                        assert(trim_queue(prev, nonce) == self.source_queue@);
                    }
                },
                None => {},
            }
        }
        proof {
            lemma_trim_queue_sorted(old(self)@.queue, nonce);
        }
        // Clear in-flight work that this confirmation supersedes.
        let clear_to_submit = match &race_state.nonces_to_submit {
            Some(entry) => entry.1.end <= nonce,
            None => false,
        };
        if clear_to_submit {
            race_state.nonces_to_submit = None;
        }
        let clear_submitted = match &race_state.nonces_submitted {
            Some(range) => range.end <= nonce,
            None => false,
        };
        if clear_submitted {
            race_state.nonces_submitted = None;
        }
        self.target_nonce = nonce;
        proof {
            assert(self@ =~= target_update(old(self)@, nonce));
        }
    }

    /// Returns the range of nonces to deliver next, if any, shaped by
    /// `selector`. Nothing is selected while a delivery is pending or
    /// in flight, or while the target's state is unknown. A non-empty
    /// result always begins exactly one past the target-confirmed nonce,
    /// and covers the consecutive queued batches whose observation header
    /// the target has already confirmed, up to where the selector holds a
    /// suffix back; the consumed batches leave the queue and a held-back
    /// suffix stays queued at the front.
    #[verifier::loop_isolation(false)]
    #[verifier::rlimit(50)]
    pub fn select_nonces_to_deliver_with_selector<S: NonceSelector, Proof>(
        &mut self,
        race_state: &RaceState<Proof>,
        selector: &S,
    ) -> (r: Option<NonceRange>)
        requires
            old(self).wf(),
        ensures
            final(self).wf(),
            final(self)@.target_nonce == old(self)@.target_nonce,
            race_state.nonces_to_submit is Some || race_state.nonces_submitted is Some
                || race_state.target_state is None ==> r is None && final(self)@ == old(self)@,
            race_state.target_state matches Some(ts) ==> race_state.nonces_to_submit is None
                && race_state.nonces_submitted is None ==> ({
                let scan = scan_deliverable(
                    *selector,
                    old(self)@.queue,
                    ts.best_peer.number,
                    None::<u64>,
                );
                &&& final(self)@.queue == scan.1
                &&& (match scan.0 {
                    Some(e) => r == Some(
                        (NonceRange { begin: (old(self)@.target_nonce + 1) as u64, end: e }),
                    ),
                    None => r is None,
                })
            }),
            r matches Some(selected) ==> selected.wf() && selected.begin == old(
                self,
            )@.target_nonce + 1,
    {
        // If we have already selected nonces that we want to submit, or
        // already submitted some, do nothing.
        if race_state.nonces_to_submit.is_some() {
            return None;
        }
        if race_state.nonces_submitted.is_some() {
            return None;
        }
        // New nonces can only be delivered once the header that emitted them
        // is confirmed at the target.
        let best_header_at_target = match &race_state.target_state {
            Some(target_state) => target_state.best_peer,
            None => {
                return None;
            },
        };
        let peer_height = best_header_at_target.number;
        let ghost q0 = self.source_queue@;
        let ghost t0 = self.target_nonce;
        let ghost scan = scan_deliverable(*selector, q0, peer_height, None::<u64>);

        let mut i: usize = 0;
        let mut nonces_end: Option<u64> = None;
        let mut held_back: Option<NonceRange> = None;
        let mut stop = false;

        proof {
            assert(q0.skip(0) =~= q0);
        }
        while !stop && i < self.source_queue.len()
            invariant
                i <= q0.len(),
                self.source_queue@ == q0,
                self.target_nonce == t0,
                !stop ==> held_back is None,
                !stop ==> scan == scan_deliverable(
                    *selector,
                    q0.skip(i as int),
                    peer_height,
                    nonces_end,
                ),
                stop ==> (match held_back {
                    None => scan.0 == nonces_end && scan.1 == q0.skip(i as int),
                    Some(held) => {
                        &&& i < q0.len()
                        &&& held.wf()
                        &&& held.begin >= q0[i as int].1.begin
                        &&& held.end == q0[i as int].1.end
                        &&& scan.0 == nonces_end
                        &&& scan.1 == seq![(q0[i as int].0, held)] + q0.skip(i as int + 1)
                    },
                }),
                nonces_end matches Some(e) ==> e > t0,
            decreases (if stop {
                0int
            } else {
                1int
            }), q0.len() - i,
        {
            let ghost i0 = i as int;
            let ghost acc0 = nonces_end;
            let entry = self.source_queue[i];
            proof {
                assert(entry == q0[i0]);
                assert(q0.skip(i0)[0] == q0[i0]);
            }
            if entry.0.number > peer_height {
                // The header that queued this batch is not yet finalized at
                // the bridged chain, so nothing of it can be proved yet.
                stop = true;
            } else {
                match selector.select(entry.1) {
                    None => {
                        nonces_end = Some(entry.1.end);
                        i = i + 1;
                        proof {
                            assert(q0.skip(i0).skip(1) =~= q0.skip(i0 + 1));
                        }
                    },
                    Some(held) => {
                        if held.begin != entry.1.begin {
                            nonces_end = Some(held.begin - 1);
                        }
                        held_back = Some(held);
                        stop = true;
                        proof {
                            assert(q0.skip(i0).skip(1) =~= q0.skip(i0 + 1));
                        }
                    },
                }
            }
        }
        proof {
            if !stop {
                assert(q0.skip(i as int) =~= Seq::<QueuedRange>::empty());
            }
        }
        // Remove the consumed batches from the front of the queue.
        let mut j: usize = 0;
        while j < i
            invariant
                j <= i,
                i <= q0.len(),
                self.source_queue@ == q0.skip(j as int),
                self.target_nonce == t0,
            decreases i - j,
        {
            let _popped = self.source_queue.pop_front();
            j = j + 1;
            proof {
                assert(self.source_queue@ =~= q0.skip(j as int));
            }
        }
        // Re-queue the held-back suffix in place of its batch.
        match held_back {
            Some(held) => {
                let front = self.source_queue.pop_front().unwrap();
                self.source_queue.push_front((front.0, held));
                proof {
                    assert(self.source_queue@ =~= seq![(q0[i as int].0, held)] + q0.skip(
                        i as int + 1,
                    ));
                }
            },
            None => {},
        }
        proof {
            assert(self.source_queue@ == scan.1);
            assert forall|a: int, b: int| 0 <= a < b < self.source_queue@.len() implies (
            #[trigger] self.source_queue@[a]).1.end < (#[trigger] self.source_queue@[b]).1.begin by {
                if held_back is Some {
                    if a == 0 {
                        assert(q0[i as int].1.end < q0[i as int + b].1.begin);
                    } else {
                        assert(q0[i as int + a].1.end < q0[i as int + b].1.begin);
                    }
                } else {
                    assert(q0[i as int + a].1.end < q0[i as int + b].1.begin);
                }
            }
            assert forall|a: int| 0 <= a < self.source_queue@.len() implies (
            #[trigger] self.source_queue@[a]).1.wf() && self.source_queue@[a].1.begin > t0 by {
                if held_back is Some && a == 0 {
                    assert(q0[i as int].1.begin > t0);
                } else if held_back is Some {
                    assert(q0[i as int + a].1.wf());
                    assert(q0[i as int + a].1.begin > t0);
                } else {
                    assert(q0[i as int + a].1.wf());
                    assert(q0[i as int + a].1.begin > t0);
                }
            }
        }
        match nonces_end {
            None => None,
            Some(end) => Some(NonceRange { begin: self.target_nonce + 1, end }),
        }
    }

    /// Returns the range of nonces to deliver next with the default
    /// selector, which holds nothing back, together with the proof
    /// parameters of this strategy, which are none. When nothing is
    /// deliverable the queue is left untouched.
    pub fn select_nonces_to_deliver<Proof>(&mut self, race_state: &RaceState<Proof>) -> (r: Option<
        (NonceRange, ()),
    >)
        requires
            old(self).wf(),
        ensures
            final(self).wf(),
            final(self)@.target_nonce == old(self)@.target_nonce,
            race_state.nonces_to_submit is Some || race_state.nonces_submitted is Some
                || race_state.target_state is None ==> r is None && final(self)@ == old(self)@,
            race_state.target_state matches Some(ts) ==> race_state.nonces_to_submit is None
                && race_state.nonces_submitted is None ==> ({
                let scan = scan_deliverable(
                    DeliverAll,
                    old(self)@.queue,
                    ts.best_peer.number,
                    None::<u64>,
                );
                &&& final(self)@.queue == scan.1
                &&& (match scan.0 {
                    Some(e) => r == Some(
                        ((NonceRange { begin: (old(self)@.target_nonce + 1) as u64, end: e }), ()),
                    ),
                    None => r is None && final(self)@ == old(self)@,
                })
            }),
            r matches Some(p) ==> p.0.wf() && p.0.begin == old(self)@.target_nonce + 1,
    {
        let selected = self.select_nonces_to_deliver_with_selector(race_state, &DeliverAll);
        proof {
            if race_state.target_state is Some && race_state.nonces_to_submit is None
                && race_state.nonces_submitted is None {
                let peer_height = race_state.target_state->Some_0.best_peer.number;
                lemma_deliver_all_scan_none_unchanged(old(self)@.queue, peer_height);
                let scan = scan_deliverable(DeliverAll, old(self)@.queue, peer_height, None::<u64>);
                if scan.0 is None {
                    assert(self@ =~= old(self)@);
                }
            }
        }
        match selected {
            Some(range) => Some((range, ())),
            None => None,
        }
    }
}

} // verus!
