//! Decision core of the race loop.
//!
//! The loop itself multiplexes a fixed set of outstanding asynchronous
//! operations; everything it decides between suspension points is here, as
//! functions from state and completed event to next state and requests to
//! issue. The caller performs the requests, sleeps the backoff delays, and
//! feeds every completion back in as a [`RaceEvent`].

use crate::outcome::{
    FailedClient, OutcomeDisposition, RequestOutcome, RetryBackoff, backoff_after_failure,
    backoff_after_success, process_request_outcome,
};
use crate::range::NonceRange;
use crate::state::{ClientState, HeaderId, RaceState, SourceClientNonces, TargetClientNonces};
use crate::strategy::{
    BasicStrategy, DeliverAll, StrategyModel, scan_deliverable, source_update, target_update,
    cleared_if_superseded, cleared_range_if_superseded,
};
use vstd::prelude::*;

verus! {

/// One of the races within a message lane: message delivery, receiving
/// confirmations, or processing confirmations. Implementations name the two
/// sides and the concrete types the race carries.
pub trait MessageRace {
    /// Header id of the race source.
    type SourceHeaderId;

    /// Header id of the race target.
    type TargetHeaderId;

    /// Message nonce used in the race.
    type MessageNonce;

    /// Proof that is generated and delivered in this race.
    type Proof;

    /// Name of the race source.
    fn source_name() -> String;

    /// Name of the race target.
    fn target_name() -> String;
}

/// One side of a race.
#[derive(Clone, Copy, Debug, PartialEq, Eq, Structural)]
pub enum RaceSide {
    /// The side the nonces and proofs come from.
    Source,
    /// The side the proofs are submitted to.
    Target,
}

/// A backoff sleep the caller must schedule. The side stays offline until
/// its wake event is fed back in.
#[derive(Clone, Copy, Debug, PartialEq, Eq, Structural)]
pub struct RetrySleep {
    /// Which side must wait.
    pub side: RaceSide,
    /// How long it must wait.
    pub delay_ms: u64,
}

/// Completion of one of the operations the race loop suspends on: the two
/// state feeds, the four requests, and the two backoff sleeps.
#[derive(Debug)]
pub enum RaceEvent<Proof> {
    /// The source state feed produced a new snapshot.
    SourceStateUpdated(ClientState),
    /// The target state feed produced a new snapshot.
    TargetStateUpdated(ClientState),
    /// A source nonces fetch completed, on success with the header the
    /// client answered at and its report.
    SourceNoncesFetched(RequestOutcome<(HeaderId, SourceClientNonces)>),
    /// A target nonces fetch completed.
    TargetNoncesFetched(RequestOutcome<TargetClientNonces>),
    /// A proof generation completed, on success with the header the proof
    /// was generated at, the range it covers, and the proof.
    ProofGenerated(RequestOutcome<(HeaderId, NonceRange, Proof)>),
    /// A proof submission completed, on success with the submitted range.
    ProofSubmitted(RequestOutcome<NonceRange>),
    /// The backoff sleep of the source side elapsed.
    SourceWokeUp,
    /// The backoff sleep of the target side elapsed.
    TargetWokeUp,
}

/// Mathematical model of the scheduler: the race state, the strategy's
/// model, and the per-side bookkeeping.
#[verifier::ext_equal]
pub struct SchedulerModel<Proof> {
    /// The shared race state.
    pub race_state: RaceState<Proof>,
    /// Model of the delivery strategy.
    pub strategy: StrategyModel,
    /// The source side is online and idle.
    pub source_online: bool,
    /// A fresh source snapshot arrived; its nonces must be fetched.
    pub source_nonces_required: bool,
    /// Backoff of the source side.
    pub source_backoff: RetryBackoff,
    /// The target side is online and holds no outstanding nonces fetch.
    pub target_online: bool,
    /// A fresh target snapshot arrived; its nonces must be fetched.
    pub target_nonces_required: bool,
    /// A proof submission is outstanding; the pending proof must not be
    /// submitted again until it completes.
    pub target_submit_busy: bool,
    /// Backoff of the target side.
    pub target_backoff: RetryBackoff,
}

/// Effect of one completed operation on the scheduler: the next state, and
/// either the backoff sleep to schedule (if any) or the fatal failure that
/// ends the race.
///
/// A changed snapshot replaces the stored one in full and raises the side's
/// fetch flag. A successful request feeds its value into the strategy or
/// the race state, resets the side's backoff and reports the side online; a
/// connection failure takes the side offline until the scheduled sleep
/// elapses and doubles its backoff; any other failure ends the race naming
/// the side that failed.
pub open spec fn apply_event_spec<Proof>(
    m: SchedulerModel<Proof>,
    event: RaceEvent<Proof>,
) -> (SchedulerModel<Proof>, Result<Option<RetrySleep>, FailedClient>) {
    match event {
        RaceEvent::SourceStateUpdated(snapshot) => {
            if m.race_state.source_state == Some(snapshot) {
                (m, Ok(None))
            } else {
                (
                    SchedulerModel {
                        race_state: RaceState { source_state: Some(snapshot), ..m.race_state },
                        source_nonces_required: true,
                        ..m
                    },
                    Ok(None),
                )
            }
        },
        RaceEvent::TargetStateUpdated(snapshot) => {
            if m.race_state.target_state == Some(snapshot) {
                (m, Ok(None))
            } else {
                (
                    SchedulerModel {
                        race_state: RaceState { target_state: Some(snapshot), ..m.race_state },
                        target_nonces_required: true,
                        ..m
                    },
                    Ok(None),
                )
            }
        },
        RaceEvent::SourceNoncesFetched(outcome) => {
            let m1 = SchedulerModel { source_nonces_required: false, ..m };
            match outcome {
                RequestOutcome::Success((at_block, nonces)) => (
                    SchedulerModel {
                        strategy: source_update(m.strategy, at_block, nonces.new_nonces),
                        source_online: true,
                        source_backoff: backoff_after_success(m.source_backoff),
                        ..m1
                    },
                    Ok(None),
                ),
                RequestOutcome::ConnectionError => (
                    SchedulerModel {
                        source_online: false,
                        source_backoff: backoff_after_failure(m.source_backoff),
                        ..m1
                    },
                    Ok(
                        Some(
                            RetrySleep {
                                side: RaceSide::Source,
                                delay_ms: m.source_backoff.current_ms,
                            },
                        ),
                    ),
                ),
                RequestOutcome::LogicError => (m1, Err(FailedClient::Source)),
            }
        },
        RaceEvent::TargetNoncesFetched(outcome) => {
            let m1 = SchedulerModel { target_nonces_required: false, ..m };
            match outcome {
                RequestOutcome::Success(nonces) => {
                    let n = nonces.latest_nonce;
                    let race_state = if n >= m.strategy.target_nonce {
                        RaceState {
                            nonces_to_submit: cleared_if_superseded(
                                m.race_state.nonces_to_submit,
                                n,
                            ),
                            nonces_submitted: cleared_range_if_superseded(
                                m.race_state.nonces_submitted,
                                n,
                            ),
                            ..m.race_state
                        }
                    } else {
                        m.race_state
                    };
                    (
                        SchedulerModel {
                            race_state,
                            strategy: target_update(m.strategy, n),
                            target_online: true,
                            target_backoff: backoff_after_success(m.target_backoff),
                            ..m1
                        },
                        Ok(None),
                    )
                },
                RequestOutcome::ConnectionError => (
                    SchedulerModel {
                        target_online: false,
                        target_backoff: backoff_after_failure(m.target_backoff),
                        ..m1
                    },
                    Ok(
                        Some(
                            RetrySleep {
                                side: RaceSide::Target,
                                delay_ms: m.target_backoff.current_ms,
                            },
                        ),
                    ),
                ),
                RequestOutcome::LogicError => (m1, Err(FailedClient::Target)),
            }
        },
        RaceEvent::ProofGenerated(outcome) => {
            match outcome {
                RequestOutcome::Success((at_block, range, proof)) => (
                    SchedulerModel {
                        race_state: RaceState {
                            nonces_to_submit: Some((at_block, range, proof)),
                            ..m.race_state
                        },
                        source_online: true,
                        source_backoff: backoff_after_success(m.source_backoff),
                        ..m
                    },
                    Ok(None),
                ),
                RequestOutcome::ConnectionError => (
                    SchedulerModel {
                        source_online: false,
                        source_backoff: backoff_after_failure(m.source_backoff),
                        ..m
                    },
                    Ok(
                        Some(
                            RetrySleep {
                                side: RaceSide::Source,
                                delay_ms: m.source_backoff.current_ms,
                            },
                        ),
                    ),
                ),
                RequestOutcome::LogicError => (m, Err(FailedClient::Source)),
            }
        },
        RaceEvent::ProofSubmitted(outcome) => {
            let m1 = SchedulerModel { target_submit_busy: false, ..m };
            match outcome {
                RequestOutcome::Success(range) => (
                    SchedulerModel {
                        race_state: RaceState {
                            nonces_to_submit: None,
                            nonces_submitted: Some(range),
                            ..m.race_state
                        },
                        target_online: true,
                        target_backoff: backoff_after_success(m.target_backoff),
                        ..m1
                    },
                    Ok(None),
                ),
                RequestOutcome::ConnectionError => (
                    SchedulerModel {
                        target_online: false,
                        target_backoff: backoff_after_failure(m.target_backoff),
                        ..m1
                    },
                    Ok(
                        Some(
                            RetrySleep {
                                side: RaceSide::Target,
                                delay_ms: m.target_backoff.current_ms,
                            },
                        ),
                    ),
                ),
                RequestOutcome::LogicError => (m1, Err(FailedClient::Target)),
            }
        },
        RaceEvent::SourceWokeUp => (SchedulerModel { source_online: true, ..m }, Ok(None)),
        RaceEvent::TargetWokeUp => (SchedulerModel { target_online: true, ..m }, Ok(None)),
    }
}

/// What one selection pass decides, given the race state and the strategy:
/// the source header to prove at (the target's best known source header) and
/// the range to prove, together with the strategy left behind.
pub open spec fn spec_select<Proof>(
    race_state: RaceState<Proof>,
    strategy: StrategyModel,
) -> (Option<(HeaderId, NonceRange)>, StrategyModel) {
    if race_state.nonces_to_submit is Some || race_state.nonces_submitted is Some
        || race_state.target_state is None {
        (None, strategy)
    } else {
        let best_peer = race_state.target_state->Some_0.best_peer;
        let scan = scan_deliverable(DeliverAll, strategy.queue, best_peer.number, None::<u64>);
        match scan.0 {
            Some(e) => (
                Some(
                    (
                        best_peer,
                        NonceRange { begin: (strategy.target_nonce + 1) as u64, end: e },
                    ),
                ),
                StrategyModel { queue: scan.1, ..strategy },
            ),
            None => (None, strategy),
        }
    }
}

/// Select the nonces to deliver next and the source header to prove them
/// at: the target's best known source header, not the header the nonces
/// were observed at, because the proof must be generated at a header the
/// target has already confirmed.
pub fn select_nonces_to_deliver<Proof>(
    race_state: &RaceState<Proof>,
    strategy: &mut BasicStrategy,
) -> (r: Option<(HeaderId, NonceRange, ())>)
    requires
        old(strategy).wf(),
    ensures
        final(strategy).wf(),
        ({
            let sel = spec_select(*race_state, old(strategy)@);
            &&& final(strategy)@ == sel.1
            &&& (match sel.0 {
                Some((at_block, range)) => r == Some((at_block, range, ())),
                None => r is None,
            })
        }),
        r matches Some(sel) ==> sel.1.wf() && sel.1.begin == old(strategy)@.target_nonce + 1,
{
    match &race_state.target_state {
        Some(target_state) => {
            let best_peer = target_state.best_peer;
            let selected = strategy.select_nonces_to_deliver(race_state);
            proof {
                if race_state.nonces_to_submit is None && race_state.nonces_submitted is None {
                    let scan = scan_deliverable(
                        DeliverAll,
                        old(strategy)@.queue,
                        best_peer.number,
                        None::<u64>,
                    );
                    if scan.0 is Some {
                        assert(strategy@ =~= (StrategyModel { queue: scan.1, ..old(strategy)@ }));
                    }
                }
            }
            match selected {
                Some((range, proof_parameters)) => Some((best_peer, range, proof_parameters)),
                None => None,
            }
        },
        None => None,
    }
}

/// The scheduler of one race: the race state, the delivery strategy, and
/// the per-side flags the loop decides with. The loop's only other work is
/// to suspend on the outstanding operations, feed each completion into
/// [`RaceScheduler::apply_event`], and issue the requests
/// [`RaceScheduler::plan_source`] and [`RaceScheduler::plan_target`] ask
/// for.
#[derive(Debug)]
pub struct RaceScheduler<Proof> {
    /// The shared race state.
    pub race_state: RaceState<Proof>,
    /// The delivery strategy.
    pub strategy: BasicStrategy,
    /// The source side is online and idle.
    pub source_online: bool,
    /// A fresh source snapshot arrived; its nonces must be fetched.
    pub source_nonces_required: bool,
    /// Backoff of the source side.
    pub source_backoff: RetryBackoff,
    /// The target side is online and holds no outstanding nonces fetch.
    pub target_online: bool,
    /// A fresh target snapshot arrived; its nonces must be fetched.
    pub target_nonces_required: bool,
    /// A proof submission is outstanding; the pending proof must not be
    /// submitted again until it completes.
    pub target_submit_busy: bool,
    /// Backoff of the target side.
    pub target_backoff: RetryBackoff,
}

impl<Proof> RaceScheduler<Proof> {
    /// The scheduler's model.
    pub open spec fn model(self) -> SchedulerModel<Proof> {
        SchedulerModel {
            race_state: self.race_state,
            strategy: self.strategy@,
            source_online: self.source_online,
            source_nonces_required: self.source_nonces_required,
            source_backoff: self.source_backoff,
            target_online: self.target_online,
            target_nonces_required: self.target_nonces_required,
            target_submit_busy: self.target_submit_busy,
            target_backoff: self.target_backoff,
        }
    }

    /// The scheduler's invariant: a well-formed strategy and backoffs, and
    /// a side's fetch flag raised only when that side's state is known.
    pub open spec fn wf(self) -> bool {
        &&& self.strategy.wf()
        &&& self.source_backoff.wf()
        &&& self.target_backoff.wf()
        &&& self.source_nonces_required ==> self.race_state.source_state is Some
        &&& self.target_nonces_required ==> self.race_state.target_state is Some
    }

    /// A scheduler at loop start: empty race state, empty strategy, both
    /// sides online with nothing required and the given backoff policy.
    pub fn new(initial_backoff_ms: u64, max_backoff_ms: u64) -> (s: RaceScheduler<Proof>)
        requires
            1 <= initial_backoff_ms <= max_backoff_ms,
        ensures
            s.wf(),
            s.race_state.source_state is None,
            s.race_state.target_state is None,
            s.race_state.nonces_to_submit is None,
            s.race_state.nonces_submitted is None,
            s.strategy@.queue.len() == 0,
            s.strategy@.target_nonce == 0,
            s.source_online && s.target_online,
            !s.source_nonces_required && !s.target_nonces_required,
            !s.target_submit_busy,
            s.source_backoff == (RetryBackoff {
                current_ms: initial_backoff_ms,
                initial_ms: initial_backoff_ms,
                max_ms: max_backoff_ms,
            }),
            s.target_backoff == (RetryBackoff {
                current_ms: initial_backoff_ms,
                initial_ms: initial_backoff_ms,
                max_ms: max_backoff_ms,
            }),
    {
        RaceScheduler {
            race_state: RaceState::default(),
            strategy: BasicStrategy::new(),
            source_online: true,
            source_nonces_required: false,
            source_backoff: RetryBackoff::new(initial_backoff_ms, max_backoff_ms),
            target_online: true,
            target_nonces_required: false,
            target_submit_busy: false,
            target_backoff: RetryBackoff::new(initial_backoff_ms, max_backoff_ms),
        }
    }

    /// Process exactly one completed operation, as [`apply_event_spec`]
    /// describes. Returns the backoff sleep to schedule, if any, or the
    /// fatal failure that ends the race.
    pub fn apply_event(&mut self, event: RaceEvent<Proof>) -> (r: Result<
        Option<RetrySleep>,
        FailedClient,
    >)
        requires
            old(self).wf(),
            event matches RaceEvent::SourceNoncesFetched(RequestOutcome::Success((at_block, nonces)))
                ==> nonces.new_nonces.wf(),
        ensures
            final(self).wf(),
            final(self).model() == apply_event_spec(old(self).model(), event).0,
            r == apply_event_spec(old(self).model(), event).1,
    {
        let ghost step = apply_event_spec(old(self).model(), event);
        let r = match event {
            RaceEvent::SourceStateUpdated(snapshot) => {
                let changed = match &self.race_state.source_state {
                    Some(stored) => !(*stored == snapshot),
                    None => true,
                };
                if changed {
                    self.source_nonces_required = true;
                    self.race_state.source_state = Some(snapshot);
                }
                Ok(None)
            },
            RaceEvent::TargetStateUpdated(snapshot) => {
                let changed = match &self.race_state.target_state {
                    Some(stored) => !(*stored == snapshot),
                    None => true,
                };
                if changed {
                    self.target_nonces_required = true;
                    self.race_state.target_state = Some(snapshot);
                }
                Ok(None)
            },
            RaceEvent::SourceNoncesFetched(outcome) => {
                self.source_nonces_required = false;
                match process_request_outcome(&outcome, &mut self.source_backoff) {
                    OutcomeDisposition::Online => {
                        match outcome {
                            RequestOutcome::Success((at_block, nonces)) => {
                                self.strategy.source_nonces_updated(at_block, nonces);
                            },
                            _ => {},
                        }
                        self.source_online = true;
                        Ok(None)
                    },
                    OutcomeDisposition::Offline { retry_delay_ms } => {
                        self.source_online = false;
                        Ok(Some(RetrySleep { side: RaceSide::Source, delay_ms: retry_delay_ms }))
                    },
                    OutcomeDisposition::Fatal => Err(FailedClient::Source),
                }
            },
            RaceEvent::TargetNoncesFetched(outcome) => {
                self.target_nonces_required = false;
                match process_request_outcome(&outcome, &mut self.target_backoff) {
                    OutcomeDisposition::Online => {
                        match outcome {
                            RequestOutcome::Success(nonces) => {
                                self.strategy.target_nonces_updated(nonces, &mut self.race_state);
                            },
                            _ => {},
                        }
                        self.target_online = true;
                        Ok(None)
                    },
                    OutcomeDisposition::Offline { retry_delay_ms } => {
                        self.target_online = false;
                        Ok(Some(RetrySleep { side: RaceSide::Target, delay_ms: retry_delay_ms }))
                    },
                    OutcomeDisposition::Fatal => Err(FailedClient::Target),
                }
            },
            RaceEvent::ProofGenerated(outcome) => {
                match process_request_outcome(&outcome, &mut self.source_backoff) {
                    OutcomeDisposition::Online => {
                        match outcome {
                            RequestOutcome::Success((at_block, range, proof)) => {
                                self.race_state.nonces_to_submit = Some((at_block, range, proof));
                            },
                            _ => {},
                        }
                        self.source_online = true;
                        Ok(None)
                    },
                    OutcomeDisposition::Offline { retry_delay_ms } => {
                        self.source_online = false;
                        Ok(Some(RetrySleep { side: RaceSide::Source, delay_ms: retry_delay_ms }))
                    },
                    OutcomeDisposition::Fatal => Err(FailedClient::Source),
                }
            },
            RaceEvent::ProofSubmitted(outcome) => {
                self.target_submit_busy = false;
                match process_request_outcome(&outcome, &mut self.target_backoff) {
                    OutcomeDisposition::Online => {
                        match outcome {
                            RequestOutcome::Success(range) => {
                                self.race_state.nonces_to_submit = None;
                                self.race_state.nonces_submitted = Some(range);
                            },
                            _ => {},
                        }
                        self.target_online = true;
                        Ok(None)
                    },
                    OutcomeDisposition::Offline { retry_delay_ms } => {
                        self.target_online = false;
                        Ok(Some(RetrySleep { side: RaceSide::Target, delay_ms: retry_delay_ms }))
                    },
                    OutcomeDisposition::Fatal => Err(FailedClient::Target),
                }
            },
            RaceEvent::SourceWokeUp => {
                self.source_online = true;
                Ok(None)
            },
            RaceEvent::TargetWokeUp => {
                self.target_online = true;
                Ok(None)
            },
        };
        proof {
            assert(self.model() =~~= step.0);
        }
        r
    }

    /// Decide the source side's next request when it is idle: a proof
    /// generation for the nonces the strategy selects, else a nonces fetch
    /// at the source's own best header if one is required, else nothing.
    /// The source side serializes its two request kinds: it goes busy when
    /// either request is issued.
    pub fn plan_source(&mut self) -> (r: Option<SourceRequest>)
        requires
            old(self).wf(),
        ensures
            final(self).wf(),
            !old(self).source_online ==> r is None && *final(self) == *old(self),
            old(self).source_online ==> ({
                let sel = spec_select(old(self).race_state, old(self).strategy@);
                &&& final(self).strategy@ == sel.1
                &&& final(self).race_state == old(self).race_state
                &&& final(self).source_nonces_required == old(self).source_nonces_required
                &&& final(self).source_backoff == old(self).source_backoff
                &&& final(self).target_online == old(self).target_online
                &&& final(self).target_nonces_required == old(self).target_nonces_required
                &&& final(self).target_submit_busy == old(self).target_submit_busy
                &&& final(self).target_backoff == old(self).target_backoff
                &&& (match sel.0 {
                    Some(selected) => r == Some(
                        (SourceRequest::GenerateProof { at_block: selected.0, range: selected.1 }),
                    ) && !final(self).source_online,
                    None => (if old(self).source_nonces_required {
                        r == Some(
                            (SourceRequest::FetchNonces {
                                at_block: old(self).race_state.source_state->Some_0.best_self,
                                prev_best: old(self).strategy@.best_at_source(),
                            }),
                        ) && !final(self).source_online
                    } else {
                        r is None && final(self).source_online
                    }),
                })
            }),
    {
        if !self.source_online {
            return None;
        }
        let nonces_to_deliver = select_nonces_to_deliver(&self.race_state, &mut self.strategy);
        match nonces_to_deliver {
            Some((at_block, range, _proof_parameters)) => {
                self.source_online = false;
                Some(SourceRequest::GenerateProof { at_block, range })
            },
            None => {
                if self.source_nonces_required {
                    match &self.race_state.source_state {
                        Some(source_state) => {
                            let at_block = source_state.best_self;
                            let prev_best = self.strategy.best_at_source();
                            self.source_online = false;
                            Some(SourceRequest::FetchNonces { at_block, prev_best })
                        },
                        None => None,
                    }
                } else {
                    None
                }
            },
        }
    }

    /// Decide the target side's next requests when it is online: submit the
    /// pending proof unless an earlier submission is still outstanding, and
    /// independently fetch target nonces at the target's own best header if
    /// they are required. Only a nonces fetch takes the target side offline;
    /// proof submissions are serialized by their own flag, so a pending
    /// proof is never submitted twice concurrently.
    pub fn plan_target(&mut self) -> (r: TargetPlan)
        requires
            old(self).wf(),
        ensures
            final(self).wf(),
            !old(self).target_online ==> r == (TargetPlan { submit: None, fetch_at: None })
                && *final(self) == *old(self),
            old(self).target_online ==> ({
                &&& final(self).race_state == old(self).race_state
                &&& final(self).strategy == old(self).strategy
                &&& final(self).source_online == old(self).source_online
                &&& final(self).source_nonces_required == old(self).source_nonces_required
                &&& final(self).source_backoff == old(self).source_backoff
                &&& final(self).target_nonces_required == old(self).target_nonces_required
                &&& final(self).target_backoff == old(self).target_backoff
                &&& (match old(self).race_state.nonces_to_submit {
                    Some(entry) => (if old(self).target_submit_busy {
                        r.submit is None && final(self).target_submit_busy
                    } else {
                        r.submit == Some((entry.0, entry.1)) && final(self).target_submit_busy
                    }),
                    None => r.submit is None && final(self).target_submit_busy == old(
                        self,
                    ).target_submit_busy,
                })
                &&& (if old(self).target_nonces_required {
                    r.fetch_at == Some(old(self).race_state.target_state->Some_0.best_self)
                        && !final(self).target_online
                } else {
                    r.fetch_at is None && final(self).target_online
                })
            }),
    {
        if !self.target_online {
            return TargetPlan { submit: None, fetch_at: None };
        }
        let submit = if self.target_submit_busy {
            None
        } else {
            match &self.race_state.nonces_to_submit {
                Some(entry) => {
                    self.target_submit_busy = true;
                    Some((entry.0, entry.1))
                },
                None => None,
            }
        };
        let fetch_at = if self.target_nonces_required {
            match &self.race_state.target_state {
                Some(target_state) => {
                    self.target_online = false;
                    Some(target_state.best_self)
                },
                None => None,
            }
        } else {
            None
        };
        TargetPlan { submit, fetch_at }
    }

    /// Watch for stalls: the race fails with both sides once no progress
    /// was made for longer than the stall timeout. Progress is considered
    /// made, and the caller's stall clock must restart, exactly when
    /// nothing is pending or in flight and the strategy is empty: the relay
    /// is caught up, not stalled.
    pub fn stall_check(&self, stall_elapsed_ms: u64, stall_timeout_ms: u64) -> (r: StallVerdict)
        ensures
            r == StallVerdict::Stalled <==> stall_elapsed_ms > stall_timeout_ms,
            r == StallVerdict::CaughtUp <==> stall_elapsed_ms <= stall_timeout_ms
                && self.race_state.nonces_to_submit is None && self.race_state.nonces_submitted
                is None && self.strategy@.queue.len() == 0,
    {
        if stall_elapsed_ms > stall_timeout_ms {
            StallVerdict::Stalled
        } else if self.race_state.nonces_to_submit.is_none()
            && self.race_state.nonces_submitted.is_none() && self.strategy.is_empty() {
            StallVerdict::CaughtUp
        } else {
            StallVerdict::Waiting
        }
    }

    /// Best nonce known at the target and at the source, for the periodic
    /// progress report.
    pub fn progress(&self) -> (r: (u64, u64))
        ensures
            r.0 == self.strategy@.target_nonce,
            r.1 == self.strategy@.best_at_source(),
    {
        (self.strategy.best_at_target(), self.strategy.best_at_source())
    }
}

/// The source side's next request.
#[derive(Clone, Copy, Debug, PartialEq, Eq, Structural)]
pub enum SourceRequest {
    /// Ask the source client for the nonces above `prev_best` it knows at
    /// `at_block`.
    FetchNonces {
        /// The source's own best header to answer at.
        at_block: HeaderId,
        /// The watermark: everything at or below it is already known.
        prev_best: u64,
    },
    /// Ask the source client to prove `range` at `at_block`.
    GenerateProof {
        /// The target's best known source header to prove at.
        at_block: HeaderId,
        /// The nonces to prove.
        range: NonceRange,
    },
}

/// The target side's next requests: a proof submission and a nonces fetch
/// may be issued in the same step.
#[derive(Clone, Copy, Debug, PartialEq, Eq)]
pub struct TargetPlan {
    /// Submit the pending proof, generated at this header for this range.
    /// The proof value itself stays in the race state.
    pub submit: Option<(HeaderId, NonceRange)>,
    /// Fetch target nonces at this header, the target's own best.
    pub fetch_at: Option<HeaderId>,
}

/// What the stall watchdog says about the race.
#[derive(Clone, Copy, Debug, PartialEq, Eq, Structural)]
pub enum StallVerdict {
    /// No progress for longer than the stall timeout: fail both sides.
    Stalled,
    /// The relay is caught up; the stall clock restarts.
    CaughtUp,
    /// Work is pending or in flight; keep waiting.
    Waiting,
}

} // verus!
