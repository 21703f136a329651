//! Tests of the basic delivery strategy.

use messages_relay::range::NonceRange;
use messages_relay::state::{ClientState, HeaderId, RaceState, SourceClientNonces, TargetClientNonces};
use messages_relay::strategy::{BasicStrategy, NonceSelector};

type TestProof = (NonceRange, Option<u64>);

fn header_id(n: u64) -> HeaderId {
    HeaderId { number: n, hash: n }
}

fn rng(begin: u64, end: u64) -> NonceRange {
    NonceRange { begin, end }
}

fn source_nonces(new_nonces: NonceRange) -> SourceClientNonces {
    SourceClientNonces {
        new_nonces,
        confirmed_nonce: None,
    }
}

fn target_nonces(latest_nonce: u64) -> TargetClientNonces {
    TargetClientNonces {
        latest_nonce,
        confirmed_nonce: None,
    }
}

fn queued(strategy: &BasicStrategy) -> Vec<(HeaderId, NonceRange)> {
    strategy.source_queue().iter().cloned().collect()
}

#[test]
fn strategy_is_empty_works() {
    let mut strategy = BasicStrategy::new();
    assert_eq!(strategy.is_empty(), true);
    strategy.source_nonces_updated(header_id(1), source_nonces(rng(1, 1)));
    assert_eq!(strategy.is_empty(), false);
}

#[test]
fn best_at_source_is_never_lower_than_target_nonce() {
    let mut strategy = BasicStrategy::new();
    assert_eq!(strategy.best_at_source(), 0);
    strategy.source_nonces_updated(header_id(1), source_nonces(rng(1, 5)));
    assert_eq!(strategy.best_at_source(), 5);
    strategy.target_nonces_updated(target_nonces(10), &mut RaceState::<TestProof>::default());
    assert_eq!(queued(&strategy), vec![]);
    assert_eq!(strategy.best_at_source(), 10);
}

#[test]
fn source_nonce_is_never_lower_than_known_target_nonce() {
    let mut strategy = BasicStrategy::new();
    strategy.target_nonces_updated(target_nonces(10), &mut RaceState::<TestProof>::default());
    strategy.source_nonces_updated(header_id(1), source_nonces(rng(1, 5)));
    assert_eq!(queued(&strategy), vec![]);
}

#[test]
fn source_nonce_is_never_lower_than_latest_known_source_nonce() {
    let mut strategy = BasicStrategy::new();
    strategy.source_nonces_updated(header_id(1), source_nonces(rng(1, 5)));
    strategy.source_nonces_updated(header_id(2), source_nonces(rng(1, 3)));
    strategy.source_nonces_updated(header_id(2), source_nonces(rng(1, 5)));
    assert_eq!(queued(&strategy), vec![(header_id(1), rng(1, 5))]);
}

#[test]
fn target_nonce_is_never_lower_than_latest_known_target_nonce() {
    let mut strategy = BasicStrategy::new();
    strategy.target_nonces_updated(target_nonces(10), &mut RaceState::<TestProof>::default());
    strategy.target_nonces_updated(target_nonces(5), &mut RaceState::<TestProof>::default());
    assert_eq!(strategy.best_at_target(), 10);
}

#[test]
fn updated_target_nonce_removes_queued_entries() {
    let mut strategy = BasicStrategy::new();
    strategy.source_nonces_updated(header_id(1), source_nonces(rng(1, 5)));
    strategy.source_nonces_updated(header_id(2), source_nonces(rng(6, 10)));
    strategy.source_nonces_updated(header_id(3), source_nonces(rng(11, 15)));
    strategy.source_nonces_updated(header_id(4), source_nonces(rng(16, 20)));
    strategy.target_nonces_updated(target_nonces(15), &mut RaceState::<TestProof>::default());
    assert_eq!(queued(&strategy), vec![(header_id(4), rng(16, 20))]);
    strategy.target_nonces_updated(target_nonces(17), &mut RaceState::<TestProof>::default());
    assert_eq!(queued(&strategy), vec![(header_id(4), rng(18, 20))]);
}

#[test]
fn selected_nonces_are_dropped_on_target_nonce_update() {
    let mut state = RaceState::<TestProof>::default();
    let mut strategy = BasicStrategy::new();
    state.nonces_to_submit = Some((header_id(1), rng(5, 10), (rng(5, 10), None)));
    strategy.target_nonces_updated(target_nonces(7), &mut state);
    assert!(state.nonces_to_submit.is_some());
    strategy.target_nonces_updated(target_nonces(10), &mut state);
    assert!(state.nonces_to_submit.is_none());
}

#[test]
fn submitted_nonces_are_dropped_on_target_nonce_update() {
    let mut state = RaceState::<TestProof>::default();
    let mut strategy = BasicStrategy::new();
    state.nonces_submitted = Some(rng(5, 10));
    strategy.target_nonces_updated(target_nonces(7), &mut state);
    assert!(state.nonces_submitted.is_some());
    strategy.target_nonces_updated(target_nonces(10), &mut state);
    assert!(state.nonces_submitted.is_none());
}

#[test]
fn nothing_is_selected_if_something_is_already_selected() {
    let mut state = RaceState::<TestProof>::default();
    let mut strategy = BasicStrategy::new();
    state.nonces_to_submit = Some((header_id(1), rng(1, 10), (rng(1, 10), None)));
    strategy.source_nonces_updated(header_id(1), source_nonces(rng(1, 10)));
    assert_eq!(strategy.select_nonces_to_deliver(&state), None);
}

#[test]
fn nothing_is_selected_if_something_is_already_submitted() {
    let mut state = RaceState::<TestProof>::default();
    let mut strategy = BasicStrategy::new();
    state.nonces_submitted = Some(rng(1, 10));
    strategy.source_nonces_updated(header_id(1), source_nonces(rng(1, 10)));
    assert_eq!(strategy.select_nonces_to_deliver(&state), None);
}

#[test]
fn select_nonces_to_deliver_works() {
    let mut state = RaceState::<TestProof>::default();
    let mut strategy = BasicStrategy::new();
    strategy.source_nonces_updated(header_id(1), source_nonces(rng(1, 1)));
    strategy.source_nonces_updated(header_id(2), source_nonces(rng(2, 2)));
    strategy.source_nonces_updated(header_id(3), source_nonces(rng(6, 6)));
    strategy.source_nonces_updated(header_id(5), source_nonces(rng(8, 8)));

    state.target_state = Some(ClientState {
        best_self: header_id(0),
        best_peer: header_id(4),
    });
    assert_eq!(strategy.select_nonces_to_deliver(&state), Some((rng(1, 6), ())));
    strategy.target_nonces_updated(target_nonces(6), &mut state);
    assert_eq!(strategy.select_nonces_to_deliver(&state), None);

    state.target_state = Some(ClientState {
        best_self: header_id(0),
        best_peer: header_id(5),
    });
    assert_eq!(strategy.select_nonces_to_deliver(&state), Some((rng(7, 8), ())));
    strategy.target_nonces_updated(target_nonces(8), &mut state);
    assert_eq!(strategy.select_nonces_to_deliver(&state), None);
}

/// Holds back every nonce from 50 on: handed `1..=100` it returns `50..=100`.
struct SplitAtFifty;

impl NonceSelector for SplitAtFifty {
    // Specification counterpart of `select`; erased from compiled code and
    // never called at run time.
    fn spec_select(&self, _range: NonceRange) -> Option<NonceRange> {
        unreachable!()
    }

    fn select(&self, range: NonceRange) -> Option<NonceRange> {
        Some(NonceRange { begin: 50, end: range.end })
    }
}

#[test]
fn select_nonces_to_deliver_able_to_split_ranges_with_selector() {
    let mut state = RaceState::<TestProof>::default();
    let mut strategy = BasicStrategy::new();
    strategy.source_nonces_updated(header_id(1), source_nonces(rng(1, 100)));

    state.target_state = Some(ClientState {
        best_self: header_id(0),
        best_peer: header_id(1),
    });
    assert_eq!(
        strategy.select_nonces_to_deliver_with_selector(&state, &SplitAtFifty),
        Some(rng(1, 49)),
    );
}

#[test]
fn select_with_selector_leaves_held_back_range_queued() {
    let mut state = RaceState::<TestProof>::default();
    let mut strategy = BasicStrategy::new();
    strategy.source_nonces_updated(header_id(1), source_nonces(rng(1, 100)));
    state.target_state = Some(ClientState {
        best_self: header_id(0),
        best_peer: header_id(1),
    });
    strategy.select_nonces_to_deliver_with_selector(&state, &SplitAtFifty);
    assert_eq!(queued(&strategy), vec![(header_id(1), rng(50, 100))]);
    assert_eq!(strategy.best_at_target(), 0);
}

#[test]
fn confirming_the_same_nonce_twice_changes_nothing() {
    let mut state = RaceState::<TestProof>::default();
    state.nonces_submitted = Some(rng(9, 12));
    let mut strategy = BasicStrategy::new();
    strategy.source_nonces_updated(header_id(1), source_nonces(rng(1, 5)));
    strategy.source_nonces_updated(header_id(2), source_nonces(rng(6, 10)));
    strategy.target_nonces_updated(target_nonces(7), &mut state);
    let queue_after_first = queued(&strategy);
    let best_after_first = strategy.best_at_target();
    let submitted_after_first = state.nonces_submitted;
    strategy.target_nonces_updated(target_nonces(7), &mut state);
    assert_eq!(queued(&strategy), queue_after_first);
    assert_eq!(strategy.best_at_target(), best_after_first);
    assert_eq!(state.nonces_submitted, submitted_after_first);
    assert_eq!(queue_after_first, vec![(header_id(2), rng(8, 10))]);
}

#[test]
fn best_at_source_never_below_best_at_target() {
    let mut strategy = BasicStrategy::new();
    strategy.target_nonces_updated(target_nonces(10), &mut RaceState::<TestProof>::default());
    strategy.source_nonces_updated(header_id(1), source_nonces(rng(1, 5)));
    assert!(strategy.best_at_source() >= strategy.best_at_target());
    assert_eq!(strategy.best_at_source(), 10);
    strategy.source_nonces_updated(header_id(2), source_nonces(rng(1, 15)));
    assert!(strategy.best_at_source() >= strategy.best_at_target());
    assert_eq!(strategy.best_at_source(), 15);
}

#[test]
fn selection_works_at_the_largest_nonce() {
    let mut state = RaceState::<TestProof>::default();
    let mut strategy = BasicStrategy::new();
    strategy.source_nonces_updated(header_id(1), source_nonces(rng(u64::MAX - 1, u64::MAX)));
    state.target_state = Some(ClientState {
        best_self: header_id(0),
        best_peer: header_id(1),
    });
    assert_eq!(
        strategy.select_nonces_to_deliver(&state),
        Some((rng(1, u64::MAX), ())),
    );
    strategy.target_nonces_updated(target_nonces(u64::MAX), &mut state);
    assert_eq!(queued(&strategy), vec![]);
    assert_eq!(strategy.best_at_target(), u64::MAX);
    assert_eq!(strategy.select_nonces_to_deliver(&state), None);
}

#[test]
fn greater_than_trims_exactly() {
    assert_eq!(rng(1, 10).greater_than(0), Some(rng(1, 10)));
    assert_eq!(rng(1, 10).greater_than(5), Some(rng(6, 10)));
    assert_eq!(rng(1, 10).greater_than(9), Some(rng(10, 10)));
    assert_eq!(rng(1, 10).greater_than(10), None);
    assert_eq!(rng(1, 10).greater_than(u64::MAX), None);
    assert_eq!(rng(5, 10).greater_than(2), Some(rng(5, 10)));
}
