//! Shared state of one race: header identifiers, client state snapshots,
//! the nonce reports both clients produce, and the mutable race state that
//! tracks the single in-flight delivery.

use crate::range::NonceRange;
use vstd::prelude::*;

verus! {

/// Reference into one ledger's history: a header height and its hash.
/// Identifiers of one chain are ordered by height; identifiers of different
/// chains are never compared to each other.
#[derive(Clone, Copy, Debug, PartialEq, Eq, Structural)]
pub struct HeaderId {
    /// Height of the header.
    pub number: u64,
    /// Hash of the header.
    pub hash: u64,
}

/// Immutable snapshot of what one client believes about itself and its peer.
#[derive(Clone, Copy, Debug, PartialEq, Eq, Structural)]
pub struct ClientState {
    /// The most recent header this client has produced.
    pub best_self: HeaderId,
    /// The most recent counterparty-chain header this client has confirmed.
    pub best_peer: HeaderId,
}

/// Nonces reported by the race source client.
#[derive(Clone, Copy, Debug, PartialEq, Eq, Structural)]
pub struct SourceClientNonces {
    /// Nonces newly visible at the source since the watermark passed to the
    /// client.
    pub new_nonces: NonceRange,
    /// Latest nonce confirmed back to the bridged client. Only some races
    /// track this; in the others it is `None`.
    pub confirmed_nonce: Option<u64>,
}

/// Nonces reported by the race target client.
#[derive(Clone, Copy, Debug, PartialEq, Eq, Structural)]
pub struct TargetClientNonces {
    /// Highest nonce the target has recorded as delivered.
    pub latest_nonce: u64,
    /// Latest nonce confirmed back to the bridged client. Only some races
    /// track this; in the others it is `None`.
    pub confirmed_nonce: Option<u64>,
}

/// Mutable state of one race, shared between the loop and the strategy.
///
/// At most one of `nonces_to_submit` and `nonces_submitted` denotes real
/// in-flight work at a time: the strategy refuses to select new work while
/// either is set.
#[derive(Debug)]
#[verifier::ext_equal]
pub struct RaceState<Proof> {
    /// Source client state, if known.
    pub source_state: Option<ClientState>,
    /// Target client state, if known.
    pub target_state: Option<ClientState>,
    /// Range of nonces selected for submission, with the source header the
    /// proof was generated at and the proof itself.
    pub nonces_to_submit: Option<(HeaderId, NonceRange, Proof)>,
    /// Range of nonces currently submitted and awaiting confirmation.
    pub nonces_submitted: Option<NonceRange>,
}

impl<Proof> Default for RaceState<Proof> {
    /// The empty race state every loop starts from.
    fn default() -> (r: Self)
        ensures
            r.source_state is None,
            r.target_state is None,
            r.nonces_to_submit is None,
            r.nonces_submitted is None,
    {
        RaceState {
            source_state: None,
            target_state: None,
            nonces_to_submit: None,
            nonces_submitted: None,
        }
    }
}

} // verus!
