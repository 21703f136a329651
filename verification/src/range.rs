//! Inclusive ranges of message nonces.
//!
//! A nonce is an unsigned, monotonically issued integer identifying one
//! relayable item within a lane. A range is the contiguous batch of nonces
//! observed together at some source header.

use vstd::prelude::*;

verus! {

/// An inclusive range `[begin, end]` of message nonces.
#[derive(Clone, Copy, Debug, PartialEq, Eq, Structural)]
pub struct NonceRange {
    /// Lowest nonce of the range.
    pub begin: u64,
    /// Highest nonce of the range.
    pub end: u64,
}

impl NonceRange {
    /// A range always holds at least one nonce.
    pub open spec fn wf(self) -> bool {
        self.begin <= self.end
    }

    /// The suffix of `self` strictly greater than `nonce`, if any nonce of
    /// `self` is greater.
    pub open spec fn spec_greater_than(self, nonce: u64) -> Option<NonceRange> {
        if self.end > nonce {
            Some(
                NonceRange {
                    begin: if self.begin > nonce {
                        self.begin
                    } else {
                        (nonce + 1) as u64
                    },
                    end: self.end,
                },
            )
        } else {
            None
        }
    }

    /// Lowest nonce of the range.
    pub fn begin(&self) -> (r: u64)
        ensures
            r == self.begin,
    {
        self.begin
    }

    /// Highest nonce of the range.
    pub fn end(&self) -> (r: u64)
        ensures
            r == self.end,
    {
        self.end
    }

    /// Returns the sub-range of nonces strictly greater than `nonce`, or
    /// `None` if every nonce of the range is `<= nonce`.
    pub fn greater_than(self, nonce: u64) -> (r: Option<NonceRange>)
        requires
            self.wf(),
        ensures
            r == self.spec_greater_than(nonce),
            r matches Some(s) ==> s.wf() && s.begin > nonce && s.begin >= self.begin && s.end
                == self.end,
            r is None <==> self.end <= nonce,
    {
        if self.end > nonce {
            let b = if self.begin > nonce {
                self.begin
            } else {
                nonce + 1
            };
            Some(NonceRange { begin: b, end: self.end })
        } else {
            None
        }
    }
}

} // verus!
