use vstd::prelude::*;

verus! {

/// What `reset` leaves in the tracker: the authoritative value, whatever
/// was held before.
pub open spec fn reset_result(previous: u64, authoritative: u64) -> u64 {
    authoritative
}

/// Law: resetting twice in a row to the same authoritative value is
/// idempotent — the second reset leaves the tracker exactly where the first
/// did, with no drift.
pub proof fn lemma_reset_idempotent(previous: u64, authoritative: u64)
    ensures
        reset_result(reset_result(previous, authoritative), authoritative) == reset_result(
            previous,
            authoritative,
        ),
{
}

/// The local sequence number for one signing account.
///
/// The value moves forward by exactly one for each accepted submission and is
/// replaced wholesale when a resynchronization reports the authoritative
/// on-chain value. What `reset` establishes does not depend on the value held
/// before, so resetting twice in a row to the same value leaves it there.
pub struct NonceTracker {
    value: u64,
}

impl View for NonceTracker {
    type V = u64;

    closed spec fn view(&self) -> u64 {
        self.value
    }
}

impl NonceTracker {
    /// Starts tracking at the node-reported value.
    pub fn new(initial: u64) -> (t: Self)
        ensures
            t@ == initial,
    {
        NonceTracker { value: initial }
    }

    /// The nonce the next transaction must be signed with.
    pub fn current(&self) -> (n: u64)
        ensures
            n == self@,
    {
        self.value
    }

    /// Replaces the local value with the authoritative one, discarding any
    /// assumption about transactions signed under the old value.
    pub fn reset(&mut self, authoritative: u64)
        ensures
            final(self)@ == reset_result(old(self)@, authoritative),
            final(self)@ == authoritative,
    {
        self.value = authoritative;
    }

    /// Moves to the next nonce after an accepted submission.
    pub fn advance(&mut self)
        requires
            old(self)@ < u64::MAX,
        ensures
            final(self)@ == old(self)@ + 1,
    {
        self.value = self.value + 1;
    }
}

} // verus!
