use vstd::prelude::*;

use crate::tx::SignedTx;

verus! {

/// The node's answer to one submission. It is not persisted: it only
/// drives the engine's next decision.
#[derive(Clone, Copy, Debug, PartialEq, Eq, Structural)]
pub enum Outcome {
    /// The node returned a transaction handle.
    Accepted,
    /// The node declined or errored; every error is treated alike.
    Rejected,
}

/// Drives the bulk mode: a pre-built batch is consumed strictly in order,
/// each element submitted exactly once. Submissions are independent — a
/// rejection of one element is reported but never blocks the elements after
/// it, and nothing is ever resubmitted. The run ends when every element has
/// been submitted.
pub struct BulkRun {
    batch: Vec<SignedTx>,
    next_index: usize,
    accepted: usize,
    rejected: usize,
}

impl BulkRun {
    /// The batch this run was created with, never reordered.
    pub closed spec fn batch_spec(&self) -> Seq<SignedTx> {
        self.batch@
    }

    /// How many elements have been submitted so far.
    pub closed spec fn submitted(&self) -> int {
        self.next_index as int
    }

    /// How many submissions the node accepted so far.
    pub closed spec fn accepted_count(&self) -> int {
        self.accepted as int
    }

    /// How many submissions the node rejected so far.
    pub closed spec fn rejected_count(&self) -> int {
        self.rejected as int
    }

    /// Every element is either still pending or was submitted with exactly
    /// one recorded outcome.
    pub open spec fn wf(&self) -> bool {
        &&& 0 <= self.submitted() <= self.batch_spec().len()
        &&& self.accepted_count() + self.rejected_count() == self.submitted()
        &&& 0 <= self.accepted_count()
        &&& 0 <= self.rejected_count()
    }

    /// Takes ownership of a pre-built batch; nothing is submitted yet.
    pub fn new(batch: Vec<SignedTx>) -> (r: Self)
        ensures
            r.wf(),
            r.batch_spec() == batch@,
            r.submitted() == 0,
            r.accepted_count() == 0,
            r.rejected_count() == 0,
    {
        BulkRun { batch, next_index: 0, accepted: 0, rejected: 0 }
    }

    /// Whether every element of the batch has been submitted.
    pub fn is_done(&self) -> (done: bool)
        ensures
            done <==> self.submitted() == self.batch_spec().len(),
    {
        self.next_index == self.batch.len()
    }

    /// The element to submit next: always the first not yet submitted, so
    /// the batch's contiguous nonce order is preserved on the wire.
    pub fn next_transaction(&self) -> (tx: &SignedTx)
        requires
            self.wf(),
            self.submitted() < self.batch_spec().len(),
        ensures
            *tx == self.batch_spec()[self.submitted()],
    {
        &self.batch[self.next_index]
    }

    /// Records the outcome of submitting the current element. The run moves
    /// to the next element whatever the outcome was: a rejection is counted
    /// and reported, never allowed to stop the remainder of the batch.
    pub fn record(&mut self, outcome: Outcome)
        requires
            old(self).wf(),
            old(self).submitted() < old(self).batch_spec().len(),
        ensures
            final(self).wf(),
            final(self).batch_spec() == old(self).batch_spec(),
            final(self).submitted() == old(self).submitted() + 1,
            final(self).accepted_count() == old(self).accepted_count() + (
            if outcome is Accepted {
                1int
            } else {
                0int
            }),
            final(self).rejected_count() == old(self).rejected_count() + (
            if outcome is Rejected {
                1int
            } else {
                0int
            }),
    {
        let len = self.batch.len();
        assert(self.next_index < len);
        match outcome {
            Outcome::Accepted => {
                self.accepted = self.accepted + 1;
            },
            Outcome::Rejected => {
                self.rejected = self.rejected + 1;
            },
        }
        self.next_index = self.next_index + 1;
    }

    /// How many submissions the node accepted so far.
    pub fn accepted_so_far(&self) -> (n: usize)
        ensures
            n == self.accepted_count(),
    {
        self.accepted
    }

    /// How many submissions the node rejected so far.
    pub fn rejected_so_far(&self) -> (n: usize)
        ensures
            n == self.rejected_count(),
    {
        self.rejected
    }

    /// How many elements have been submitted so far.
    pub fn submitted_so_far(&self) -> (n: usize)
        ensures
            n == self.submitted(),
    {
        self.next_index
    }
}

} // verus!
