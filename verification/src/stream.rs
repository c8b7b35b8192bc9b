use vstd::prelude::*;

use crate::nonce::NonceTracker;
use crate::tx::ConstructionError;
use crate::tx::SignedTx;
use crate::tx::build;
use crate::tx::valid_dest;

verus! {

/// Configuration of the streaming submission policy: how many accepted
/// submissions form one batch before a pacing sleep, and how long every
/// pacing or backoff sleep lasts.
#[derive(Clone, Copy, Debug, PartialEq, Eq, Structural)]
pub struct StreamConfig {
    /// Accepted submissions per batch before the engine asks for a pacing
    /// sleep.
    pub batch_size: u64,
    /// Length in seconds of both the pacing sleep and the backoff sleep.
    pub sleep_secs: u64,
}

impl StreamConfig {
    /// A batch holds at least one submission.
    pub open spec fn wf(&self) -> bool {
        self.batch_size >= 1
    }
}

/// What the engine's state reduces to between two streaming steps: the
/// nonce the next transaction will be signed with, and how many accepted
/// submissions the current batch holds so far.
pub ghost struct StreamModel {
    /// Nonce of the next transaction to build.
    pub nonce: int,
    /// Accepted submissions since the last pacing sleep or recovery.
    pub in_batch: int,
}

/// One streaming step as the engine sees it: the submission's outcome,
/// carrying for a rejection the authoritative nonce that the recovery
/// query reported afterwards.
pub enum StreamEvent {
    /// The node returned a transaction handle.
    Accepted,
    /// The node declined or errored; recovery fetched the authoritative
    /// on-chain nonce.
    Rejected {
        /// Nonce the node reported during recovery.
        authoritative: u64,
    },
}

/// Whether this step ends a full batch and so demands a pacing sleep.
pub open spec fn paces(cfg: StreamConfig, s: StreamModel, e: StreamEvent) -> bool {
    e is Accepted && s.in_batch + 1 == cfg.batch_size
}

/// The state after one streaming step.
///
/// An accepted submission advances the nonce by exactly one and grows the
/// batch, emptying it when it is full. A rejected submission discards the
/// transaction, resets the nonce to the authoritative value and empties the
/// batch.
pub open spec fn stream_step(cfg: StreamConfig, s: StreamModel, e: StreamEvent) -> StreamModel {
    match e {
        StreamEvent::Accepted => StreamModel {
            nonce: s.nonce + 1,
            in_batch: if s.in_batch + 1 == cfg.batch_size {
                0
            } else {
                s.in_batch + 1
            },
        },
        StreamEvent::Rejected { authoritative } => StreamModel {
            nonce: authoritative as int,
            in_batch: 0,
        },
    }
}

/// The state after a whole sequence of streaming steps.
pub open spec fn stream_run(cfg: StreamConfig, s: StreamModel, events: Seq<StreamEvent>) -> StreamModel
    decreases events.len(),
{
    if events.len() == 0 {
        s
    } else {
        stream_step(cfg, stream_run(cfg, s, events.drop_last()), events.last())
    }
}

/// The nonce the i-th submission of a run is built with: submissions are
/// built one at a time, so the i-th is signed under the state that the
/// first i outcomes produced.
pub open spec fn nonce_used(cfg: StreamConfig, s: StreamModel, events: Seq<StreamEvent>, i: int) -> int {
    stream_run(cfg, s, events.take(i)).nonce
}

/// Law: over a stretch of accepted outcomes with no rejection — and hence
/// no resynchronization — in between, the nonces signed are strictly
/// increasing by exactly one, with no gaps: the j-th submission uses the
/// i-th submission's nonce plus the distance between them.
pub proof fn lemma_accepted_stretch_contiguous(
    cfg: StreamConfig,
    s: StreamModel,
    events: Seq<StreamEvent>,
    i: int,
    j: int,
)
    requires
        0 <= i <= j <= events.len(),
        forall|k: int| i <= k < j ==> #[trigger] events[k] is Accepted,
    ensures
        nonce_used(cfg, s, events, j) == nonce_used(cfg, s, events, i) + (j - i),
    decreases j - i,
{
    if i < j {
        lemma_accepted_stretch_contiguous(cfg, s, events, i, j - 1);
        assert(events.take(j).drop_last() =~= events.take(j - 1));
        assert(events.take(j).last() == events[j - 1]);
    }
}

/// Law: immediately after a rejected outcome, the next transaction is built
/// at the authoritative node-reported nonce fetched during recovery — the
/// engine never simply continues at the previous local nonce plus one.
pub proof fn lemma_rejection_resets_to_authoritative(
    cfg: StreamConfig,
    s: StreamModel,
    events: Seq<StreamEvent>,
    i: int,
    authoritative: u64,
)
    requires
        0 <= i < events.len(),
        events[i] == (StreamEvent::Rejected { authoritative }),
    ensures
        nonce_used(cfg, s, events, i + 1) == authoritative,
{
    assert(events.take(i + 1).drop_last() =~= events.take(i));
    assert(events.take(i + 1).last() == events[i]);
}

/// Drives the streaming mode: build one transaction at the tracker's nonce,
/// submit it, and only decide the next step after observing the outcome.
///
/// The engine holds the single-writer nonce state; the surrounding program
/// performs the submissions and sleeps and feeds every outcome back in.
pub struct StreamEngine {
    cfg: StreamConfig,
    tracker: NonceTracker,
    in_batch: u64,
}

impl StreamEngine {
    /// The configuration the engine was created with.
    pub closed spec fn config(&self) -> StreamConfig {
        self.cfg
    }

    /// The engine's state, reduced to what the streaming policy reads.
    pub closed spec fn model(&self) -> StreamModel {
        StreamModel { nonce: self.tracker@ as int, in_batch: self.in_batch as int }
    }

    /// The batch is never already full, and the configuration is sound.
    pub open spec fn wf(&self) -> bool {
        &&& self.config().wf()
        &&& 0 <= self.model().in_batch < self.config().batch_size
        &&& 0 <= self.model().nonce <= u64::MAX
    }

    /// Starts streaming at the node-reported nonce with an empty batch.
    pub fn new(cfg: StreamConfig, initial_nonce: u64) -> (e: Self)
        requires
            cfg.wf(),
        ensures
            e.wf(),
            e.config() == cfg,
            e.model() == (StreamModel { nonce: initial_nonce as int, in_batch: 0 }),
    {
        StreamEngine { cfg, tracker: NonceTracker::new(initial_nonce), in_batch: 0 }
    }

    /// The nonce the next transaction will be signed with.
    pub fn current_nonce(&self) -> (n: u64)
        ensures
            n == self.model().nonce,
    {
        self.tracker.current()
    }

    /// How long every pacing or backoff sleep lasts.
    pub fn sleep_secs(&self) -> (s: u64)
        ensures
            s == self.config().sleep_secs,
    {
        self.cfg.sleep_secs
    }

    /// Builds the next transaction, bound to the current nonce. Fails
    /// exactly when the destination is malformed; such a failure aborts the
    /// run, since it is a configuration error, not a network condition.
    pub fn build_next(&self, dest: &Vec<u8>, amount: u64) -> (r: Result<
        SignedTx,
        ConstructionError,
    >)
        ensures
            r is Ok <==> valid_dest(dest@),
            r matches Ok(tx) ==> tx.nonce == self.model().nonce && tx.amount == amount
                && tx.dest@ == dest@,
            r is Err ==> r == Result::<SignedTx, ConstructionError>::Err(
                ConstructionError::MalformedDestination,
            ),
    {
        build(dest, amount, self.tracker.current())
    }

    /// Records an accepted submission: the nonce advances by exactly one and
    /// the batch grows. Returns whether a full batch was just completed, in
    /// which case the caller must sleep for the pacing interval and the
    /// batch restarts empty.
    pub fn note_accepted(&mut self) -> (pace: bool)
        requires
            old(self).wf(),
            old(self).model().nonce < u64::MAX,
        ensures
            final(self).wf(),
            final(self).config() == old(self).config(),
            final(self).model() == stream_step(
                old(self).config(),
                old(self).model(),
                StreamEvent::Accepted,
            ),
            pace == paces(old(self).config(), old(self).model(), StreamEvent::Accepted),
    {
        let pace = self.in_batch + 1 == self.cfg.batch_size;
        self.tracker.advance();
        if pace {
            self.in_batch = 0;
        } else {
            self.in_batch = self.in_batch + 1;
        }
        pace
    }

    /// Records a rejected submission after recovery ran: the rejected
    /// transaction is discarded for good, the tracker is reset to the
    /// authoritative nonce the recovery query reported, and the batch
    /// restarts empty. The caller sleeps for the backoff interval before the
    /// recovery query.
    pub fn note_rejected(&mut self, authoritative: u64)
        requires
            old(self).wf(),
        ensures
            final(self).wf(),
            final(self).config() == old(self).config(),
            final(self).model() == stream_step(
                old(self).config(),
                old(self).model(),
                StreamEvent::Rejected { authoritative },
            ),
    {
        self.tracker.reset(authoritative);
        self.in_batch = 0;
    }
}

} // verus!
