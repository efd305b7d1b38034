//! The search dispatcher.
//!
//! The UI runs on a single cooperative event loop and must never block on
//! the registry's network call, so each submitted query is handed to a
//! background worker, and the worker's outcome comes back through a
//! single undelivered slot that the UI polls on every tick.  Submissions
//! are tagged with sequence numbers: only the newest submission's outcome
//! is ever accepted into the slot, so a straggling worker for an
//! abandoned query cannot overwrite the newest query's result, and each
//! submission's outcome is accepted at most once.
//!
//! The dispatcher itself is the decision core alone: it assigns sequence
//! numbers, judges deliveries, and empties the slot.  Spawning the worker
//! thread, running the blocking registry call, and carrying `(sequence,
//! outcome)` pairs back over a channel is the harness's part; it feeds
//! every completion to [`Dispatcher::deliver`] and reads results out of
//! [`Dispatcher::poll`].

use vstd::prelude::*;

use crate::registry::SearchOutcome;

verus! {

/// The work order one submission hands to its background worker: the
/// query text and the sequence number under which the worker's outcome
/// may be offered back.
#[derive(Debug)]
pub struct Job {
    pub seq: u64,
    pub query: String,
}

/// Decides which worker outcome the UI gets to see, and sees exactly once.
pub struct Dispatcher {
    /// The sequence number the next submission will take.  Starts at one
    /// and only grows, so no two submissions ever share a number.
    pub next_seq: u64,
    /// The newest submission's sequence number: the only one whose
    /// outcome is still wanted.  Zero while nothing was ever submitted.
    pub live_seq: u64,
    /// Whether the newest submission's outcome is still owed: set by
    /// `submit`, cleared when `deliver` accepts the outcome.
    pub awaiting: bool,
    /// The accepted, not yet polled outcome: a mailbox of one slot.
    pub slot: Option<SearchOutcome>,
    /// How many queries were ever submitted.
    pub submissions: Ghost<nat>,
    /// How many outcomes `poll` ever handed out.
    pub deliveries: Ghost<nat>,
}

impl Dispatcher {
    /// The dispatcher's invariant.  The counting clauses say that every
    /// outcome the UI ever saw, or could still see in the slot, is backed
    /// by its own submission — with one submission still owed an outcome
    /// while `awaiting` holds.
    pub open spec fn wf(self) -> bool {
        &&& self.live_seq < self.next_seq
        &&& self.live_seq == 0 ==> !self.awaiting && self.slot is None
        &&& self.deliveries@ + self.slot_count() <= self.submissions@
        &&& self.awaiting ==> self.deliveries@ + self.slot_count() < self.submissions@
    }

    /// One if an outcome sits undelivered in the slot, else zero.
    pub open spec fn slot_count(self) -> nat {
        if self.slot is Some {
            1nat
        } else {
            0nat
        }
    }

    /// The state a fresh dispatcher starts in.
    pub open spec fn init() -> Dispatcher {
        Dispatcher {
            next_seq: 1u64,
            live_seq: 0u64,
            awaiting: false,
            slot: None,
            submissions: Ghost(0nat),
            deliveries: Ghost(0nat),
        }
    }

    /// A submission's effect: the fresh sequence number becomes the live
    /// one and its outcome becomes owed, and whatever outcome an older
    /// worker had left undelivered is dropped as stale.
    pub open spec fn submit_step(self) -> Dispatcher
        recommends
            self.next_seq < u64::MAX,
    {
        Dispatcher {
            next_seq: (self.next_seq + 1) as u64,
            live_seq: self.next_seq,
            awaiting: true,
            slot: None,
            submissions: Ghost(self.submissions@ + 1),
            deliveries: self.deliveries,
        }
    }

    /// Whether an outcome tagged `seq` is still wanted: only the newest
    /// submission's, and only while none was accepted for it yet.
    pub open spec fn accepts(self, seq: u64) -> bool {
        self.awaiting && seq == self.live_seq
    }

    /// A worker completion's effect: a still-wanted outcome fills the
    /// slot; a stale or repeated one changes nothing.
    pub open spec fn deliver_step(self, seq: u64, outcome: SearchOutcome) -> Dispatcher {
        if self.accepts(seq) {
            Dispatcher { awaiting: false, slot: Some(outcome), ..self }
        } else {
            self
        }
    }

    /// What `poll` returns: the undelivered outcome, if one is waiting.
    pub open spec fn polled(self) -> Option<SearchOutcome> {
        self.slot
    }

    /// A poll's effect: the slot is emptied, so the same outcome cannot
    /// be seen twice.
    pub open spec fn poll_step(self) -> Dispatcher {
        if self.slot is Some {
            Dispatcher { slot: None, deliveries: Ghost(self.deliveries@ + 1), ..self }
        } else {
            self
        }
    }

    /// A dispatcher with no submission made and nothing to poll.
    pub fn new() -> (d: Dispatcher)
        ensures
            d == Dispatcher::init(),
            d.wf(),
    {
        Dispatcher {
            next_seq: 1u64,
            live_seq: 0u64,
            awaiting: false,
            slot: None,
            submissions: Ghost(0nat),
            deliveries: Ghost(0nat),
        }
    }

    /// Takes a query the user submitted and returns the job to hand to a
    /// fresh worker.  An empty query is as valid as any: what it matches
    /// is the registry collaborator's affair.  Any outcome still queued
    /// from an older submission is discarded, so the next poll cannot
    /// return a predecessor's result.
    pub fn submit(&mut self, query: String) -> (job: Job)
        requires
            old(self).wf(),
            old(self).next_seq < u64::MAX,
        ensures
            *final(self) == old(self).submit_step(),
            final(self).wf(),
            job == (Job { seq: old(self).next_seq, query }),
    {
        let seq = self.next_seq;
        self.next_seq = self.next_seq + 1;
        self.live_seq = seq;
        self.awaiting = true;
        self.slot = None;
        self.submissions = Ghost(self.submissions@ + 1);
        Job { seq, query }
    }

    /// Takes one worker's completion, tagged with the sequence number of
    /// the submission it worked for, and says whether the outcome was
    /// accepted.  Only the newest submission's first outcome is; a
    /// worker that finished for an abandoned query is ignored.
    pub fn deliver(&mut self, seq: u64, outcome: SearchOutcome) -> (accepted: bool)
        requires
            old(self).wf(),
        ensures
            accepted == old(self).accepts(seq),
            *final(self) == old(self).deliver_step(seq, outcome),
            final(self).wf(),
    {
        if self.awaiting && seq == self.live_seq {
            self.slot = Some(outcome);
            self.awaiting = false;
            true
        } else {
            false
        }
    }

    /// Hands out the undelivered outcome, if one is waiting, and empties
    /// the slot.  Non-blocking and free of side effects when nothing is
    /// pending, so the UI may call it on every redraw tick.
    pub fn poll(&mut self) -> (r: Option<SearchOutcome>)
        requires
            old(self).wf(),
        ensures
            r == old(self).polled(),
            *final(self) == old(self).poll_step(),
            final(self).wf(),
    {
        let r = self.slot.take();
        self.deliveries = Ghost(
            if r is Some {
                self.deliveries@ + 1
            } else {
                self.deliveries@
            },
        );
        r
    }
}

/// Law: a fresh submission supersedes everything before it.  Polling
/// right after `submit`, before the new worker's outcome is delivered,
/// yields nothing — whatever an older worker may have left behind.
pub proof fn lemma_poll_after_submit_is_empty(d: Dispatcher)
    requires
        d.wf(),
        d.next_seq < u64::MAX,
    ensures
        d.submit_step().polled() is None,
{
}

/// Law: a completed search is observed exactly once.  Once the newest
/// submission's worker delivers its outcome, one poll returns that very
/// outcome — a typed failure as much as a result set — and the poll right
/// after it returns nothing.
pub proof fn lemma_outcome_observed_exactly_once(d: Dispatcher, o: SearchOutcome)
    requires
        d.wf(),
        d.next_seq < u64::MAX,
    ensures
        ({
            let completed = d.submit_step().deliver_step(d.next_seq, o);
            &&& completed.polled() == Some(o)
            &&& completed.poll_step().polled() is None
        }),
{
}

/// Law: the latest submission wins.  When a second query is submitted on
/// the heels of a first, the second worker's outcome is the one poll
/// exposes — whether the first worker's outcome straggles in before the
/// second's or after it, it is discarded as stale.
pub proof fn lemma_latest_submission_wins(
    d: Dispatcher,
    first: SearchOutcome,
    second: SearchOutcome,
)
    requires
        d.wf(),
        d.next_seq + 1 < u64::MAX,
    ensures
        ({
            let seq_first = d.next_seq;
            let one = d.submit_step();
            let seq_second = one.next_seq;
            let two = one.submit_step();
            &&& two.deliver_step(seq_second, second).deliver_step(seq_first, first).polled()
                == Some(second)
            &&& two.deliver_step(seq_first, first).deliver_step(seq_second, second).polled()
                == Some(second)
        }),
{
}

/// Law: an idle poll is free of side effects.  While no outcome is
/// waiting, polling changes nothing at all, so the UI may poll on every
/// redraw tick at any frequency.
pub proof fn lemma_idle_poll_changes_nothing(d: Dispatcher)
    requires
        d.polled() is None,
    ensures
        d.poll_step() == d,
{
}

/// Law: the dispatcher never hands out more outcomes than queries were
/// submitted — in every well-formed state, the count of polls that
/// returned something is bounded by the count of submissions.
pub proof fn lemma_deliveries_bounded(d: Dispatcher)
    requires
        d.wf(),
    ensures
        d.deliveries@ <= d.submissions@,
{
}

/// Law: the starting state is well-formed and every transition preserves
/// well-formedness, so the bound above holds along any run of
/// submissions, worker completions and polls.
pub proof fn lemma_steps_preserve_wf(d: Dispatcher, seq: u64, outcome: SearchOutcome)
    requires
        d.wf(),
        d.next_seq < u64::MAX,
    ensures
        Dispatcher::init().wf(),
        d.submit_step().wf(),
        d.deliver_step(seq, outcome).wf(),
        d.poll_step().wf(),
{
}

} // verus!
