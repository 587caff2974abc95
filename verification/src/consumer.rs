//! The consumer side: drain every record that is waiting, hand each one on
//! once, and back off for a short fixed time after a pass that found none.

use crate::ring::{RingBuffer, RingView};
use vstd::prelude::*;

verus! {

/// How long the consumer sleeps after an empty pass, in milliseconds.
pub const POLL_INTERVAL_MS: u64 = 10;

/// What the polling loop does after a pass over the buffer.
#[derive(Clone, Copy, Debug, PartialEq, Eq)]
pub enum PollAction {
    /// Records were found: look again at once.
    DrainAgain,
    /// Nothing was found: sleep this many milliseconds, then look again.
    Sleep(u64),
}

/// The step after a pass that handed on `drained` records.
pub open spec fn spec_after_pass(drained: nat) -> PollAction {
    if drained == 0 {
        PollAction::Sleep(POLL_INTERVAL_MS)
    } else {
        PollAction::DrainAgain
    }
}

/// Decides the step after a pass: an empty pass is always followed by a
/// sleep of the poll interval, so the loop never spins on an empty buffer;
/// a pass that found records is followed by the next pass at once.
pub fn after_pass(drained: usize) -> (action: PollAction)
    ensures
        action == spec_after_pass(drained as nat),
        drained == 0 <==> action == PollAction::Sleep(POLL_INTERVAL_MS),
{
    if drained == 0 {
        PollAction::Sleep(POLL_INTERVAL_MS)
    } else {
        PollAction::DrainAgain
    }
}

/// The records of a list of byte vectors.
pub open spec fn spec_records(v: Seq<Vec<u8>>) -> Seq<Seq<u8>> {
    v.map_values(|r: Vec<u8>| r@)
}

/// Takes every record that is waiting, oldest first. Each record leaves the
/// buffer as it is handed out, so none is delivered twice; open
/// reservations are not touched.
pub fn drain_pass(ring: &mut RingBuffer) -> (records: Vec<Vec<u8>>)
    ensures
        spec_records(records@) == old(ring)@.queue,
        final(ring)@ == (RingView { queue: Seq::empty(), ..old(ring)@ }),
{
    let mut records: Vec<Vec<u8>> = Vec::new();
    assert(spec_records(records@) + ring@.queue =~= old(ring)@.queue);
    loop
        invariant_except_break
            spec_records(records@) + ring@.queue == old(ring)@.queue,
            ring@.capacity == old(ring)@.capacity,
            ring@.pending == old(ring)@.pending,
        ensures
            spec_records(records@) == old(ring)@.queue,
            ring@ == (RingView { queue: Seq::empty(), ..old(ring)@ }),
        decreases ring@.queue.len(),
    {
        let ghost before = ring@.queue;
        let ghost taken = spec_records(records@);
        match ring.next() {
            Some(record) => {
                records.push(record);
                assert(spec_records(records@) =~= taken.push(record@));
                assert(taken.push(before.first()) + before.drop_first() =~= taken + before);
            },
            None => {
                assert(ring@.queue =~= Seq::empty());
                assert(taken + ring@.queue =~= taken);
                break ;
            },
        }
    }
    records
}

/// One pass over a buffer: the buffer it leaves, the records it hands out,
/// oldest first, and the step that follows.
pub open spec fn spec_poll(ring: RingView) -> (RingView, Seq<Seq<u8>>, PollAction) {
    (RingView { queue: Seq::empty(), ..ring }, ring.queue, spec_after_pass(ring.queue.len()))
}

/// One pass of the polling loop: the records it drained, and what the loop
/// does next.
pub fn poll_once(ring: &mut RingBuffer) -> (pass: (Vec<Vec<u8>>, PollAction))
    ensures
        (final(ring)@, spec_records(pass.0@), pass.1) == spec_poll(old(ring)@),
{
    let records = drain_pass(ring);
    let action = after_pass(records.len());
    (records, action)
}

/// A pass over an empty buffer hands out nothing and is followed by a sleep
/// of the poll interval. So is the second of two passes with no submission
/// between them, whatever the first one found: a record is handed out once.
pub proof fn lemma_idle_backoff(ring: RingView)
    ensures
        ring.queue.len() == 0 ==> spec_poll(ring).2 == PollAction::Sleep(POLL_INTERVAL_MS),
        ring.queue.len() > 0 ==> spec_poll(ring).2 == PollAction::DrainAgain,
        spec_poll(spec_poll(ring).0).1 == Seq::<Seq<u8>>::empty(),
        spec_poll(spec_poll(ring).0).2 == PollAction::Sleep(POLL_INTERVAL_MS),
        spec_poll(ring).0.pending == ring.pending,
{
}

} // verus!
