//! The ring buffer between probes and consumer, as far as the capture rules
//! depend on it: a bounded queue of records with reservations. A slot is
//! reserved, then either submitted, which makes its record visible to the
//! consumer, or discarded, which frees it with nothing published.

use vstd::prelude::*;

verus! {

/// What a ring buffer holds.
pub struct RingView {
    /// Number of slots.
    pub capacity: nat,
    /// Reservations that are neither submitted nor discarded yet.
    pub pending: nat,
    /// Submitted records that the consumer has not taken, oldest first.
    pub queue: Seq<Seq<u8>>,
}

impl RingView {
    /// Whether one more slot can be reserved.
    pub open spec fn has_room(self) -> bool {
        self.queue.len() + self.pending < self.capacity
    }

    /// The buffer after a reservation was granted.
    pub open spec fn reserved(self) -> RingView {
        RingView { pending: self.pending + 1, ..self }
    }

    /// The buffer after a reservation was submitted with `record`.
    pub open spec fn submitted(self, record: Seq<u8>) -> RingView {
        RingView { pending: (self.pending - 1) as nat, queue: self.queue.push(record), ..self }
    }

    /// The buffer after a reservation was discarded.
    pub open spec fn discarded(self) -> RingView {
        RingView { pending: (self.pending - 1) as nat, ..self }
    }

    /// The buffer after the consumer took the oldest record.
    pub open spec fn consumed(self) -> RingView {
        RingView { queue: self.queue.drop_first(), ..self }
    }
}

/// An exclusively held slot that is not visible to the consumer yet. It is
/// given up by value, so it ends in one submit or one discard.
pub struct Reservation {
    slot: (),
}

/// A bounded queue of records.
pub struct RingBuffer {
    capacity: usize,
    pending: usize,
    queue: Vec<Vec<u8>>,
}

impl View for RingBuffer {
    type V = RingView;

    closed spec fn view(&self) -> RingView {
        RingView {
            capacity: self.capacity as nat,
            pending: self.pending as nat,
            queue: self.queue@.map_values(|r: Vec<u8>| r@),
        }
    }
}

impl RingBuffer {
    /// Number of slots.
    pub fn capacity(&self) -> (n: usize)
        ensures
            n == self@.capacity,
    {
        self.capacity
    }

    /// An empty buffer of `capacity` slots.
    pub fn new(capacity: usize) -> (ring: RingBuffer)
        ensures
            ring@ == (RingView { capacity: capacity as nat, pending: 0, queue: Seq::empty() }),
    {
        let ring = RingBuffer { capacity, pending: 0, queue: Vec::new() };
        assert(ring@.queue =~= Seq::empty());
        ring
    }

    /// Number of records waiting for the consumer.
    pub fn len(&self) -> (n: usize)
        ensures
            n == self@.queue.len(),
    {
        self.queue.len()
    }

    /// Number of reservations still open.
    pub fn pending(&self) -> (n: usize)
        ensures
            n == self@.pending,
    {
        self.pending
    }

    /// Reserves a slot, or returns `None` at once where the buffer is full.
    pub fn reserve(&mut self) -> (r: Option<Reservation>)
        ensures
            r is Some <==> old(self)@.has_room(),
            r is Some ==> final(self)@ == old(self)@.reserved(),
            r is None ==> final(self)@ == old(self)@,
    {
        if self.queue.len() < self.capacity && self.pending < self.capacity - self.queue.len() {
            self.pending = self.pending + 1;
            Some(Reservation { slot: () })
        } else {
            None
        }
    }

    /// Publishes `record` in a reserved slot.
    pub fn submit(&mut self, slot: Reservation, record: Vec<u8>)
        requires
            old(self)@.pending > 0,
        ensures
            final(self)@ == old(self)@.submitted(record@),
    {
        let _ = slot;
        self.pending = self.pending - 1;
        self.queue.push(record);
        assert(self@.queue =~= old(self)@.queue.push(record@));
    }

    /// Frees a reserved slot; nothing is published.
    pub fn discard(&mut self, slot: Reservation)
        requires
            old(self)@.pending > 0,
        ensures
            final(self)@ == old(self)@.discarded(),
    {
        let _ = slot;
        self.pending = self.pending - 1;
    }

    /// Takes the oldest record, or returns `None` where none is waiting.
    pub fn next(&mut self) -> (r: Option<Vec<u8>>)
        ensures
            r is Some <==> old(self)@.queue.len() > 0,
            r matches Some(record) ==> record@ == old(self)@.queue.first() && final(self)@ == old(
                self,
            )@.consumed(),
            r is None ==> final(self)@ == old(self)@,
    {
        if self.queue.len() == 0 {
            return None;
        }
        let record = self.queue.remove(0);
        assert(self@.queue =~= old(self)@.queue.drop_first());
        Some(record)
    }
}

} // verus!
