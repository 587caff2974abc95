//! The slot discipline: every reservation ends in exactly one submit or one
//! discard, on every path, and a full buffer drops the occurrence at once.

use crate::context::TraceContext;
use crate::producer::{
    spec_connect_target, spec_init_base, BlockIoDone, BlockIoStart, EmitStatus, HoneyBeeEvent,
};
use crate::ring::{RingBuffer, RingView};
use crate::schema::{BlockIoEvent, ConnectionEvent, AF_INET};
use vstd::prelude::*;

verus! {

/// Where one invocation of a probe stands.
#[derive(Clone, Copy, Debug, PartialEq, Eq)]
pub enum SlotState {
    /// Nothing was reserved yet.
    Idle,
    /// A slot is held and not filled yet.
    Reserved,
    /// The held slot holds a complete record.
    Filled,
    /// Filling the held slot failed with this status.
    PartialFill(u32),
    /// The slot was submitted.
    Submitted,
    /// The slot was discarded after this status.
    Discarded(u32),
    /// The buffer was full; nothing was reserved.
    ReservationDenied,
}

/// What the probe does next.
#[derive(Clone, Copy, Debug, PartialEq, Eq)]
pub enum SlotAction {
    Reserve,
    Fill,
    Submit,
    Discard,
    /// The invocation is over, with this status.
    Return(u32),
}

/// How the last action went.
#[derive(Clone, Copy, Debug, PartialEq, Eq)]
pub enum SlotOutcome {
    /// The reservation was granted.
    Granted,
    /// The buffer was full.
    Denied,
    /// Every field was read.
    FillOk,
    /// A field could not be read.
    FillFailed(u32),
    /// The slot was submitted or discarded, as asked.
    Released,
}

impl SlotState {
    /// The states in which the invocation is over.
    pub open spec fn is_terminal(self) -> bool {
        self is Submitted || self is Discarded || self is ReservationDenied
    }

    /// The states in which a slot is held.
    pub open spec fn holds_slot(self) -> bool {
        self is Reserved || self is Filled || self is PartialFill
    }

    /// The action that a state calls for.
    pub open spec fn spec_action(self) -> SlotAction {
        match self {
            SlotState::Idle => SlotAction::Reserve,
            SlotState::Reserved => SlotAction::Fill,
            SlotState::Filled => SlotAction::Submit,
            SlotState::PartialFill(_) => SlotAction::Discard,
            SlotState::Submitted => SlotAction::Return(EmitStatus::Success.spec_code()),
            SlotState::Discarded(code) => SlotAction::Return(code),
            SlotState::ReservationDenied => SlotAction::Return(EmitStatus::Failure.spec_code()),
        }
    }

    /// The state after `outcome`. An outcome that does not answer the
    /// state's action changes nothing.
    pub open spec fn spec_advance(self, outcome: SlotOutcome) -> SlotState {
        match (self, outcome) {
            (SlotState::Idle, SlotOutcome::Granted) => SlotState::Reserved,
            (SlotState::Idle, SlotOutcome::Denied) => SlotState::ReservationDenied,
            (SlotState::Reserved, SlotOutcome::FillOk) => SlotState::Filled,
            (SlotState::Reserved, SlotOutcome::FillFailed(code)) => SlotState::PartialFill(code),
            (SlotState::Filled, SlotOutcome::Released) => SlotState::Submitted,
            (SlotState::PartialFill(code), SlotOutcome::Released) => SlotState::Discarded(code),
            _ => self,
        }
    }

    /// Tells what to do in this state.
    pub fn action(self) -> (a: SlotAction)
        ensures
            a == self.spec_action(),
    {
        match self {
            SlotState::Idle => SlotAction::Reserve,
            SlotState::Reserved => SlotAction::Fill,
            SlotState::Filled => SlotAction::Submit,
            SlotState::PartialFill(_) => SlotAction::Discard,
            SlotState::Submitted => SlotAction::Return(EmitStatus::Success.code()),
            SlotState::Discarded(code) => SlotAction::Return(code),
            SlotState::ReservationDenied => SlotAction::Return(EmitStatus::Failure.code()),
        }
    }

    /// Moves on after the action of this state was carried out.
    pub fn advance(self, outcome: SlotOutcome) -> (next: SlotState)
        ensures
            next == self.spec_advance(outcome),
    {
        match (self, outcome) {
            (SlotState::Idle, SlotOutcome::Granted) => SlotState::Reserved,
            (SlotState::Idle, SlotOutcome::Denied) => SlotState::ReservationDenied,
            (SlotState::Reserved, SlotOutcome::FillOk) => SlotState::Filled,
            (SlotState::Reserved, SlotOutcome::FillFailed(code)) => SlotState::PartialFill(code),
            (SlotState::Filled, SlotOutcome::Released) => SlotState::Submitted,
            (SlotState::PartialFill(code), SlotOutcome::Released) => SlotState::Discarded(code),
            _ => self,
        }
    }
}

/// The outcome that reports how filling went.
pub open spec fn spec_fill_outcome(filled: Result<(), u32>) -> SlotOutcome {
    match filled {
        Ok(_) => SlotOutcome::FillOk,
        Err(code) => SlotOutcome::FillFailed(code),
    }
}

/// Reports how filling went.
pub fn fill_outcome(filled: Result<(), u32>) -> (o: SlotOutcome)
    ensures
        o == spec_fill_outcome(filled),
{
    match filled {
        Ok(_) => SlotOutcome::FillOk,
        Err(code) => SlotOutcome::FillFailed(code),
    }
}

/// The state in which an invocation ends, given whether the reservation was
/// granted and how filling went.
pub open spec fn spec_final_state(granted: bool, filled: Result<(), u32>) -> SlotState {
    if !granted {
        SlotState::ReservationDenied
    } else {
        match filled {
            Ok(_) => SlotState::Submitted,
            Err(code) => SlotState::Discarded(code),
        }
    }
}

/// The status that an invocation returns.
pub open spec fn spec_status(granted: bool, filled: Result<(), u32>) -> u32 {
    if !granted {
        1
    } else {
        match filled {
            Ok(_) => 0,
            Err(code) => code,
        }
    }
}

/// An invocation that starts idle is over after at most three actions, and
/// in exactly one terminal state. Where the reservation was denied, it holds
/// no slot at any point. Where it was granted, the slot is filled and then
/// released exactly once: submitted if and only if every field was read,
/// discarded otherwise. No state after the release holds a slot.
pub proof fn lemma_slot_discipline(granted: bool, filled: Result<(), u32>)
    ensures
        ({
            let first = SlotState::Idle.spec_advance(
                if granted {
                    SlotOutcome::Granted
                } else {
                    SlotOutcome::Denied
                },
            );
            let second = first.spec_advance(spec_fill_outcome(filled));
            let third = second.spec_advance(SlotOutcome::Released);
            &&& SlotState::Idle.spec_action() == SlotAction::Reserve
            &&& !granted ==> first == SlotState::ReservationDenied && first.is_terminal()
            &&& granted ==> {
                &&& first == SlotState::Reserved && first.spec_action() == SlotAction::Fill
                &&& second.holds_slot() && !second.is_terminal()
                &&& second.spec_action() == (if filled is Ok {
                    SlotAction::Submit
                } else {
                    SlotAction::Discard
                })
                &&& third.is_terminal() && !third.holds_slot()
                &&& third == spec_final_state(granted, filled)
            }
            &&& spec_final_state(granted, filled).spec_action() == SlotAction::Return(
                spec_status(granted, filled),
            )
        }),
{
}

/// Whatever is reported in whatever state: a slot comes to be held only by
/// a granted reservation in the idle state; a held slot stays held until it
/// is released, and its release ends the invocation; and a submit or a
/// discard is called for only while a slot is held, a reservation only
/// while idle.
pub proof fn lemma_slot_held_until_released(state: SlotState, outcome: SlotOutcome)
    ensures
        ({
            let next = state.spec_advance(outcome);
            &&& !state.holds_slot() && next.holds_slot() ==> state == SlotState::Idle && outcome
                == SlotOutcome::Granted
            &&& state.holds_slot() ==> next.holds_slot() || next.is_terminal()
            &&& state.holds_slot() && next.is_terminal() ==> outcome == SlotOutcome::Released
            &&& next.is_terminal() ==> !next.holds_slot()
            &&& (state.spec_action() == SlotAction::Submit || state.spec_action()
                == SlotAction::Discard) ==> state.holds_slot()
            &&& state.spec_action() == SlotAction::Reserve ==> state == SlotState::Idle
            &&& state.spec_action() is Return <==> state.is_terminal()
        }),
{
}

/// A terminal state stays as it is, whatever is reported to it.
pub proof fn lemma_terminal_is_final(state: SlotState, outcome: SlotOutcome)
    requires
        state.is_terminal(),
    ensures
        state.spec_advance(outcome) == state,
        state.spec_action() is Return,
{
}

/// A ring buffer and a status after one firing of the probe for `T`: with
/// no room, the buffer is unchanged and the status is one; with room, the
/// record is published if every field was read and the status is zero, and
/// otherwise nothing is published and the status is that of the failed
/// read. No reservation stays open.
pub open spec fn spec_emit<T: HoneyBeeEvent>(ring: RingView, ctx: TraceContext) -> (RingView, u32) {
    if !ring.has_room() {
        (ring, 1)
    } else {
        let filled = T::spec_blank().spec_fill(ctx);
        match filled.1 {
            Ok(_) => (RingView { queue: ring.queue.push(filled.0.spec_encode()), ..ring }, 0),
            Err(code) => (ring, code),
        }
    }
}

/// Runs the probe for `T` once: reserve, fill, then submit or discard.
pub fn emit_event<T: HoneyBeeEvent>(ring: &mut RingBuffer, ctx: &TraceContext) -> (status: u32)
    ensures
        (final(ring)@, status) == spec_emit::<T>(old(ring)@, *ctx),
        final(ring)@.pending == old(ring)@.pending,
        status == spec_status(old(ring)@.has_room(), T::spec_blank().spec_fill(*ctx).1),
{
    let mut state = SlotState::Idle;
    match ring.reserve() {
        Some(slot) => {
            state = state.advance(SlotOutcome::Granted);
            let mut event = T::blank();
            let filled = event.fill(ctx);
            state = state.advance(fill_outcome(filled));
            match state.action() {
                SlotAction::Submit => {
                    ring.submit(slot, event.encode());
                },
                _ => {
                    ring.discard(slot);
                },
            }
            state = state.advance(SlotOutcome::Released);
        },
        None => {
            state = state.advance(SlotOutcome::Denied);
        },
    }
    match state.action() {
        SlotAction::Return(status) => status,
        _ => EmitStatus::Failure.code(),
    }
}

/// A ring buffer after the probe for `T` fired once for each context in
/// turn, and the status of each firing.
pub open spec fn spec_emit_all<T: HoneyBeeEvent>(ring: RingView, ctxs: Seq<TraceContext>) -> (
    RingView,
    Seq<u32>,
)
    decreases ctxs.len(),
{
    if ctxs.len() == 0 {
        (ring, Seq::empty())
    } else {
        let before = spec_emit_all::<T>(ring, ctxs.drop_last());
        let last = spec_emit::<T>(before.0, ctxs.last());
        (last.0, before.1.push(last.1))
    }
}

/// While a buffer has no room, every firing is dropped: however many there
/// are, the buffer stays as it was and each firing returns the status one.
pub proof fn lemma_drop_under_pressure<T: HoneyBeeEvent>(ring: RingView, ctxs: Seq<TraceContext>)
    requires
        !ring.has_room(),
    ensures
        spec_emit_all::<T>(ring, ctxs).0 == ring,
        spec_emit_all::<T>(ring, ctxs).1 == Seq::new(ctxs.len(), |i: int| 1u32),
    decreases ctxs.len(),
{
    if ctxs.len() > 0 {
        lemma_drop_under_pressure::<T>(ring, ctxs.drop_last());
    }
    assert(spec_emit_all::<T>(ring, ctxs).1 =~= Seq::new(ctxs.len(), |i: int| 1u32));
}

/// One firing publishes at most one record, and only a record whose fields
/// were all read: with room and a complete fill the queue grows by the bytes
/// of the filled record, and in every other case it stays as it was. No
/// reservation is left open either way.
pub proof fn lemma_emit_publishes_whole_records<T: HoneyBeeEvent>(ring: RingView, ctx: TraceContext)
    ensures
        ({
            let after = spec_emit::<T>(ring, ctx);
            let filled = T::spec_blank().spec_fill(ctx);
            &&& after.0.pending == ring.pending
            &&& after.0.capacity == ring.capacity
            &&& (ring.has_room() && filled.1 is Ok) ==> after.0.queue == ring.queue.push(
                filled.0.spec_encode(),
            ) && after.1 == 0
            &&& !(ring.has_room() && filled.1 is Ok) ==> after.0.queue == ring.queue
        }),
{
}

/// The header is written on every path through a fill, before any other
/// field and whether or not the fill succeeds.
pub proof fn lemma_metadata_always_populated(
    connection: ConnectionEvent,
    block: BlockIoEvent,
    ctx: TraceContext,
)
    ensures
        connection.spec_fill(ctx).0.metadata == spec_init_base(connection.metadata, ctx.task),
        block.spec_fill(ctx).0.metadata == spec_init_base(block.metadata, ctx.task),
        BlockIoStart(block).spec_fill(ctx).0.0.metadata == spec_init_base(block.metadata, ctx.task),
        BlockIoDone(block).spec_fill(ctx).0.0.metadata == spec_init_base(block.metadata, ctx.task),
{
}

/// A socket address of any family but IPv4 is no error: the fill succeeds
/// with the family recorded and a zeroed destination, and with room in the
/// buffer the record is published, not discarded.
pub proof fn lemma_non_ipv4_passthrough(before: ConnectionEvent, ring: RingView, ctx: TraceContext)
    requires
        spec_connect_target(ctx) is Some,
        spec_connect_target(ctx).unwrap().1 != AF_INET,
    ensures
        before.spec_fill(ctx).1 is Ok,
        before.spec_fill(ctx).0.dest_addr == 0,
        before.spec_fill(ctx).0.dest_port == 0,
        before.spec_fill(ctx).0.address_family == spec_connect_target(ctx).unwrap().1,
        ring.has_room() ==> spec_emit::<ConnectionEvent>(ring, ctx) == (
            RingView {
                queue: ring.queue.push(
                    ConnectionEvent::spec_blank().spec_fill(ctx).0.spec_encode(),
                ),
                ..ring
            },
            0u32,
        ),
{
}

/// A connection record that was filled names a zero destination unless its
/// family is IPv4.
pub proof fn lemma_destination_only_for_ipv4(before: ConnectionEvent, ctx: TraceContext)
    ensures
        ({
            let filled = before.spec_fill(ctx);
            filled.1 is Ok && filled.0.address_family != AF_INET ==> filled.0.dest_addr == 0
                && filled.0.dest_port == 0
        }),
{
}

/// The probes at the start and at the completion of a block request tag
/// what they publish as `Start` and `Done`; they never publish `Unknown`.
pub proof fn lemma_block_io_tags(before: BlockIoEvent, ctx: TraceContext)
    ensures
        BlockIoStart(before).spec_fill(ctx).1 is Ok ==> BlockIoStart(before).spec_fill(
            ctx,
        ).0.0.event_type == 1,
        BlockIoDone(before).spec_fill(ctx).1 is Ok ==> BlockIoDone(before).spec_fill(
            ctx,
        ).0.0.event_type == 2,
        BlockIoStart(before).spec_fill(ctx).1 == before.spec_fill(ctx).1,
        BlockIoDone(before).spec_fill(ctx).1 == before.spec_fill(ctx).1,
{
}

/// The program at the tracepoint of connect calls: one connection record
/// into the ring buffer of network events.
pub fn honeybeepf(ring: &mut RingBuffer, ctx: &TraceContext) -> (status: u32)
    ensures
        (final(ring)@, status) == spec_emit::<ConnectionEvent>(old(ring)@, *ctx),
{
    emit_event::<ConnectionEvent>(ring, ctx)
}

/// The program at the tracepoint where a block request starts: one record
/// tagged `Start` into the ring buffer of block I/O events.
pub fn honeybeepf_block_io_start(ring: &mut RingBuffer, ctx: &TraceContext) -> (status: u32)
    ensures
        (final(ring)@, status) == spec_emit::<BlockIoStart>(old(ring)@, *ctx),
{
    emit_event::<BlockIoStart>(ring, ctx)
}

/// The program at the tracepoint where a block request completes: one
/// record tagged `Done` into the same ring buffer.
pub fn honeybeepf_block_io_done(ring: &mut RingBuffer, ctx: &TraceContext) -> (status: u32)
    ensures
        (final(ring)@, status) == spec_emit::<BlockIoDone>(old(ring)@, *ctx),
{
    emit_event::<BlockIoDone>(ring, ctx)
}

} // verus!
