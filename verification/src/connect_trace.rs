//! The connect probe that reads the address argument and the family before
//! it reserves a slot, so that an occurrence it cannot read never touches
//! the ring buffer. What it publishes and what it returns are those of the
//! probe that reserves first.

use crate::context::TraceContext;
use crate::emit::{fill_outcome, spec_emit, SlotAction, SlotOutcome, SlotState};
use crate::producer::{
    connect_target, spec_connect_target, EmitStatus, HoneyBeeEvent, READ_FAILED,
};
use crate::ring::{RingBuffer, RingView};
use crate::schema::ConnectionEvent;
use vstd::prelude::*;

verus! {

/// A ring buffer and a result after one firing of the connect probe that
/// reads before it reserves: an unreadable argument or family is an error
/// and reserves nothing; a full buffer then drops the occurrence and is a
/// failure at once; with a slot, an unreadable IPv4 address discards it
/// with an error, and anything else publishes the record.
pub open spec fn spec_try_connect_trace(ring: RingView, ctx: TraceContext) -> (
    RingView,
    Result<(), u32>,
) {
    match spec_connect_target(ctx) {
        None => (ring, Err(READ_FAILED)),
        Some(target) => if !ring.has_room() {
            (ring, Err(EmitStatus::Failure.spec_code()))
        } else {
            let filled = ConnectionEvent::spec_blank().spec_fill(ctx);
            match filled.1 {
                Ok(_) => (
                    RingView { queue: ring.queue.push(filled.0.spec_encode()), ..ring },
                    Ok(()),
                ),
                Err(code) => (ring, Err(code)),
            }
        },
    }
}

/// Runs the connect probe that reads the address argument and the family
/// before it reserves a slot. It succeeds exactly when it publishes a
/// record; a failed read and a full buffer both end it with an error, and
/// no reservation stays open.
pub fn try_connect_trace(ring: &mut RingBuffer, ctx: &TraceContext) -> (r: Result<(), u32>)
    ensures
        (final(ring)@, r) == spec_try_connect_trace(old(ring)@, *ctx),
        final(ring)@.pending == old(ring)@.pending,
        r is Ok <==> final(ring)@.queue.len() == old(ring)@.queue.len() + 1,
{
    let target = match connect_target(ctx) {
        Ok(target) => target,
        Err(code) => {
            return Err(code);
        },
    };
    let mut state = SlotState::Idle;
    match ring.reserve() {
        Some(slot) => {
            state = state.advance(SlotOutcome::Granted);
            let mut event = ConnectionEvent::blank();
            event.init_base(&ctx.task);
            let filled = event.set_destination(ctx, target.0, target.1);
            state = state.advance(fill_outcome(filled));
            match state.action() {
                SlotAction::Submit => {
                    ring.submit(slot, event.encode());
                },
                _ => {
                    ring.discard(slot);
                },
            }
            state = state.advance(SlotOutcome::Released);
        },
        None => {
            state = state.advance(SlotOutcome::Denied);
        },
    }
    match state {
        SlotState::Submitted => Ok(()),
        SlotState::Discarded(code) => Err(code),
        _ => Err(EmitStatus::Failure.code()),
    }
}

/// The status word of a probe that ended with `result`.
pub open spec fn spec_trace_status(result: Result<(), u32>) -> u32 {
    match result {
        Ok(_) => 0,
        Err(code) => code,
    }
}

/// Turns the result of a probe into its status word.
pub fn trace_status(result: Result<(), u32>) -> (status: u32)
    ensures
        status == spec_trace_status(result),
{
    match result {
        Ok(_) => 0,
        Err(code) => code,
    }
}

/// The result that a status word stands for: success for zero, and the
/// status itself as the error for anything else.
pub open spec fn spec_status_result(status: u32) -> Result<(), u32> {
    if status == 0 {
        Ok(())
    } else {
        Err(status)
    }
}

/// Turns a status word back into the result of a probe. A result goes
/// through its status word unchanged, but for an error of zero, which reads
/// back as success.
pub fn status_result(status: u32) -> (r: Result<(), u32>)
    ensures
        r == spec_status_result(status),
        spec_trace_status(r) == status,
{
    if status == 0 {
        Ok(())
    } else {
        Err(status)
    }
}

/// The program at the tracepoint of connect calls: zero where a record was
/// published, and a failure status where a read failed or the buffer was
/// full.
pub fn honeybeepf(ring: &mut RingBuffer, ctx: &TraceContext) -> (status: u32)
    ensures
        final(ring)@ == spec_try_connect_trace(old(ring)@, *ctx).0,
        status == spec_trace_status(spec_try_connect_trace(old(ring)@, *ctx).1),
        (final(ring)@, status) == spec_emit::<ConnectionEvent>(old(ring)@, *ctx),
{
    proof {
        lemma_reading_first_changes_nothing(old(ring)@, *ctx);
    }
    trace_status(try_connect_trace(ring, ctx))
}

/// Reading before reserving changes neither what is published nor the
/// status: on every buffer and every firing the probe leaves the buffer and
/// returns the status that the probe which reserves first would. A full
/// buffer is a failure in both.
pub proof fn lemma_reading_first_changes_nothing(ring: RingView, ctx: TraceContext)
    ensures
        spec_try_connect_trace(ring, ctx).0 == spec_emit::<ConnectionEvent>(ring, ctx).0,
        spec_trace_status(spec_try_connect_trace(ring, ctx).1) == spec_emit::<ConnectionEvent>(
            ring,
            ctx,
        ).1,
        !ring.has_room() ==> spec_try_connect_trace(ring, ctx).1 is Err,
        spec_try_connect_trace(ring, ctx).1 is Err ==> spec_trace_status(
            spec_try_connect_trace(ring, ctx).1,
        ) == 1 && spec_try_connect_trace(ring, ctx).0 == ring,
{
}

} // verus!
