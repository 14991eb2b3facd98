//! Sequences of control transfers, and the state they lead to.

use vstd::prelude::*;
use crate::consts::DfuRequest;
use crate::state::InternalState;

verus! {

/// One control transfer as the state machine meets it: the request, the
/// size of what came with it, and what the backend answers if it is asked.
pub enum Event {
    /// A transfer from host to device with a payload of `len` bytes.
    Out { req: DfuRequest, len: nat },
    /// A transfer from device to host with a buffer of `capacity` bytes.
    In { req: DfuRequest, write_complete: bool, capacity: nat, read: nat },
}

/// The state that follows `event` in `state`.
pub open spec fn step(state: InternalState, event: Event) -> InternalState {
    match event {
        Event::Out { req, len } => state.control_out(req, len).next,
        Event::In { req, write_complete, capacity, read } => state.control_in(
            req,
            write_complete,
            capacity,
            read,
        ),
    }
}

/// Whether the device takes `event` in `state`: the payload or buffer is
/// one that a slice can hold, and the offset that follows fits in `usize`.
pub open spec fn admits(state: InternalState, event: Event) -> bool {
    match event {
        Event::Out { req, len } => len <= usize::MAX && state.control_out_fits(req, len),
        Event::In { req, capacity, .. } => capacity <= usize::MAX && state.control_in_fits(
            req,
            capacity,
        ),
    }
}

/// The state of a device that started in `Idle` and met `trace`.
pub open spec fn run(trace: Seq<Event>) -> InternalState
    decreases trace.len(),
{
    if trace.len() == 0 {
        InternalState::Idle
    } else {
        step(run(trace.drop_last()), trace.last())
    }
}

/// Whether a device that started in `Idle` takes every event of `trace`.
pub open spec fn admissible(trace: Seq<Event>) -> bool
    decreases trace.len(),
{
    trace.len() == 0 || (admissible(trace.drop_last()) && admits(
        run(trace.drop_last()),
        trace.last(),
    ))
}

/// How many bytes `event` hands to the backend's write in `state`.
pub open spec fn written(state: InternalState, event: Event) -> nat {
    match event {
        Event::Out { req, len } => if state.control_out(req, len).call is Write {
            len
        } else {
            0
        },
        Event::In { .. } => 0,
    }
}

/// The total length of the chunks accepted in the download session that is
/// open after `trace`; 0 where none is open.
pub open spec fn session_bytes(trace: Seq<Event>) -> nat
    decreases trace.len(),
{
    if trace.len() == 0 {
        0
    } else {
        match run(trace) {
            InternalState::DownloadBusy(_) | InternalState::Download(_) => session_bytes(
                trace.drop_last(),
            ) + written(run(trace.drop_last()), trace.last()),
            _ => 0,
        }
    }
}

} // verus!
