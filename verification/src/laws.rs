//! What holds of the state machine over every request and over whole
//! sequences of requests.

use vstd::prelude::*;
use crate::consts::{DfuRequest, DfuStatus};
use crate::device::control_in_outcome;
use crate::state::{BackendCall, DownloadState, InternalState, OutStep};
use crate::trace::{admissible, admits, run, session_bytes, step, Event};

verus! {

/// In a download session the offset is the total length of the chunks that
/// the session has accepted, and no session is open at offset 0.
pub proof fn lemma_offset_is_session_total(trace: Seq<Event>)
    requires
        admissible(trace),
    ensures
        match run(trace) {
            InternalState::DownloadBusy(d) | InternalState::Download(d) => {
                &&& d.offset == session_bytes(trace)
                &&& d.offset > 0
            },
            _ => session_bytes(trace) == 0,
        },
    decreases trace.len(),
{
    if trace.len() > 0 {
        lemma_offset_is_session_total(trace.drop_last());
    }
}

/// Whatever requests came before, the offset handed to the backend's write
/// is the total length of the chunks accepted before it in the session.
pub proof fn lemma_write_offset_is_sum_of_accepted(trace: Seq<Event>, len: nat)
    requires
        admissible(trace),
    ensures
        run(trace).control_out(DfuRequest::Dnload, len).call matches BackendCall::Write { offset }
            ==> offset == session_bytes(trace),
{
    lemma_offset_is_session_total(trace);
}

/// The requests of a plain download of chunks of the lengths `lens`: each
/// chunk is followed by a `GetStatus` that finds its write complete.
pub open spec fn plain_download(lens: Seq<nat>) -> Seq<Event>
    decreases lens.len(),
{
    if lens.len() == 0 {
        Seq::empty()
    } else {
        plain_download(lens.drop_last()).push(
            Event::Out { req: DfuRequest::Dnload, len: lens.last() },
        ).push(
            Event::In { req: DfuRequest::GetStatus, write_complete: true, capacity: 6, read: 0 },
        )
    }
}

/// The sum of `lens`.
pub open spec fn total(lens: Seq<nat>) -> nat
    decreases lens.len(),
{
    if lens.len() == 0 {
        0
    } else {
        total(lens.drop_last()) + lens.last()
    }
}

/// For any sequence of non-empty chunks whose lengths add up to no more
/// than `usize::MAX`, downloaded one after another: the device takes every
/// chunk, the session's total is the sum of their lengths, the device ends
/// in `Download` at that sum, and so has the next chunk written there.
pub proof fn lemma_chunks_are_written_back_to_back(lens: Seq<nat>, next: nat)
    requires
        forall|i: int| 0 <= i < lens.len() ==> lens[i] > 0,
        total(lens) + next <= usize::MAX,
        next > 0,
    ensures
        admissible(plain_download(lens)),
        session_bytes(plain_download(lens)) == total(lens),
        run(plain_download(lens)) == if lens.len() == 0 {
            InternalState::Idle
        } else {
            InternalState::Download(DownloadState { offset: total(lens) as usize })
        },
        run(plain_download(lens)).control_out(DfuRequest::Dnload, next) == (OutStep {
            next: InternalState::DownloadBusy(
                DownloadState { offset: (total(lens) + next) as usize },
            ),
            accepted: true,
            call: BackendCall::Write { offset: total(lens) as usize },
        }),
    decreases lens.len(),
{
    if lens.len() > 0 {
        let front = lens.drop_last();
        lemma_chunks_are_written_back_to_back(front, lens.last());
        let chunk = Event::Out { req: DfuRequest::Dnload, len: lens.last() };
        let poll = Event::In {
            req: DfuRequest::GetStatus,
            write_complete: true,
            capacity: 6,
            read: 0,
        };
        let trace = plain_download(lens);
        assert(trace.drop_last() == plain_download(front).push(chunk));
        assert(trace.drop_last().drop_last() == plain_download(front));
        assert(trace.last() == poll);
        assert(trace.drop_last().last() == chunk);
        assert(admissible(trace.drop_last()));
    }
    lemma_offset_is_session_total(plain_download(lens));
}

/// How many bytes `event` sends to the host from an upload session in
/// `state`.
pub open spec fn uploaded(state: InternalState, event: Event) -> nat {
    match event {
        Event::In { req, capacity, read, .. } => if req == DfuRequest::Upload && state is Upload {
            match state.upload(capacity, read).reply {
                Some(n) => n as nat,
                None => 0,
            }
        } else {
            0
        },
        Event::Out { .. } => 0,
    }
}

/// The number of bytes sent in the upload session that is open after
/// `trace`; 0 where none is open.
pub open spec fn upload_bytes(trace: Seq<Event>) -> nat
    decreases trace.len(),
{
    if trace.len() == 0 {
        0
    } else {
        match run(trace) {
            InternalState::Upload { .. } => upload_bytes(trace.drop_last()) + uploaded(
                run(trace.drop_last()),
                trace.last(),
            ),
            _ => 0,
        }
    }
}

/// In an upload session the offset is the number of bytes that the session
/// has sent.
pub proof fn lemma_upload_offset_is_bytes_sent(trace: Seq<Event>)
    requires
        admissible(trace),
    ensures
        match run(trace) {
            InternalState::Upload { offset } => offset == upload_bytes(trace),
            _ => upload_bytes(trace) == 0,
        },
    decreases trace.len(),
{
    if trace.len() > 0 {
        lemma_upload_offset_is_bytes_sent(trace.drop_last());
    }
}

/// The image is finalized exactly by an empty chunk that ends a session
/// which has accepted data.
pub proof fn lemma_complete_ends_a_session(trace: Seq<Event>, req: DfuRequest, len: nat)
    requires
        admissible(trace),
    ensures
        run(trace).control_out(req, len).call is Complete <==> {
            &&& run(trace) is Download
            &&& req == DfuRequest::Dnload
            &&& len == 0
        },
{
    lemma_offset_is_session_total(trace);
}

/// Within a download session the offset never decreases.
pub proof fn lemma_offset_never_decreases(state: InternalState, event: Event)
    requires
        admits(state, event),
    ensures
        match (state, step(state, event)) {
            (
                InternalState::DownloadBusy(d) | InternalState::Download(d),
                InternalState::DownloadBusy(e) | InternalState::Download(e),
            ) => d.offset <= e.offset,
            _ => true,
        },
{
}

/// `DownloadBusy` gives way to `Download` only by a `GetStatus` for which
/// the backend reports its write complete, and to nothing else.
pub proof fn lemma_busy_until_write_complete(d: DownloadState, event: Event)
    ensures
        step(InternalState::DownloadBusy(d), event) == InternalState::Download(d) || step(
            InternalState::DownloadBusy(d),
            event,
        ) == InternalState::DownloadBusy(d),
        step(InternalState::DownloadBusy(d), event) is Download <==> (event matches Event::In {
            req,
            write_complete,
            ..
        } && req == DfuRequest::GetStatus && write_complete),
{
}

/// `Error` is sticky: only `ClrStatus` on a control-in leaves it, for `Idle`.
pub proof fn lemma_error_is_sticky(event: Event)
    ensures
        step(InternalState::Error, event) == if event matches Event::In { req, .. } && req
            == DfuRequest::ClrStatus {
            InternalState::Idle
        } else {
            InternalState::Error
        },
{
}

/// In `Idle` every control-out request but `Dnload` and `Abort` fails,
/// leaves the device in `Idle` and the backend alone.
pub proof fn lemma_idle_rejects_other_requests(req: DfuRequest, len: nat)
    requires
        req != DfuRequest::Dnload,
        req != DfuRequest::Abort,
    ensures
        InternalState::Idle.control_out(req, len) == (OutStep {
            next: InternalState::Idle,
            accepted: false,
            call: BackendCall::Nothing,
        }),
{
}

/// A first chunk is written at offset 0 and leaves the device busy at the
/// chunk's length; an empty one leaves it in `Idle` and the backend alone.
pub proof fn lemma_first_chunk(len: nat)
    requires
        len <= usize::MAX,
    ensures
        InternalState::Idle.control_out(DfuRequest::Dnload, len) == if len == 0 {
            OutStep { next: InternalState::Idle, accepted: true, call: BackendCall::Nothing }
        } else {
            OutStep {
                next: InternalState::DownloadBusy(DownloadState { offset: len as usize }),
                accepted: true,
                call: BackendCall::Write { offset: 0 },
            }
        },
{
}

/// `Abort` ends a download session in `Idle`, without a backend call.
pub proof fn lemma_abort_ends_download(d: DownloadState, len: nat)
    ensures
        InternalState::Download(d).control_out(DfuRequest::Abort, len) == (OutStep {
            next: InternalState::Idle,
            accepted: true,
            call: BackendCall::Nothing,
        }),
{
}

/// `GetStatus` while a write is outstanding reports `OK`, and moves on to
/// `Download` exactly if the backend reports the write complete.
pub proof fn lemma_status_while_busy(d: DownloadState, write_complete: bool)
    ensures
        InternalState::DownloadBusy(d).status_poll(write_complete) == if write_complete {
            (InternalState::Download(d), DfuStatus::OK)
        } else {
            (InternalState::DownloadBusy(d), DfuStatus::OK)
        },
{
}

/// `GetStatus` in `Error` reports `ErrUnknown` and stays in `Error`.
pub proof fn lemma_status_in_error(write_complete: bool)
    ensures
        InternalState::Error.status_poll(write_complete) == (
            InternalState::Error,
            DfuStatus::ErrUnknown,
        ),
{
}

/// `GetState` answers with the one byte of the projected state, whatever
/// the state is, and leaves the state and the rest of the buffer alone.
pub proof fn lemma_get_state_reports_projection(
    before: InternalState,
    write_complete: bool,
    read: usize,
    after: InternalState,
    buffer_before: Seq<u8>,
    buffer_after: Seq<u8>,
    reply: Option<Seq<u8>>,
)
    requires
        buffer_before.len() >= 1,
        control_in_outcome(
            before,
            DfuRequest::GetState,
            write_complete,
            read,
            after,
            buffer_before,
            buffer_after,
            reply,
        ),
    ensures
        after == before,
        reply == Some(seq![before.protocol_state().code()]),
        buffer_after == buffer_before.update(0, before.protocol_state().code()),
{
    assert(buffer_after =~= buffer_before.update(0, before.protocol_state().code()));
}

} // verus!
