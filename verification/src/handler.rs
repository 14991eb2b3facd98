//! The programming backend that a device drives.

use vstd::prelude::*;
use crate::state::{BackendCall, InternalState};

verus! {

/// One call that changed a backend: a chunk handed to `write_data`, with
/// where it starts and what it holds, or a `complete_download`.
pub enum Invocation {
    Write { offset: usize, data: Seq<u8> },
    CompleteDownload,
}

/// Hardware-specific programming, implemented by the firmware that uses
/// this library (typically writing to flash).
///
/// No backend is verified here. What the device's contracts say of a
/// backend, they say through `calls`, and so of every backend whose
/// `write_data` and `complete_download` keep that record as stated below.
pub trait DfuHandler {
    /// Every `write_data` and `complete_download` made on this backend so
    /// far, oldest first.
    ///
    /// The body given here only spares a backend written without proofs
    /// from naming it; nothing is known of `calls` on a backend in general,
    /// and a verified backend overrides it with the record it keeps.
    open spec fn calls(&self) -> Seq<Invocation> {
        Seq::empty()
    }

    /// Accepts `data` for programming at `offset`. Should not block for an
    /// extended period of time.
    fn write_data(&mut self, offset: usize, data: &[u8])
        ensures
            final(self).calls() == old(self).calls().push(
                (Invocation::Write { offset, data: data@ }),
            ),
    ;

    /// Whether the previous write is done.
    fn is_write_complete(&self) -> (done: bool)
        default_ensures
            done,
    {
        true
    }

    /// Finalizes a download; the manifest stage of USB DFU.
    fn complete_download(&mut self)
        ensures
            final(self).calls() == old(self).calls().push(Invocation::CompleteDownload),
    ;

    /// Whether `upload` at `offset`, on a buffer holding `before`, may
    /// leave it holding `after` and return `read`.
    ///
    /// As with `calls`, the body given here is for a backend written
    /// without proofs; a verified backend says here what it reads.
    open spec fn reads(&self, offset: usize, before: Seq<u8>, after: Seq<u8>, read: usize) -> bool {
        true
    }

    /// Reads bytes into `buffer` from `offset` and returns how many were read.
    ///
    /// Nothing is asked of the count or of the bytes: a slice keeps its
    /// length whatever is written through it, and the rest is what the
    /// backend itself says of its reads.
    fn upload(&self, buffer: &mut [u8], offset: usize) -> (read: usize)
        ensures
            final(buffer)@.len() == old(buffer)@.len(),
            self.reads(offset, old(buffer)@, final(buffer)@, read),
    ;
}

/// Whether `after` is the backend `before` once `call` has been made on it,
/// with `data` as the payload of a write.
pub open spec fn served<H: DfuHandler + ?Sized>(
    before: &H,
    after: &H,
    call: BackendCall,
    data: Seq<u8>,
) -> bool {
    match call {
        BackendCall::Nothing => after == before,
        BackendCall::Write { offset } => after.calls() == before.calls().push(
            (Invocation::Write { offset, data }),
        ),
        BackendCall::Complete => after.calls() == before.calls().push(
            Invocation::CompleteDownload,
        ),
    }
}

/// Whether `read` and the buffer's contents are an answer of `backend` to
/// an `Upload` request met in `state`: where the state reads the backend, it
/// reads at the offset of the upload session.
pub open spec fn upload_served<H: DfuHandler + ?Sized>(
    backend: &H,
    state: InternalState,
    buffer_before: Seq<u8>,
    buffer_after: Seq<u8>,
    read: usize,
) -> bool {
    state matches InternalState::Upload { offset } ==> backend.reads(
        offset,
        buffer_before,
        buffer_after,
        read,
    )
}

} // verus!
