//! The DFU device: one internal state, driven by control transfers, in
//! front of a programming backend.

use vstd::prelude::*;
use crate::consts::{DfuRequest, State};
use crate::handler::{served, upload_served, DfuHandler};
use crate::laws::lemma_offset_is_session_total;
use crate::state::{status_report, BackendCall, DownloadState, InternalState, UploadStep};
use crate::trace::{admissible, run, session_bytes, Event};

verus! {

/// The poll timeout reported to the host, in milliseconds.
pub const POLL_TIMEOUT_MS: u32 = 250;

/// Where a device stands: its state, and the transfers that led to it.
struct Progress {
    state: InternalState,
    history: Ghost<Seq<Event>>,
}

impl Progress {
    /// The state is the one that the history leads to from `Idle`.
    #[verifier::type_invariant]
    spec fn reached(&self) -> bool {
        &&& admissible(self.history@)
        &&& self.state == run(self.history@)
    }
}

/// USB device in DFU mode.
pub struct UsbDfuDevice<'a, H: DfuHandler + ?Sized> {
    progress: Progress,
    handler: &'a mut H,
}

/// The three bytes of `value` as a 24-bit little-endian number.
fn le24(value: u32) -> (b: (u8, u8, u8))
    requires
        value < 0x100_0000,
    ensures
        b.0 + 256 * b.1 + 65536 * b.2 == value,
{
    ((value % 256) as u8, ((value / 256) % 256) as u8, (value / 65536) as u8)
}

/// The bytes of a response, or `None` where the request failed.
pub open spec fn sent(response: Result<&[u8], ()>) -> Option<Seq<u8>> {
    match response {
        Ok(bytes) => Some(bytes@),
        Err(_) => None,
    }
}

/// Whether a control-in request `req`, met in state `before` with a
/// buffer holding `buffer_before`, ends in state `after` with the buffer
/// holding `buffer_after` and `reply` sent, if the backend answers
/// `write_complete` and `read` where it is asked.
pub open spec fn control_in_outcome(
    before: InternalState,
    req: DfuRequest,
    write_complete: bool,
    read: usize,
    after: InternalState,
    buffer_before: Seq<u8>,
    buffer_after: Seq<u8>,
    reply: Option<Seq<u8>>,
) -> bool {
    &&& after == before.control_in(req, write_complete, buffer_before.len(), read as nat)
    &&& buffer_after.len() == buffer_before.len()
    &&& match req {
        DfuRequest::GetState => {
            &&& reply == Some(seq![before.protocol_state().code()])
            &&& buffer_after == reply->0 + buffer_before.skip(1)
        },
        DfuRequest::GetStatus => {
            &&& reply == Some(
                status_report(before.status_poll(write_complete).1, after.protocol_state()),
            )
            &&& buffer_after == reply->0 + buffer_before.skip(6)
        },
        DfuRequest::Upload => {
            &&& !before.reads_backend() ==> buffer_after == buffer_before
            &&& match before.upload(buffer_before.len(), read as nat).reply {
                Some(n) => reply == Some(buffer_after.subrange(0, n as int)),
                None => reply is None,
            }
        },
        DfuRequest::ClrStatus | DfuRequest::Detach => {
            &&& reply == Some(Seq::<u8>::empty())
            &&& buffer_after == buffer_before
        },
        DfuRequest::Dnload | DfuRequest::Abort => {
            &&& reply is None
            &&& buffer_after == buffer_before
        },
    }
}

impl<'a, H: DfuHandler + ?Sized> UsbDfuDevice<'a, H> {
    /// The device's current internal state.
    pub closed spec fn state(&self) -> InternalState {
        self.progress.state
    }

    /// The control transfers that the device has handled, oldest first,
    /// each with what the backend answered where it was asked.
    pub closed spec fn history(&self) -> Seq<Event> {
        self.progress.history@
    }

    /// Whether the device's state is the one that its history leads to
    /// from `Idle`. It always is.
    pub open spec fn reachable(&self) -> bool {
        &&& admissible(self.history())
        &&& self.state() == run(self.history())
    }

    /// The programming backend as it currently is.
    pub closed spec fn backend(&self) -> &H {
        &*self.handler
    }

    /// A device in `Idle` in front of `handler`.
    pub fn new(handler: &'a mut H) -> (dev: Self)
        ensures
            dev.state() == InternalState::Idle,
            dev.history() == Seq::<Event>::empty(),
            dev.reachable(),
            dev.backend() == &*old(handler),
    {
        UsbDfuDevice {
            progress: Progress { state: InternalState::Idle, history: Ghost(Seq::empty()) },
            handler,
        }
    }

    /// Applies the rule shared by every download chunk to a session that
    /// has accepted `download.offset` bytes, and makes the backend call it
    /// asks for. The device's own state is left to the caller.
    fn handle_download(&mut self, download: DownloadState, buf: &[u8]) -> (r: (
        InternalState,
        Result<(), ()>,
    ))
        requires
            download.offset + buf@.len() <= usize::MAX,
        ensures
            r.0 == InternalState::download_chunk(download.offset, buf@.len()).next,
            r.1 is Ok,
            final(self).state() == old(self).state(),
            final(self).history() == old(self).history(),
            served(
                old(self).backend(),
                final(self).backend(),
                InternalState::download_chunk(download.offset, buf@.len()).call,
                buf@,
            ),
    {
        let DownloadState { offset } = download;
        if buf.len() == 0 {
            if offset > 0 {
                self.handler.complete_download();
            }
            return (InternalState::Idle, Ok(()));
        }
        self.handler.write_data(offset, buf);
        (InternalState::DownloadBusy(DownloadState { offset: offset + buf.len() }), Ok(()))
    }

    /// Handles a control transfer from host to device.
    ///
    /// The request is accepted or fails, and the state moves on, as
    /// `control_out` says; the backend is called exactly as that outcome
    /// asks. A chunk is written at the total length of the chunks that the
    /// open session accepted before it.
    ///
    /// The one demand is that of the machine: a chunk that continues a
    /// session must leave an offset that fits in `usize`.
    pub fn handle_control_out(&mut self, req: DfuRequest, data: &[u8]) -> (r: Result<(), ()>)
        requires
            old(self).state().control_out_fits(req, data@.len()),
        ensures
            final(self).state() == old(self).state().control_out(req, data@.len()).next,
            final(self).history() == old(self).history().push(
                (Event::Out { req, len: data@.len() }),
            ),
            final(self).reachable(),
            r is Ok <==> old(self).state().control_out(req, data@.len()).accepted,
            served(
                old(self).backend(),
                final(self).backend(),
                old(self).state().control_out(req, data@.len()).call,
                data@,
            ),
            old(self).state().control_out(req, data@.len()).call matches BackendCall::Write {
                offset,
            } ==> offset == session_bytes(old(self).history()),
    {
        assert(data@.len() <= usize::MAX) by {
            vstd::slice::axiom_spec_len(data);
        }
        proof {
            use_type_invariant(&self.progress);
            lemma_offset_is_session_total(self.progress.history@);
        }
        let ghost history = self.progress.history@.push(Event::Out { req, len: data@.len() });
        let (state, response) = match self.progress.state {
            InternalState::Idle => match req {
                DfuRequest::Dnload => self.handle_download(DownloadState { offset: 0 }, data),
                DfuRequest::Abort => (InternalState::Idle, Ok(())),
                _ => (InternalState::Idle, Err(())),
            },
            InternalState::Download(download_state) => match req {
                DfuRequest::Dnload => self.handle_download(download_state, data),
                DfuRequest::Abort => (InternalState::Idle, Ok(())),
                _ => (InternalState::Error, Err(())),
            },
            state => (state, Err(())),
        };
        proof {
            assert(history.drop_last() == old(self).history());
        }
        self.progress = Progress { state, history: Ghost(history) };
        response
    }

    /// Handles a control transfer from device to host. The response is
    /// built at the front of `buf` and returned.
    ///
    /// The backend is asked only where the state calls for it: whether its
    /// write is complete, for `GetStatus` in `DownloadBusy`; to read, for
    /// `Upload` in an upload session. The outcome is stated for whatever it
    /// answers.
    pub fn handle_control_in<'b>(&mut self, req: DfuRequest, buf: &'b mut [u8]) -> (r: Result<
        &'b [u8],
        (),
    >)
        requires
            req == DfuRequest::GetState ==> old(buf)@.len() >= 1,
            req == DfuRequest::GetStatus ==> old(buf)@.len() >= 6,
            old(self).state().control_in_fits(req, old(buf)@.len()),
        ensures
            final(self).backend() == old(self).backend(),
            final(self).reachable(),
            exists|write_complete: bool, read: usize|
                final(self).history() == old(self).history().push(
                    (Event::In {
                        req,
                        write_complete,
                        capacity: old(buf)@.len(),
                        read: read as nat,
                    }),
                ) && #[trigger] control_in_outcome(
                    old(self).state(),
                    req,
                    write_complete,
                    read,
                    final(self).state(),
                    old(buf)@,
                    final(buf)@,
                    sent(r),
                ) && (req == DfuRequest::Upload ==> upload_served(
                    old(self).backend(),
                    old(self).state(),
                    old(buf)@,
                    final(buf)@,
                    read,
                )),
    {
        proof {
            use_type_invariant(&self.progress);
            vstd::slice::axiom_spec_len(buf);
        }
        let ghost mut write_complete = true;
        let ghost mut read = 0usize;
        let mut state = self.progress.state;
        let reply_len = match req {
            DfuRequest::GetState => {
                buf[0] = Into::<State>::into(&state).to_u8();
                Some(1)
            },
            DfuRequest::GetStatus => {
                let done = match state {
                    InternalState::DownloadBusy(_) => self.handler.is_write_complete(),
                    _ => true,
                };
                proof {
                    write_complete = done;
                }
                let (next_state, status) = state.poll_status(done);
                state = next_state;
                let timeout = le24(POLL_TIMEOUT_MS);
                buf[0] = status.to_u8();
                buf[1] = timeout.0;
                buf[2] = timeout.1;
                buf[3] = timeout.2;
                buf[4] = Into::<State>::into(&state).to_u8();
                buf[5] = 0;
                Some(6)
            },
            DfuRequest::Upload => {
                let step = match state {
                    InternalState::Idle => UploadStep {
                        next: InternalState::Upload { offset: 0 },
                        reply: Some(0),
                    },
                    InternalState::Upload { offset } => {
                        let capacity = buf.len();
                        let count = self.handler.upload(buf, offset);
                        proof {
                            read = count;
                        }
                        InternalState::finish_upload(offset, capacity, count)
                    },
                    InternalState::Download(_) => UploadStep {
                        next: InternalState::Error,
                        reply: None,
                    },
                    other => UploadStep { next: other, reply: None },
                };
                state = step.next;
                step.reply
            },
            DfuRequest::ClrStatus => {
                state = match state {
                    InternalState::Error => InternalState::Idle,
                    other => other,
                };
                Some(0)
            },
            DfuRequest::Detach => Some(0),
            DfuRequest::Dnload | DfuRequest::Abort => {
                state = match state {
                    InternalState::Download(_) => InternalState::Error,
                    other => other,
                };
                None
            },
        };
        let ghost history = self.progress.history@.push(
            Event::In { req, write_complete, capacity: old(buf)@.len(), read: read as nat },
        );
        proof {
            assert(history.drop_last() == old(self).history());
        }
        self.progress = Progress { state, history: Ghost(history) };
        let out: &'b [u8] = buf;
        let response = match reply_len {
            Some(n) => Ok(&out[0..n]),
            None => Err(()),
        };
        proof {
            let before = old(self).state();
            match req {
                DfuRequest::GetState => {
                    let reply = seq![before.protocol_state().code()];
                    assert(response->Ok_0@ =~= reply);
                    assert(out@ =~= reply + old(buf)@.skip(1));
                },
                DfuRequest::GetStatus => {
                    let reply = status_report(
                        before.status_poll(write_complete).1,
                        state.protocol_state(),
                    );
                    assert(response->Ok_0@ =~= reply);
                    assert(out@ =~= reply + old(buf)@.skip(6));
                },
                DfuRequest::ClrStatus | DfuRequest::Detach => {
                    assert(response->Ok_0@ =~= Seq::<u8>::empty());
                },
                _ => {},
            }
            assert(control_in_outcome(
                before,
                req,
                write_complete,
                read,
                state,
                old(buf)@,
                out@,
                sent(response),
            ));
        }
        response
    }
}

} // verus!
