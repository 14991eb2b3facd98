//! The device's internal state and its transition rules, as pure functions
//! of the state, the request and what the backend reported.

use vstd::prelude::*;
use vstd::std_specs::convert::FromSpecImpl;
use crate::consts::{DfuRequest, DfuStatus, State};

verus! {

/// Offset bookkeeping of a download session: how many bytes the session has
/// accepted so far.
#[derive(Copy, Clone, PartialEq, Eq, Structural, Debug)]
pub struct DownloadState {
    pub offset: usize,
}

/// Internal state used to keep track of the DFU state.
#[derive(Copy, Clone, PartialEq, Eq, Structural, Debug)]
pub enum InternalState {
    /// No transfer in progress.
    Idle,
    /// A backend write is outstanding for bytes ending at the offset.
    DownloadBusy(DownloadState),
    /// The backend write is complete; ready for the next chunk or the end
    /// of the session.
    Download(DownloadState),
    /// A host-initiated read-back session is in progress.
    Upload { offset: usize },
    /// Sticky failure state.
    Error,
}

impl InternalState {
    /// The state the host sees.
    pub open spec fn protocol_state(self) -> State {
        match self {
            InternalState::Idle => State::DfuIdle,
            InternalState::DownloadBusy(_) => State::DownloadBusy,
            InternalState::Download(_) => State::DownloadIdle,
            InternalState::Upload { .. } => State::UploadIdle,
            InternalState::Error => State::Error,
        }
    }
}

impl<'a> From<&'a InternalState> for State {
    fn from(state: &'a InternalState) -> (s: State) {
        match state {
            InternalState::Idle => State::DfuIdle,
            InternalState::DownloadBusy(_) => State::DownloadBusy,
            InternalState::Download(_) => State::DownloadIdle,
            InternalState::Upload { .. } => State::UploadIdle,
            InternalState::Error => State::Error,
        }
    }
}

impl<'a> FromSpecImpl<&'a InternalState> for State {
    open spec fn obeys_from_spec() -> bool {
        true
    }

    open spec fn from_spec(state: &'a InternalState) -> State {
        state.protocol_state()
    }
}

/// What a control-out request asks of the programming backend.
#[derive(Copy, Clone, PartialEq, Eq, Structural, Debug)]
pub enum BackendCall {
    /// Nothing.
    Nothing,
    /// Write the request's payload at this offset.
    Write { offset: usize },
    /// Finalize the image that the session has received.
    Complete,
}

/// The outcome of a control-out request: the state that follows, whether
/// the request was accepted, and what the backend is asked to do.
#[derive(Copy, Clone, PartialEq, Eq, Structural, Debug)]
pub struct OutStep {
    pub next: InternalState,
    pub accepted: bool,
    pub call: BackendCall,
}

/// The outcome of an `Upload` control-in request: the state that follows
/// and, if the request was accepted, how many bytes of the buffer are sent.
#[derive(Copy, Clone, PartialEq, Eq, Structural, Debug)]
pub struct UploadStep {
    pub next: InternalState,
    pub reply: Option<usize>,
}

impl InternalState {
    /// The rule shared by every download chunk, for a session that has
    /// accepted `offset` bytes and receives a payload of `len` bytes.
    ///
    /// An empty payload ends the session: the device returns to `Idle`, and
    /// the image is finalized if the session accepted any data. A non-empty
    /// payload is written at `offset` and the session advances past it.
    pub open spec fn download_chunk(offset: usize, len: nat) -> OutStep {
        if len == 0 {
            OutStep {
                next: InternalState::Idle,
                accepted: true,
                call: if offset > 0 {
                    BackendCall::Complete
                } else {
                    BackendCall::Nothing
                },
            }
        } else {
            OutStep {
                next: InternalState::DownloadBusy(DownloadState { offset: (offset + len) as usize }),
                accepted: true,
                call: BackendCall::Write { offset },
            }
        }
    }

    /// The outcome of a control-out request with a payload of `len` bytes.
    pub open spec fn control_out(self, req: DfuRequest, len: nat) -> OutStep {
        match self {
            InternalState::Idle => match req {
                DfuRequest::Dnload => Self::download_chunk(0, len),
                DfuRequest::Abort => OutStep {
                    next: InternalState::Idle,
                    accepted: true,
                    call: BackendCall::Nothing,
                },
                _ => OutStep {
                    next: InternalState::Idle,
                    accepted: false,
                    call: BackendCall::Nothing,
                },
            },
            InternalState::Download(d) => match req {
                DfuRequest::Dnload => Self::download_chunk(d.offset, len),
                DfuRequest::Abort => OutStep {
                    next: InternalState::Idle,
                    accepted: true,
                    call: BackendCall::Nothing,
                },
                _ => OutStep {
                    next: InternalState::Error,
                    accepted: false,
                    call: BackendCall::Nothing,
                },
            },
            _ => OutStep { next: self, accepted: false, call: BackendCall::Nothing },
        }
    }

    /// Whether the offset that follows a control-out request fits in `usize`.
    pub open spec fn control_out_fits(self, req: DfuRequest, len: nat) -> bool {
        self matches InternalState::Download(d) ==> (req == DfuRequest::Dnload ==> d.offset + len
            <= usize::MAX)
    }

    /// The state and status that follow a `GetStatus` request, given what
    /// the backend says of its last write.
    pub open spec fn status_poll(self, write_complete: bool) -> (InternalState, DfuStatus) {
        match self {
            InternalState::DownloadBusy(d) => if write_complete {
                (InternalState::Download(d), DfuStatus::OK)
            } else {
                (InternalState::DownloadBusy(d), DfuStatus::OK)
            },
            InternalState::Error => (InternalState::Error, DfuStatus::ErrUnknown),
            _ => (self, DfuStatus::OK),
        }
    }

    /// The state that follows a `ClrStatus` request.
    pub open spec fn status_cleared(self) -> InternalState {
        match self {
            InternalState::Error => InternalState::Idle,
            _ => self,
        }
    }

    /// The state that follows a request that the current state does not
    /// admit: a download session is abandoned in `Error`, every other state
    /// stays as it is.
    pub open spec fn violation(self) -> InternalState {
        match self {
            InternalState::Download(_) => InternalState::Error,
            _ => self,
        }
    }

    /// The state that follows a control-in request with a buffer of
    /// `capacity` bytes, given what the backend answers where it is asked:
    /// `write_complete` for its last write, `read` for the bytes it read.
    pub open spec fn control_in(
        self,
        req: DfuRequest,
        write_complete: bool,
        capacity: nat,
        read: nat,
    ) -> InternalState {
        match req {
            DfuRequest::GetState | DfuRequest::Detach => self,
            DfuRequest::GetStatus => self.status_poll(write_complete).0,
            DfuRequest::Upload => self.upload(capacity, read).next,
            DfuRequest::ClrStatus => self.status_cleared(),
            DfuRequest::Dnload | DfuRequest::Abort => self.violation(),
        }
    }

    /// Whether the offset that follows a control-in request fits in `usize`.
    pub open spec fn control_in_fits(self, req: DfuRequest, capacity: nat) -> bool {
        req == DfuRequest::Upload ==> self.upload_fits(capacity)
    }

    /// Whether this state hands an `Upload` request on to the backend.
    pub open spec fn reads_backend(self) -> bool {
        self is Upload
    }

    /// The outcome of an `Upload` request with a buffer of `capacity`
    /// bytes, given the count `read` that the backend returned (which
    /// matters only in a state that reads the backend).
    ///
    /// From `Idle` the request opens a session at offset 0 and sends
    /// nothing. In a session, a full buffer advances the offset; a short or
    /// empty read ends the session; a count beyond the buffer is a backend
    /// fault and ends in `Error`. Elsewhere the request is a violation.
    pub open spec fn upload(self, capacity: nat, read: nat) -> UploadStep {
        match self {
            InternalState::Idle => UploadStep {
                next: InternalState::Upload { offset: 0 },
                reply: Some(0usize),
            },
            InternalState::Upload { offset } => if read > capacity {
                UploadStep { next: InternalState::Error, reply: None }
            } else if read == 0 || read < capacity {
                UploadStep { next: InternalState::Idle, reply: Some(read as usize) }
            } else {
                UploadStep {
                    next: InternalState::Upload { offset: (offset + read) as usize },
                    reply: Some(read as usize),
                }
            },
            _ => UploadStep { next: self.violation(), reply: None },
        }
    }

    /// Whether the offset that follows an `Upload` request fits in `usize`.
    pub open spec fn upload_fits(self, capacity: nat) -> bool {
        self matches InternalState::Upload { offset } ==> offset + capacity <= usize::MAX
    }

    /// Applies `GetStatus` to the state, given the backend's answer.
    pub fn poll_status(self, write_complete: bool) -> (r: (InternalState, DfuStatus))
        ensures
            r == self.status_poll(write_complete),
    {
        match self {
            InternalState::DownloadBusy(d) => if write_complete {
                (InternalState::Download(d), DfuStatus::OK)
            } else {
                (InternalState::DownloadBusy(d), DfuStatus::OK)
            },
            InternalState::Error => (InternalState::Error, DfuStatus::ErrUnknown),
            state => (state, DfuStatus::OK),
        }
    }

    /// Applies the count that the backend returned for an `Upload` request
    /// in a session at `offset`, with a buffer of `capacity` bytes.
    pub fn finish_upload(offset: usize, capacity: usize, read: usize) -> (r: UploadStep)
        requires
            offset + capacity <= usize::MAX,
        ensures
            r == (InternalState::Upload { offset }).upload(capacity as nat, read as nat),
    {
        if read > capacity {
            UploadStep { next: InternalState::Error, reply: None }
        } else if read == 0 || read < capacity {
            UploadStep { next: InternalState::Idle, reply: Some(read) }
        } else {
            UploadStep { next: InternalState::Upload { offset: offset + read }, reply: Some(read) }
        }
    }
}

/// The six bytes of a `GetStatus` response: the status, the poll timeout of
/// 250 ms as a 24-bit little-endian number, the state, and the index of the
/// status string, which is always 0.
pub open spec fn status_report(status: DfuStatus, state: State) -> Seq<u8> {
    seq![status.code(), 250u8, 0u8, 0u8, state.code(), 0u8]
}

} // verus!
