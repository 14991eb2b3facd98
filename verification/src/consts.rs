//! USB DFU wire vocabulary: class codes, request codes, device states,
//! status codes and functional-descriptor attribute bits.

use vstd::prelude::*;
use vstd::std_specs::convert::TryFromSpecImpl;

verus! {

pub const USB_CLASS_APPN_SPEC: u8 = 0xFE;

pub const APPN_SPEC_SUBCLASS_DFU: u8 = 0x01;

pub const DFU_PROTOCOL_DFU: u8 = 0x02;

pub const DFU_PROTOCOL_RT: u8 = 0x01;

pub const DESC_DFU_FUNCTIONAL: u8 = 0x21;

/// Functional-descriptor attribute bit: the device generates the detach
/// sequence on the bus by itself.
pub const ATTR_WILL_DETACH: u8 = 0b0000_1000;

/// Functional-descriptor attribute bit: the device can communicate during
/// the manifestation phase.
pub const ATTR_MANIFESTATION_TOLERANT: u8 = 0b0000_0100;

/// Functional-descriptor attribute bit: the device is capable of upload.
pub const ATTR_CAN_UPLOAD: u8 = 0b0000_0010;

/// Functional-descriptor attribute bit: the device is capable of download.
pub const ATTR_CAN_DOWNLOAD: u8 = 0b0000_0001;

/// Device state as reported to the host in `bState`.
#[derive(Copy, Clone, PartialEq, Eq, Structural, Debug)]
pub enum State {
    AppIdle,
    AppDetach,
    DfuIdle,
    DownloadSync,
    DownloadBusy,
    DownloadIdle,
    ManifestSync,
    Manifest,
    ManifestWaitReset,
    UploadIdle,
    Error,
}

impl State {
    /// The `bState` byte of this state.
    pub open spec fn code(self) -> u8 {
        match self {
            State::AppIdle => 0,
            State::AppDetach => 1,
            State::DfuIdle => 2,
            State::DownloadSync => 3,
            State::DownloadBusy => 4,
            State::DownloadIdle => 5,
            State::ManifestSync => 6,
            State::Manifest => 7,
            State::ManifestWaitReset => 8,
            State::UploadIdle => 9,
            State::Error => 10,
        }
    }

    /// Encodes the state as its `bState` byte.
    pub fn to_u8(self) -> (b: u8)
        ensures
            b == self.code(),
    {
        match self {
            State::AppIdle => 0,
            State::AppDetach => 1,
            State::DfuIdle => 2,
            State::DownloadSync => 3,
            State::DownloadBusy => 4,
            State::DownloadIdle => 5,
            State::ManifestSync => 6,
            State::Manifest => 7,
            State::ManifestWaitReset => 8,
            State::UploadIdle => 9,
            State::Error => 10,
        }
    }
}

/// Status code as reported to the host in `bStatus`.
#[derive(Copy, Clone, PartialEq, Eq, Structural, Debug)]
#[allow(non_camel_case_types)]
pub enum DfuStatus {
    OK,
    ErrTarget,
    ErrFile,
    ErrWrite,
    ErrErase,
    ErrCheckErased,
    ErrProg,
    ErrVerify,
    ErrAddress,
    ErrNotDone,
    ErrFirmware,
    ErrVendor,
    ErrUsbr,
    ErrPor,
    ErrUnknown,
    ErrStalledPkt,
}

impl DfuStatus {
    /// The `bStatus` byte of this status.
    pub open spec fn code(self) -> u8 {
        match self {
            DfuStatus::OK => 0x00,
            DfuStatus::ErrTarget => 0x01,
            DfuStatus::ErrFile => 0x02,
            DfuStatus::ErrWrite => 0x03,
            DfuStatus::ErrErase => 0x04,
            DfuStatus::ErrCheckErased => 0x05,
            DfuStatus::ErrProg => 0x06,
            DfuStatus::ErrVerify => 0x07,
            DfuStatus::ErrAddress => 0x08,
            DfuStatus::ErrNotDone => 0x09,
            DfuStatus::ErrFirmware => 0x0A,
            DfuStatus::ErrVendor => 0x0B,
            DfuStatus::ErrUsbr => 0x0C,
            DfuStatus::ErrPor => 0x0D,
            DfuStatus::ErrUnknown => 0x0E,
            DfuStatus::ErrStalledPkt => 0x0F,
        }
    }

    /// Encodes the status as its `bStatus` byte.
    pub fn to_u8(self) -> (b: u8)
        ensures
            b == self.code(),
    {
        match self {
            DfuStatus::OK => 0x00,
            DfuStatus::ErrTarget => 0x01,
            DfuStatus::ErrFile => 0x02,
            DfuStatus::ErrWrite => 0x03,
            DfuStatus::ErrErase => 0x04,
            DfuStatus::ErrCheckErased => 0x05,
            DfuStatus::ErrProg => 0x06,
            DfuStatus::ErrVerify => 0x07,
            DfuStatus::ErrAddress => 0x08,
            DfuStatus::ErrNotDone => 0x09,
            DfuStatus::ErrFirmware => 0x0A,
            DfuStatus::ErrVendor => 0x0B,
            DfuStatus::ErrUsbr => 0x0C,
            DfuStatus::ErrPor => 0x0D,
            DfuStatus::ErrUnknown => 0x0E,
            DfuStatus::ErrStalledPkt => 0x0F,
        }
    }
}

/// A DFU class request.
#[derive(Copy, Clone, PartialEq, Eq, Structural, Debug)]
pub enum DfuRequest {
    Detach,
    Dnload,
    Upload,
    GetStatus,
    ClrStatus,
    GetState,
    Abort,
}

impl DfuRequest {
    /// The `bRequest` byte of this request.
    pub open spec fn code(self) -> u8 {
        match self {
            DfuRequest::Detach => 0,
            DfuRequest::Dnload => 1,
            DfuRequest::Upload => 2,
            DfuRequest::GetStatus => 3,
            DfuRequest::ClrStatus => 4,
            DfuRequest::GetState => 5,
            DfuRequest::Abort => 6,
        }
    }

    /// Encodes the request as its `bRequest` byte.
    pub fn to_u8(self) -> (b: u8)
        ensures
            b == self.code(),
    {
        match self {
            DfuRequest::Detach => 0,
            DfuRequest::Dnload => 1,
            DfuRequest::Upload => 2,
            DfuRequest::GetStatus => 3,
            DfuRequest::ClrStatus => 4,
            DfuRequest::GetState => 5,
            DfuRequest::Abort => 6,
        }
    }

    /// The request a `bRequest` byte stands for, if any.
    pub open spec fn decode(value: u8) -> Option<DfuRequest> {
        if value == 0 {
            Some(DfuRequest::Detach)
        } else if value == 1 {
            Some(DfuRequest::Dnload)
        } else if value == 2 {
            Some(DfuRequest::Upload)
        } else if value == 3 {
            Some(DfuRequest::GetStatus)
        } else if value == 4 {
            Some(DfuRequest::ClrStatus)
        } else if value == 5 {
            Some(DfuRequest::GetState)
        } else if value == 6 {
            Some(DfuRequest::Abort)
        } else {
            None
        }
    }
}

/// A byte stands for a request exactly if it is that request's code: every
/// request is decoded from its own code, and no byte above 6 is decoded.
pub proof fn lemma_request_codes(value: u8, req: DfuRequest)
    ensures
        DfuRequest::decode(value) == Some(req) <==> value == req.code(),
        DfuRequest::decode(value) is None <==> value > 6,
{
}

impl TryFrom<u8> for DfuRequest {
    type Error = ();

    fn try_from(value: u8) -> (r: Result<Self, Self::Error>)
    {
        match value {
            0 => Ok(DfuRequest::Detach),
            1 => Ok(DfuRequest::Dnload),
            2 => Ok(DfuRequest::Upload),
            3 => Ok(DfuRequest::GetStatus),
            4 => Ok(DfuRequest::ClrStatus),
            5 => Ok(DfuRequest::GetState),
            6 => Ok(DfuRequest::Abort),
            _ => Err(()),
        }
    }
}

impl TryFromSpecImpl<u8> for DfuRequest {
    open spec fn obeys_try_from_spec() -> bool {
        true
    }

    open spec fn try_from_spec(value: u8) -> Result<Self, Self::Error> {
        match DfuRequest::decode(value) {
            Some(r) => Ok(r),
            None => Err(()),
        }
    }
}

} // verus!
