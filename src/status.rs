use vstd::prelude::*;

verus! {

/// The engine consumed its input and needs more.
pub const H264BSD_RDY: u32 = 0;

/// A decoded picture is ready for output.
pub const H264BSD_PIC_RDY: u32 = 1;

/// Sequence and picture headers were decoded.
pub const H264BSD_HDRS_RDY: u32 = 2;

/// The engine failed to decode the input.
pub const H264BSD_ERROR: u32 = 3;

/// A parameter set was invalid.
pub const H264BSD_PARAM_SET_ERROR: u32 = 4;

/// The engine could not allocate memory.
pub const H264BSD_MEMALLOC_ERROR: u32 = 5;

/// What one call of the engine's decode routine reported.
#[derive(Debug, Clone, Copy, PartialEq, Eq, Structural)]
pub enum H264bsdStatus {
    PicRdy,
    Error,
    ParamSetError,
    Rdy,
    MemAllocError,
    HdrsRdy,
}

/// Everything that can go wrong in a decode session.
#[derive(Debug, Clone, Copy, PartialEq, Eq, Structural)]
pub enum DecodeError {
    /// The engine could not be initialised.
    InitializationFailed,
    /// The engine returned a code outside its documented set.
    UnrecognizedStatus,
    /// The engine reported a decoding error.
    EngineError,
    /// The engine reported an invalid parameter set.
    ParameterSetError,
    /// The engine ran out of memory.
    MemoryAllocationError,
    /// No picture has been decoded yet.
    NoPictureAvailable,
}

/// The status that an engine return code stands for, if any.
pub open spec fn status_of(code: u32) -> Option<H264bsdStatus> {
    if code == H264BSD_PIC_RDY {
        Some(H264bsdStatus::PicRdy)
    } else if code == H264BSD_ERROR {
        Some(H264bsdStatus::Error)
    } else if code == H264BSD_PARAM_SET_ERROR {
        Some(H264bsdStatus::ParamSetError)
    } else if code == H264BSD_RDY {
        Some(H264bsdStatus::Rdy)
    } else if code == H264BSD_MEMALLOC_ERROR {
        Some(H264bsdStatus::MemAllocError)
    } else if code == H264BSD_HDRS_RDY {
        Some(H264bsdStatus::HdrsRdy)
    } else {
        None
    }
}

/// The error that a failing status aborts a submission with; `None` for the
/// three statuses after which decoding goes on.
pub open spec fn status_error(s: H264bsdStatus) -> Option<DecodeError> {
    match s {
        H264bsdStatus::Error => Some(DecodeError::EngineError),
        H264bsdStatus::ParamSetError => Some(DecodeError::ParameterSetError),
        H264bsdStatus::MemAllocError => Some(DecodeError::MemoryAllocationError),
        _ => None,
    }
}

impl H264bsdStatus {
    /// Classifies an engine return code.
    pub fn try_from(value: u32) -> (r: Result<H264bsdStatus, DecodeError>)
        ensures
            match status_of(value) {
                Some(s) => r == Ok::<H264bsdStatus, DecodeError>(s),
                None => r == Err::<H264bsdStatus, DecodeError>(DecodeError::UnrecognizedStatus),
            },
    {
        match value {
            H264BSD_PIC_RDY => Ok(H264bsdStatus::PicRdy),
            H264BSD_ERROR => Ok(H264bsdStatus::Error),
            H264BSD_PARAM_SET_ERROR => Ok(H264bsdStatus::ParamSetError),
            H264BSD_RDY => Ok(H264bsdStatus::Rdy),
            H264BSD_MEMALLOC_ERROR => Ok(H264bsdStatus::MemAllocError),
            H264BSD_HDRS_RDY => Ok(H264bsdStatus::HdrsRdy),
            _ => Err(DecodeError::UnrecognizedStatus),
        }
    }

    /// The error this status aborts a submission with, if it is a failure.
    pub fn error(self) -> (r: Option<DecodeError>)
        ensures
            r == status_error(self),
    {
        match self {
            H264bsdStatus::Error => Some(DecodeError::EngineError),
            H264bsdStatus::ParamSetError => Some(DecodeError::ParameterSetError),
            H264bsdStatus::MemAllocError => Some(DecodeError::MemoryAllocationError),
            _ => None,
        }
    }
}

} // verus!
