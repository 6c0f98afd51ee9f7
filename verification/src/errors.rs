//! The error taxonomy of the placement pipeline.
//!
//! Validation failures (`ColorSizeMismatch`, `CanvasSizeMismatch`,
//! `InvalidUser`) are rejected before any state is touched and are always
//! recoverable by correcting the input. `CacheUnavailable` and
//! `StoreUnavailable` report a failed backing service; `InconsistentWrite`
//! reports a dual write that only partially committed. `AdminAuthFailure`
//! reports a privileged operation attempted without a valid token.

use vstd::prelude::*;

verus! {

#[derive(Clone, Copy, Debug, PartialEq, Eq, Structural)]
pub enum VpError {
    /// The canvas bitmap could not be allocated or initialized.
    InitCanvasErr,
    /// The requested color exceeds the configured color depth.
    ColorSizeMismatch,
    /// The requested cell lies outside the canvas.
    CanvasSizeMismatch,
    /// The user identity is absent or unknown.
    InvalidUser,
    /// No placement has ever been recorded for the requested cell.
    NoPixelData,
    /// The canvas cache failed or timed out.
    CacheUnavailable,
    /// The durable store failed or timed out.
    StoreUnavailable,
    /// The dual write partially succeeded: one side committed, the other failed.
    InconsistentWrite,
    /// A privileged operation was attempted without a valid token.
    AdminAuthFailure,
}

impl VpError {
    /// A human-readable description of the error.
    pub fn message(&self) -> (s: String)
        ensures
            *self == VpError::InitCanvasErr ==> s@ == "Unable to initialize canvas"@,
            *self == VpError::ColorSizeMismatch ==> s@ == "[Color Size Mismatch]: color exceeds the configured color depth"@,
            *self == VpError::CanvasSizeMismatch ==> s@ == "[Canvas Size Mismatch]: Enter (x,y) < Canvas Dimension"@,
            *self == VpError::InvalidUser ==> s@ == "[Invalid User]: Invalid User Id"@,
            *self == VpError::NoPixelData ==> s@ == "No pixel data found"@,
            *self == VpError::CacheUnavailable ==> s@ == "[Cache Error]: canvas cache unavailable"@,
            *self == VpError::StoreUnavailable ==> s@ == "[Store Error]: durable store unavailable"@,
            *self == VpError::InconsistentWrite ==> s@ == "[Inconsistent Write]: dual write partially committed"@,
            *self == VpError::AdminAuthFailure ==> s@ == "[Admin Auth Failure]: invalid admin token"@,
    {
        match self {
            VpError::InitCanvasErr => "Unable to initialize canvas".to_owned(),
            VpError::ColorSizeMismatch => "[Color Size Mismatch]: color exceeds the configured color depth".to_owned(),
            VpError::CanvasSizeMismatch => "[Canvas Size Mismatch]: Enter (x,y) < Canvas Dimension".to_owned(),
            VpError::InvalidUser => "[Invalid User]: Invalid User Id".to_owned(),
            VpError::NoPixelData => "No pixel data found".to_owned(),
            VpError::CacheUnavailable => "[Cache Error]: canvas cache unavailable".to_owned(),
            VpError::StoreUnavailable => "[Store Error]: durable store unavailable".to_owned(),
            VpError::InconsistentWrite => "[Inconsistent Write]: dual write partially committed".to_owned(),
            VpError::AdminAuthFailure => "[Admin Auth Failure]: invalid admin token".to_owned(),
        }
    }
}

} // verus!
