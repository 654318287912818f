//! The reasons for which a capture attempt can fail, and the failures that
//! carry them.

use vstd::prelude::*;
use vstd::string::StringExecFns;

verus! {

/// Why a capture step failed.
#[derive(Clone, Copy, Debug, PartialEq, Eq, Structural)]
pub enum CaptureError {
    /// The native identifier of the window could not be resolved.
    NativeHandleUnavailable,
    /// The compositor returned no image.
    NativeCaptureUnavailable,
    /// The pixel data is shorter than its declared layout implies.
    BufferTooShort,
    /// The image container could not be written.
    EncodingError,
    /// No display could be enumerated.
    NoDisplayFound,
    /// Capturing the display failed.
    DisplayCaptureError,
    /// The visibility of the window could not be found out. A call that
    /// hides, shows or focuses the window and fails is recorded by the host
    /// and ends nothing.
    VisibilityToggleError,
}

impl CaptureError {
    /// The human-readable description of the stage that failed.
    pub open spec fn spec_message(self) -> Seq<char> {
        match self {
            CaptureError::NativeHandleUnavailable => "Failed to access native window"@,
            CaptureError::NativeCaptureUnavailable => "Native window capture returned no image"@,
            CaptureError::BufferTooShort => "Unexpected pixel buffer length"@,
            CaptureError::EncodingError => "Failed to encode PNG"@,
            CaptureError::NoDisplayFound => "No screens found"@,
            CaptureError::DisplayCaptureError => "Failed to capture display"@,
            CaptureError::VisibilityToggleError => "Failed to determine window visibility"@,
        }
    }

    /// Returns the description of this error as an owned string.
    pub fn message(&self) -> (text: String)
        ensures
            text@ == self.spec_message(),
    {
        match self {
            CaptureError::NativeHandleUnavailable => "Failed to access native window".to_owned(),
            CaptureError::NativeCaptureUnavailable => {
                "Native window capture returned no image".to_owned()
            },
            CaptureError::BufferTooShort => "Unexpected pixel buffer length".to_owned(),
            CaptureError::EncodingError => "Failed to encode PNG".to_owned(),
            CaptureError::NoDisplayFound => "No screens found".to_owned(),
            CaptureError::DisplayCaptureError => "Failed to capture display".to_owned(),
            CaptureError::VisibilityToggleError => {
                "Failed to determine window visibility".to_owned()
            },
        }
    }
}

/// A failed capture step: the stage that failed and, where the host's call
/// gave one, the text of the underlying error.
#[derive(Clone, Debug, PartialEq, Eq)]
pub struct CaptureFailure {
    pub reason: CaptureError,
    pub detail: Option<String>,
}

impl CaptureFailure {
    /// The failure of a stage without any text of an underlying error.
    pub open spec fn spec_plain(reason: CaptureError) -> CaptureFailure {
        CaptureFailure { reason, detail: None }
    }

    /// The description of the failure: the stage that failed, followed by a
    /// colon and the text of the underlying error where there is one.
    pub open spec fn spec_message(self) -> Seq<char> {
        match self.detail {
            Some(detail) => self.reason.spec_message() + ": "@ + detail@,
            None => self.reason.spec_message(),
        }
    }

    /// Makes the failure of a stage without any text of an underlying error.
    pub fn plain(reason: CaptureError) -> (failure: CaptureFailure)
        ensures
            failure == CaptureFailure::spec_plain(reason),
    {
        CaptureFailure { reason, detail: None }
    }

    /// Returns the description of this failure as an owned string.
    pub fn message(&self) -> (text: String)
        ensures
            text@ == self.spec_message(),
    {
        match &self.detail {
            Some(detail) => self.reason.message().concat(": ").concat(detail.as_str()),
            None => self.reason.message(),
        }
    }
}

} // verus!
