//! What a capture attempt produces: an encoded image, or the reason why
//! there is none.

use vstd::prelude::*;
use crate::error::{CaptureError, CaptureFailure};

verus! {

/// The bytes of an image in its lossless raster container.
#[derive(Clone, Debug, PartialEq, Eq)]
pub struct EncodedImage {
    pub bytes: Vec<u8>,
}

impl View for EncodedImage {
    type V = Seq<u8>;

    open spec fn view(&self) -> Seq<u8> {
        self.bytes@
    }
}

/// The result of one strategy attempt. It is never partially populated:
/// either the whole image is there, or a reason and nothing else.
#[derive(Clone, Debug, PartialEq, Eq)]
pub enum CaptureOutcome {
    Success(EncodedImage),
    Failure(CaptureFailure),
}

impl View for CaptureOutcome {
    type V = Result<Seq<u8>, CaptureFailure>;

    open spec fn view(&self) -> Result<Seq<u8>, CaptureFailure> {
        match self {
            CaptureOutcome::Success(image) => Ok(image@),
            CaptureOutcome::Failure(failure) => Err(*failure),
        }
    }
}

impl CaptureOutcome {
    /// Whether the attempt produced an image.
    pub fn is_success(&self) -> (yes: bool)
        ensures
            yes == (self is Success),
    {
        match self {
            CaptureOutcome::Success(_) => true,
            CaptureOutcome::Failure(_) => false,
        }
    }

    /// Turns the outcome into a `Result`, handing the image or the failure on
    /// unchanged.
    pub fn into_result(self) -> (result: Result<EncodedImage, CaptureFailure>)
        ensures
            match self {
                CaptureOutcome::Success(image) => result == Ok::<EncodedImage, CaptureFailure>(
                    image,
                ),
                CaptureOutcome::Failure(failure) => result == Err::<EncodedImage, CaptureFailure>(
                    failure,
                ),
            },
    {
        match self {
            CaptureOutcome::Success(image) => Ok(image),
            CaptureOutcome::Failure(failure) => Err(failure),
        }
    }

    /// Makes the outcome of a stage that failed without any text of an
    /// underlying error.
    pub fn failed(reason: CaptureError) -> (outcome: CaptureOutcome)
        ensures
            outcome == CaptureOutcome::Failure(CaptureFailure::spec_plain(reason)),
    {
        CaptureOutcome::Failure(CaptureFailure::plain(reason))
    }
}

} // verus!
