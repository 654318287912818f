//! The universal fallback strategy: capture the primary display as it is,
//! excluding nothing.
//!
//! Enumerating and capturing displays is the host's work. The host asks
//! [`begin`] for the first request, performs each request, and hands the
//! reply to [`step`] until the strategy has finished.

use vstd::prelude::*;
use crate::encoder::{encode_png, encoded_png, rgba8_header};
use crate::error::{CaptureError, CaptureFailure};
use crate::outcome::CaptureOutcome;

verus! {

/// The raw image of a display: packed red-green-blue-alpha pixels.
#[derive(Debug, PartialEq, Eq)]
pub struct RawImage {
    pub width: u32,
    pub height: u32,
    pub rgba: Vec<u8>,
}

/// What the strategy is waiting for.
#[derive(Clone, Copy, Debug, PartialEq, Eq, Structural)]
pub enum FallbackPhase {
    /// The displays were asked for.
    AwaitingDisplays,
    /// The image of the primary display was asked for.
    AwaitingImage,
}

/// What the host is asked to do next.
#[derive(Clone, Copy, Debug, PartialEq, Eq, Structural)]
pub enum FallbackRequest {
    /// Enumerate the displays.
    EnumerateDisplays,
    /// Capture the full bounds of the display at this position of the
    /// enumeration.
    CaptureDisplay { index: usize },
}

/// What the host found.
#[derive(Debug, PartialEq, Eq)]
pub enum FallbackReply {
    /// The number of displays, or the text of the error that kept them from
    /// being enumerated.
    Displays(Result<usize, String>),
    /// The captured image, or the text of the error of the capture call.
    Image(Result<RawImage, String>),
}

/// How far the strategy has come.
#[derive(Debug, PartialEq, Eq)]
pub enum FallbackProgress {
    /// The host performs the request and comes back in the given phase.
    Next(FallbackPhase, FallbackRequest),
    /// The strategy has finished with this outcome.
    Finished(CaptureOutcome),
}

impl FallbackPhase {
    /// An upper bound on the number of requests that are still to come.
    pub open spec fn remaining(self) -> nat {
        match self {
            FallbackPhase::AwaitingDisplays => 2,
            FallbackPhase::AwaitingImage => 1,
        }
    }
}

/// Starts the strategy: the first thing to find out is which displays
/// there are.
pub fn begin() -> (first: (FallbackPhase, FallbackRequest))
    ensures
        first == (FallbackPhase::AwaitingDisplays, FallbackRequest::EnumerateDisplays),
{
    (FallbackPhase::AwaitingDisplays, FallbackRequest::EnumerateDisplays)
}

/// Takes the host's reply to the pending request and decides how the
/// strategy goes on. Every step brings the strategy closer to its end.
///
/// Where there is at least one display, the first one is captured; its image
/// is encoded, which finishes the strategy. An error of the host's call
/// finishes it with the text of that error: under
/// [`CaptureError::NoDisplayFound`] where the displays could not be
/// enumerated, under [`CaptureError::DisplayCaptureError`] where the capture
/// failed. A reply that does not answer the pending request counts as its
/// failure, without any text.
pub fn step(phase: FallbackPhase, reply: FallbackReply) -> (progress: FallbackProgress)
    ensures
        match (phase, reply) {
            (FallbackPhase::AwaitingDisplays, FallbackReply::Displays(Ok(count))) => progress
                == if count > 0 {
                FallbackProgress::Next(
                    FallbackPhase::AwaitingImage,
                    FallbackRequest::CaptureDisplay { index: 0 },
                )
            } else {
                FallbackProgress::Finished(
                    CaptureOutcome::Failure(
                        CaptureFailure::spec_plain(CaptureError::NoDisplayFound),
                    ),
                )
            },
            (FallbackPhase::AwaitingDisplays, FallbackReply::Displays(Err(text))) => progress
                == FallbackProgress::Finished(
                CaptureOutcome::Failure(
                    CaptureFailure { reason: CaptureError::NoDisplayFound, detail: Some(text) },
                ),
            ),
            (FallbackPhase::AwaitingDisplays, _) => progress == FallbackProgress::Finished(
                CaptureOutcome::Failure(CaptureFailure::spec_plain(CaptureError::NoDisplayFound)),
            ),
            (FallbackPhase::AwaitingImage, FallbackReply::Image(Ok(raw))) => {
                &&& progress matches FallbackProgress::Finished(outcome)
                &&& outcome@ == encoded_png(raw.width, raw.height, raw.rgba@)
                &&& outcome matches CaptureOutcome::Success(image) ==> rgba8_header(
                    raw.width,
                    raw.height,
                ).is_prefix_of(image@)
            },
            (FallbackPhase::AwaitingImage, FallbackReply::Image(Err(text))) => progress
                == FallbackProgress::Finished(
                CaptureOutcome::Failure(
                    CaptureFailure {
                        reason: CaptureError::DisplayCaptureError,
                        detail: Some(text),
                    },
                ),
            ),
            (FallbackPhase::AwaitingImage, _) => progress == FallbackProgress::Finished(
                CaptureOutcome::Failure(
                    CaptureFailure::spec_plain(CaptureError::DisplayCaptureError),
                ),
            ),
        },
        progress matches FallbackProgress::Next(next, _) ==> next.remaining()
            < phase.remaining(),
{
    match phase {
        FallbackPhase::AwaitingDisplays => match reply {
            FallbackReply::Displays(Ok(count)) => if count > 0 {
                FallbackProgress::Next(
                    FallbackPhase::AwaitingImage,
                    FallbackRequest::CaptureDisplay { index: 0 },
                )
            } else {
                FallbackProgress::Finished(CaptureOutcome::failed(CaptureError::NoDisplayFound))
            },
            FallbackReply::Displays(Err(text)) => FallbackProgress::Finished(
                CaptureOutcome::Failure(
                    CaptureFailure { reason: CaptureError::NoDisplayFound, detail: Some(text) },
                ),
            ),
            _ => FallbackProgress::Finished(CaptureOutcome::failed(CaptureError::NoDisplayFound)),
        },
        FallbackPhase::AwaitingImage => match reply {
            FallbackReply::Image(Ok(raw)) => FallbackProgress::Finished(
                encode_png(raw.rgba.as_slice(), raw.width, raw.height),
            ),
            FallbackReply::Image(Err(text)) => FallbackProgress::Finished(
                CaptureOutcome::Failure(
                    CaptureFailure {
                        reason: CaptureError::DisplayCaptureError,
                        detail: Some(text),
                    },
                ),
            ),
            _ => FallbackProgress::Finished(
                CaptureOutcome::failed(CaptureError::DisplayCaptureError),
            ),
        },
    }
}

} // verus!
