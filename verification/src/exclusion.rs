//! The compositor-exclusion strategy: on a system whose window server can
//! render everything below a given window, ask it for exactly that.
//!
//! The native calls are the host's. The decisions are here: the host asks
//! [`begin`] for the first request, performs each request, and hands the
//! reply to [`step`] until the strategy has finished.

use vstd::prelude::*;
use crate::encoder::{encode_capture, encoded_capture, rgba8_header};
use crate::error::{CaptureError, CaptureFailure};
use crate::outcome::CaptureOutcome;
use crate::pixel::PixelBuffer;

verus! {

/// What the strategy is waiting for.
#[derive(Clone, Copy, Debug, PartialEq, Eq, Structural)]
pub enum ExclusionPhase {
    /// The native number of the window was asked for.
    AwaitingWindow,
    /// The image below the window was asked for.
    AwaitingImage,
}

/// What the host is asked to do next.
#[derive(Clone, Copy, Debug, PartialEq, Eq, Structural)]
pub enum ExclusionRequest {
    /// Resolve the native number of the window.
    ResolveWindow,
    /// Capture, within the bounds of the primary display, everything on
    /// screen below the window with this number.
    CaptureBelow { window_number: u32 },
}

/// What the host found.
#[derive(Debug, PartialEq, Eq)]
pub enum ExclusionReply {
    /// The native number of the window, or the text of the error that kept
    /// it from being resolved.
    Window(Result<u32, String>),
    /// The pixels that the compositor returned, if it returned an image.
    Image(Option<PixelBuffer>),
}

/// How far the strategy has come.
#[derive(Debug, PartialEq, Eq)]
pub enum ExclusionProgress {
    /// The host performs the request and comes back in the given phase.
    Next(ExclusionPhase, ExclusionRequest),
    /// The strategy has finished with this outcome.
    Finished(CaptureOutcome),
}

impl ExclusionPhase {
    /// An upper bound on the number of requests that are still to come.
    pub open spec fn remaining(self) -> nat {
        match self {
            ExclusionPhase::AwaitingWindow => 2,
            ExclusionPhase::AwaitingImage => 1,
        }
    }
}

/// Starts the strategy: the first thing to find out is the window's native
/// number.
pub fn begin() -> (first: (ExclusionPhase, ExclusionRequest))
    ensures
        first == (ExclusionPhase::AwaitingWindow, ExclusionRequest::ResolveWindow),
{
    (ExclusionPhase::AwaitingWindow, ExclusionRequest::ResolveWindow)
}

/// Takes the host's reply to the pending request and decides how the
/// strategy goes on. Every step brings the strategy closer to its end.
///
/// A window number leads to the capture below that window; an image is
/// converted and encoded, which finishes the strategy. A window that could
/// not be resolved finishes it with
/// [`CaptureError::NativeHandleUnavailable`] and the text of the error. A
/// reply that does not answer the pending request counts as its failure:
/// [`CaptureError::NativeHandleUnavailable`] while the window is awaited,
/// [`CaptureError::NativeCaptureUnavailable`] while the image is.
pub fn step(phase: ExclusionPhase, reply: ExclusionReply) -> (progress: ExclusionProgress)
    ensures
        match (phase, reply) {
            (ExclusionPhase::AwaitingWindow, ExclusionReply::Window(Ok(number))) => progress
                == ExclusionProgress::Next(
                ExclusionPhase::AwaitingImage,
                ExclusionRequest::CaptureBelow { window_number: number },
            ),
            (ExclusionPhase::AwaitingWindow, ExclusionReply::Window(Err(text))) => progress
                == ExclusionProgress::Finished(
                CaptureOutcome::Failure(
                    CaptureFailure {
                        reason: CaptureError::NativeHandleUnavailable,
                        detail: Some(text),
                    },
                ),
            ),
            (ExclusionPhase::AwaitingWindow, _) => progress == ExclusionProgress::Finished(
                CaptureOutcome::Failure(
                    CaptureFailure::spec_plain(CaptureError::NativeHandleUnavailable),
                ),
            ),
            (ExclusionPhase::AwaitingImage, ExclusionReply::Image(Some(buffer))) => {
                &&& progress matches ExclusionProgress::Finished(outcome)
                &&& outcome@ == encoded_capture(buffer@)
                &&& outcome matches CaptureOutcome::Success(image) ==> rgba8_header(
                    buffer.width as u32,
                    buffer.height as u32,
                ).is_prefix_of(image@)
            },
            (ExclusionPhase::AwaitingImage, _) => progress == ExclusionProgress::Finished(
                CaptureOutcome::Failure(
                    CaptureFailure::spec_plain(CaptureError::NativeCaptureUnavailable),
                ),
            ),
        },
        progress matches ExclusionProgress::Next(next, _) ==> next.remaining()
            < phase.remaining(),
{
    match phase {
        ExclusionPhase::AwaitingWindow => match reply {
            ExclusionReply::Window(Ok(number)) => ExclusionProgress::Next(
                ExclusionPhase::AwaitingImage,
                ExclusionRequest::CaptureBelow { window_number: number },
            ),
            ExclusionReply::Window(Err(text)) => ExclusionProgress::Finished(
                CaptureOutcome::Failure(
                    CaptureFailure {
                        reason: CaptureError::NativeHandleUnavailable,
                        detail: Some(text),
                    },
                ),
            ),
            _ => ExclusionProgress::Finished(
                CaptureOutcome::failed(CaptureError::NativeHandleUnavailable),
            ),
        },
        ExclusionPhase::AwaitingImage => match reply {
            ExclusionReply::Image(Some(buffer)) => ExclusionProgress::Finished(
                encode_capture(&buffer),
            ),
            _ => ExclusionProgress::Finished(
                CaptureOutcome::failed(CaptureError::NativeCaptureUnavailable),
            ),
        },
    }
}

} // verus!
