//! The capture orchestrator: which strategy runs on which platform, what
//! happens when it fails, and what the caller gets in the end.
//!
//! Running a strategy is the host's work. The host asks [`begin`] for the
//! first request, runs what is requested, and hands the outcome to [`step`]
//! until the orchestrator has finished. The caller observes exactly one
//! result per request: the transport text of an image, or one error.

use vstd::prelude::*;
use crate::error::{CaptureError, CaptureFailure};
use crate::outcome::CaptureOutcome;
use crate::transport::{
    base64_decoded, base64_text, encode_transport, lemma_transport_round_trip, text_len,
};

verus! {

/// The platform that the capture runs on.
#[derive(Clone, Copy, Debug, PartialEq, Eq, Structural)]
pub enum Platform {
    MacOs,
    Windows,
    Other,
}

/// A strategy that keeps the requesting window out of the image.
#[derive(Clone, Copy, Debug, PartialEq, Eq, Structural)]
pub enum Strategy {
    /// The window server renders everything below the window.
    CompositorExclusion,
    /// The window is hidden while the display is captured.
    HideAndRestore,
}

/// What the orchestrator is waiting for.
#[derive(Clone, Copy, Debug, PartialEq, Eq, Structural)]
pub enum OrchestratorPhase {
    /// The platform's own strategy is running.
    AwaitingExclusion,
    /// The universal fallback is running.
    AwaitingFallback,
}

/// What the host is asked to run next.
#[derive(Clone, Debug, PartialEq, Eq)]
pub enum OrchestratorRequest {
    /// Run the platform's strategy.
    RunStrategy(Strategy),
    /// Run the universal fallback. Where it stands in for a strategy that
    /// failed, `diagnostic` is that failure, to be recorded.
    RunFallback { diagnostic: Option<CaptureFailure> },
}

/// How far the orchestrator has come.
#[derive(Debug, PartialEq, Eq)]
pub enum OrchestratorProgress {
    /// The host runs the request and comes back in the given phase.
    Next(OrchestratorPhase, OrchestratorRequest),
    /// The request is answered: the transport text of the image, or the
    /// failure.
    Finished(Result<String, CaptureFailure>),
}

/// The mathematical model of an [`OrchestratorProgress`].
pub enum Verdict {
    Next(OrchestratorPhase, OrchestratorRequest),
    Finished(Result<Seq<char>, CaptureFailure>),
}

/// The text of an answer, or its failure.
pub open spec fn answer_text(answer: Result<String, CaptureFailure>) -> Result<
    Seq<char>,
    CaptureFailure,
> {
    match answer {
        Ok(text) => Ok(text@),
        Err(failure) => Err(failure),
    }
}

impl View for OrchestratorProgress {
    type V = Verdict;

    open spec fn view(&self) -> Verdict {
        match self {
            OrchestratorProgress::Next(phase, request) => Verdict::Next(*phase, *request),
            OrchestratorProgress::Finished(answer) => Verdict::Finished(answer_text(*answer)),
        }
    }
}

impl OrchestratorPhase {
    /// An upper bound on the number of requests that are still to come.
    pub open spec fn remaining(self) -> nat {
        match self {
            OrchestratorPhase::AwaitingExclusion => 2,
            OrchestratorPhase::AwaitingFallback => 1,
        }
    }
}

/// The strategy that keeps the window out of the image on `platform`, if
/// the platform has one.
pub open spec fn spec_platform_strategy(platform: Platform) -> Option<Strategy> {
    match platform {
        Platform::MacOs => Some(Strategy::CompositorExclusion),
        Platform::Windows => Some(Strategy::HideAndRestore),
        Platform::Other => None,
    }
}

/// What the caller gets for a final outcome: the transport text of the
/// image, or the failure as it is. An image whose text would not fit the
/// address space cannot be delivered and counts as a failure to encode.
pub open spec fn delivered(outcome: Result<Seq<u8>, CaptureFailure>) -> Result<
    Seq<char>,
    CaptureFailure,
> {
    match outcome {
        Ok(bytes) => if text_len(bytes.len()) <= usize::MAX {
            Ok(base64_text(bytes))
        } else {
            Err(CaptureFailure::spec_plain(CaptureError::EncodingError))
        },
        Err(failure) => Err(failure),
    }
}

/// The first request on `platform`: its own strategy where it has one, the
/// universal fallback otherwise.
pub open spec fn spec_begin(platform: Platform) -> (OrchestratorPhase, OrchestratorRequest) {
    match spec_platform_strategy(platform) {
        Some(strategy) => (
            OrchestratorPhase::AwaitingExclusion,
            OrchestratorRequest::RunStrategy(strategy),
        ),
        None => (
            OrchestratorPhase::AwaitingFallback,
            OrchestratorRequest::RunFallback { diagnostic: None },
        ),
    }
}

/// The transition of the orchestrator: a failure of the platform's strategy
/// leads to the universal fallback, and every other outcome is final.
pub open spec fn spec_step(phase: OrchestratorPhase, outcome: Result<Seq<u8>, CaptureFailure>)
    -> Verdict {
    match (phase, outcome) {
        (OrchestratorPhase::AwaitingExclusion, Err(failure)) => Verdict::Next(
            OrchestratorPhase::AwaitingFallback,
            OrchestratorRequest::RunFallback { diagnostic: Some(failure) },
        ),
        _ => Verdict::Finished(delivered(outcome)),
    }
}

/// What the caller gets when the orchestrator goes on from `phase` with
/// `request` pending, given what the platform's strategy and the universal
/// fallback come to when they are run.
pub open spec fn answer_from(
    phase: OrchestratorPhase,
    request: OrchestratorRequest,
    exclusion: Result<Seq<u8>, CaptureFailure>,
    fallback: Result<Seq<u8>, CaptureFailure>,
) -> Result<Seq<char>, CaptureFailure>
    decreases phase.remaining(),
{
    let outcome = match request {
        OrchestratorRequest::RunStrategy(_) => exclusion,
        OrchestratorRequest::RunFallback { .. } => fallback,
    };
    match spec_step(phase, outcome) {
        Verdict::Next(next, next_request) => answer_from(next, next_request, exclusion, fallback),
        Verdict::Finished(answer) => answer,
    }
}

/// What the caller gets on `platform`, given what the platform's strategy
/// and the universal fallback come to when they are run.
pub open spec fn answer(
    platform: Platform,
    exclusion: Result<Seq<u8>, CaptureFailure>,
    fallback: Result<Seq<u8>, CaptureFailure>,
) -> Result<Seq<char>, CaptureFailure> {
    answer_from(spec_begin(platform).0, spec_begin(platform).1, exclusion, fallback)
}

/// Selects the strategy for `platform`.
pub fn platform_strategy(platform: Platform) -> (strategy: Option<Strategy>)
    ensures
        strategy == spec_platform_strategy(platform),
{
    match platform {
        Platform::MacOs => Some(Strategy::CompositorExclusion),
        Platform::Windows => Some(Strategy::HideAndRestore),
        Platform::Other => None,
    }
}

/// Turns a final outcome into what the caller gets. A text that is
/// delivered decodes to exactly the bytes of the image.
pub fn deliver(outcome: CaptureOutcome) -> (answer: Result<String, CaptureFailure>)
    ensures
        answer_text(answer) == delivered(outcome@),
        answer matches Ok(text) ==> outcome matches CaptureOutcome::Success(image)
            && base64_decoded(text@) == Some(image@),
{
    match outcome {
        CaptureOutcome::Success(image) => {
            let len = image.bytes.len();
            let groups = if len % 3 == 0 {
                len / 3
            } else {
                len / 3 + 1
            };
            if groups <= usize::MAX / 4 {
                Ok(encode_transport(image.bytes.as_slice()))
            } else {
                Err(CaptureFailure::plain(CaptureError::EncodingError))
            }
        },
        CaptureOutcome::Failure(failure) => Err(failure),
    }
}

/// Starts a capture on `platform`.
pub fn begin(platform: Platform) -> (first: (OrchestratorPhase, OrchestratorRequest))
    ensures
        first == spec_begin(platform),
{
    match platform_strategy(platform) {
        Some(strategy) => (
            OrchestratorPhase::AwaitingExclusion,
            OrchestratorRequest::RunStrategy(strategy),
        ),
        None => (
            OrchestratorPhase::AwaitingFallback,
            OrchestratorRequest::RunFallback { diagnostic: None },
        ),
    }
}

/// Takes the outcome of what was run and decides how the capture goes on.
/// There is no retry beyond the single fallback: every step brings the
/// orchestrator closer to its end.
pub fn step(phase: OrchestratorPhase, outcome: CaptureOutcome) -> (progress: OrchestratorProgress)
    ensures
        progress@ == spec_step(phase, outcome@),
        progress matches OrchestratorProgress::Next(next, _) ==> next.remaining()
            < phase.remaining(),
{
    match phase {
        OrchestratorPhase::AwaitingExclusion => match outcome {
            CaptureOutcome::Failure(failure) => OrchestratorProgress::Next(
                OrchestratorPhase::AwaitingFallback,
                OrchestratorRequest::RunFallback { diagnostic: Some(failure) },
            ),
            success => OrchestratorProgress::Finished(deliver(success)),
        },
        OrchestratorPhase::AwaitingFallback => OrchestratorProgress::Finished(deliver(outcome)),
    }
}

/// Where the platform's strategy fails, whatever the failure, the caller
/// gets exactly what the universal fallback alone would have produced: what
/// a platform without a strategy of its own delivers for the same fallback
/// outcome.
pub proof fn lemma_fallback_decides_after_failure(
    platform: Platform,
    failure: CaptureFailure,
    fallback: Result<Seq<u8>, CaptureFailure>,
)
    ensures
        answer(platform, Err(failure), fallback) == answer(
            Platform::Other,
            Err(failure),
            fallback,
        ),
        answer(platform, Err(failure), fallback) == delivered(fallback),
{
    reveal_with_fuel(answer_from, 3);
}

/// Where the platform's strategy succeeds, its image is what the caller
/// gets, and the universal fallback has no say.
pub proof fn lemma_success_is_final(
    platform: Platform,
    image: Seq<u8>,
    fallback: Result<Seq<u8>, CaptureFailure>,
)
    requires
        spec_platform_strategy(platform) is Some,
    ensures
        answer(platform, Ok(image), fallback) == delivered(Ok(image)),
{
    reveal_with_fuel(answer_from, 3);
}

/// Every text that is delivered for an image decodes to exactly the bytes of
/// that image, and every image whose text fits the address space is
/// delivered.
pub proof fn lemma_delivered_text_decodes(image: Seq<u8>)
    ensures
        delivered(Ok(image)) matches Ok(text) ==> base64_decoded(text) == Some(image),
        text_len(image.len()) <= usize::MAX ==> delivered(Ok(image)) == Ok::<
            Seq<char>,
            CaptureFailure,
        >(base64_text(image)),
{
    lemma_transport_round_trip(image);
}

/// Where the universal fallback produces an image, on a platform without a
/// strategy of its own or after the platform's strategy has failed, the text
/// that the caller gets decodes to exactly the bytes of that image.
pub proof fn lemma_fallback_image_round_trip(
    platform: Platform,
    failure: CaptureFailure,
    image: Seq<u8>,
)
    ensures
        answer(platform, Err(failure), Ok(image)) matches Ok(text) ==> base64_decoded(text)
            == Some(image),
{
    lemma_fallback_decides_after_failure(platform, failure, Ok(image));
    lemma_delivered_text_decodes(image);
}

} // verus!
