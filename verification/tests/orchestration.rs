use base64::Engine;
use spotlight_core::error::{CaptureError, CaptureFailure};
use spotlight_core::orchestrator::{
    begin, deliver, platform_strategy, step, OrchestratorPhase, OrchestratorProgress,
    OrchestratorRequest, Platform, Strategy,
};
use spotlight_core::outcome::{CaptureOutcome, EncodedImage};

fn image(bytes: &[u8]) -> CaptureOutcome {
    CaptureOutcome::Success(EncodedImage { bytes: bytes.to_vec() })
}

/// Runs the orchestrator with strategies whose outcomes are given, and
/// returns what was run together with the answer.
fn orchestrate(
    platform: Platform,
    exclusion: CaptureOutcome,
    fallback: CaptureOutcome,
) -> (Vec<OrchestratorRequest>, Result<String, CaptureFailure>) {
    let (mut phase, mut request) = begin(platform);
    let mut ran = Vec::new();
    loop {
        ran.push(request.clone());
        let outcome = match request {
            OrchestratorRequest::RunStrategy(_) => exclusion.clone(),
            OrchestratorRequest::RunFallback { .. } => fallback.clone(),
        };
        match step(phase, outcome) {
            OrchestratorProgress::Next(next, next_request) => {
                phase = next;
                request = next_request;
            }
            OrchestratorProgress::Finished(answer) => return (ran, answer),
        }
    }
}

#[test]
fn each_platform_has_its_strategy() {
    assert_eq!(platform_strategy(Platform::MacOs), Some(Strategy::CompositorExclusion));
    assert_eq!(platform_strategy(Platform::Windows), Some(Strategy::HideAndRestore));
    assert_eq!(platform_strategy(Platform::Other), None);
}

#[test]
fn capture_starts_with_the_platform_strategy() {
    assert_eq!(
        begin(Platform::MacOs),
        (
            OrchestratorPhase::AwaitingExclusion,
            OrchestratorRequest::RunStrategy(Strategy::CompositorExclusion)
        )
    );
    assert_eq!(
        begin(Platform::Windows),
        (
            OrchestratorPhase::AwaitingExclusion,
            OrchestratorRequest::RunStrategy(Strategy::HideAndRestore)
        )
    );
    assert_eq!(
        begin(Platform::Other),
        (OrchestratorPhase::AwaitingFallback, OrchestratorRequest::RunFallback { diagnostic: None })
    );
}

#[test]
fn successful_strategy_is_delivered_without_fallback() {
    let (ran, answer) = orchestrate(Platform::MacOs, image(b"foo"), image(b"bar"));
    assert_eq!(ran, vec![OrchestratorRequest::RunStrategy(Strategy::CompositorExclusion)]);
    assert_eq!(answer, Ok("Zm9v".to_string()));
}

#[test]
fn failed_strategy_falls_through_to_the_fallback() {
    let (ran, answer) = orchestrate(
        Platform::Windows,
        CaptureOutcome::failed(CaptureError::VisibilityToggleError),
        image(b"bar"),
    );
    assert_eq!(
        ran,
        vec![
            OrchestratorRequest::RunStrategy(Strategy::HideAndRestore),
            OrchestratorRequest::RunFallback {
                diagnostic: Some(CaptureFailure::plain(CaptureError::VisibilityToggleError))
            },
        ]
    );
    assert_eq!(answer, Ok("YmFy".to_string()));
}

#[test]
fn after_a_failed_strategy_the_answer_is_that_of_the_fallback_alone() {
    let reasons = [
        CaptureError::NativeHandleUnavailable,
        CaptureError::NativeCaptureUnavailable,
        CaptureError::BufferTooShort,
        CaptureError::EncodingError,
        CaptureError::VisibilityToggleError,
    ];
    let fallbacks = [
        image(&[137, 80, 78, 71]),
        image(&[]),
        CaptureOutcome::failed(CaptureError::NoDisplayFound),
        CaptureOutcome::failed(CaptureError::DisplayCaptureError),
    ];
    for platform in [Platform::MacOs, Platform::Windows] {
        for reason in reasons {
            for fallback in &fallbacks {
                let (_, alone) = orchestrate(Platform::Other, image(b"unused"), fallback.clone());
                let (_, after_failure) =
                    orchestrate(platform, CaptureOutcome::failed(reason), fallback.clone());
                assert_eq!(after_failure, alone);
                assert_eq!(after_failure, deliver(fallback.clone()));
            }
        }
    }
}

#[test]
fn failed_fallback_is_the_error_of_the_capture() {
    let (ran, answer) = orchestrate(
        Platform::MacOs,
        CaptureOutcome::failed(CaptureError::NativeCaptureUnavailable),
        CaptureOutcome::failed(CaptureError::NoDisplayFound),
    );
    assert_eq!(ran.len(), 2);
    assert_eq!(answer, Err(CaptureFailure::plain(CaptureError::NoDisplayFound)));
}

#[test]
fn platform_without_strategy_runs_only_the_fallback() {
    let (ran, answer) = orchestrate(Platform::Other, image(b"unused"), image(b"f"));
    assert_eq!(ran, vec![OrchestratorRequest::RunFallback { diagnostic: None }]);
    assert_eq!(answer, Ok("Zg==".to_string()));
}

#[test]
fn fallback_is_never_retried() {
    assert_eq!(
        step(
            OrchestratorPhase::AwaitingFallback,
            CaptureOutcome::failed(CaptureError::DisplayCaptureError)
        ),
        OrchestratorProgress::Finished(Err(CaptureFailure::plain(
            CaptureError::DisplayCaptureError
        )))
    );
}

#[test]
fn delivered_text_decodes_to_the_image() {
    let bytes: Vec<u8> = (0..200u32).map(|i| (i * 7) as u8).collect();
    let text = deliver(image(&bytes)).unwrap();
    assert_eq!(base64::engine::general_purpose::STANDARD.decode(text).unwrap(), bytes);
}

#[test]
fn delivered_failure_keeps_its_reason() {
    assert_eq!(
        deliver(CaptureOutcome::failed(CaptureError::BufferTooShort)),
        Err(CaptureFailure::plain(CaptureError::BufferTooShort))
    );
}

#[test]
fn text_of_the_underlying_error_reaches_the_caller() {
    let fallback = CaptureOutcome::Failure(CaptureFailure {
        reason: CaptureError::DisplayCaptureError,
        detail: Some("permission denied".to_string()),
    });
    let exclusion = CaptureOutcome::Failure(CaptureFailure {
        reason: CaptureError::NativeHandleUnavailable,
        detail: Some("no native handle".to_string()),
    });
    let (ran, answer) = orchestrate(Platform::MacOs, exclusion.clone(), fallback);
    assert_eq!(
        ran[1],
        OrchestratorRequest::RunFallback {
            diagnostic: Some(CaptureFailure {
                reason: CaptureError::NativeHandleUnavailable,
                detail: Some("no native handle".to_string()),
            })
        }
    );
    let failure = answer.unwrap_err();
    assert_eq!(failure.message(), "Failed to capture display: permission denied");
}
