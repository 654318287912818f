use spotlight_core::encoder::encode_png;
use spotlight_core::error::{CaptureError, CaptureFailure};
use spotlight_core::fallback::{
    begin, step, FallbackPhase, FallbackProgress, FallbackReply, FallbackRequest, RawImage,
};
use spotlight_core::outcome::CaptureOutcome;

fn failed(reason: CaptureError) -> FallbackProgress {
    FallbackProgress::Finished(CaptureOutcome::failed(reason))
}

fn failed_with(reason: CaptureError, text: &str) -> FallbackProgress {
    FallbackProgress::Finished(CaptureOutcome::Failure(CaptureFailure {
        reason,
        detail: Some(text.to_string()),
    }))
}

#[test]
fn fallback_starts_by_enumerating_displays() {
    assert_eq!(begin(), (FallbackPhase::AwaitingDisplays, FallbackRequest::EnumerateDisplays));
}

#[test]
fn first_display_is_captured() {
    for count in [1usize, 2, 7] {
        assert_eq!(
            step(FallbackPhase::AwaitingDisplays, FallbackReply::Displays(Ok(count))),
            FallbackProgress::Next(
                FallbackPhase::AwaitingImage,
                FallbackRequest::CaptureDisplay { index: 0 },
            )
        );
    }
}

#[test]
fn no_display_is_a_failure() {
    assert_eq!(
        step(FallbackPhase::AwaitingDisplays, FallbackReply::Displays(Ok(0))),
        failed(CaptureError::NoDisplayFound)
    );
}

#[test]
fn failed_enumeration_is_a_failure_with_the_text_of_the_error() {
    assert_eq!(
        step(
            FallbackPhase::AwaitingDisplays,
            FallbackReply::Displays(Err("display server is gone".to_string()))
        ),
        failed_with(CaptureError::NoDisplayFound, "display server is gone")
    );
}

#[test]
fn image_instead_of_displays_is_a_failure() {
    let raw = RawImage { width: 1, height: 1, rgba: vec![0, 0, 0, 0] };
    assert_eq!(
        step(FallbackPhase::AwaitingDisplays, FallbackReply::Image(Ok(raw))),
        failed(CaptureError::NoDisplayFound)
    );
}

#[test]
fn failed_capture_is_a_failure_with_the_text_of_the_error() {
    assert_eq!(
        step(
            FallbackPhase::AwaitingImage,
            FallbackReply::Image(Err("permission denied".to_string()))
        ),
        failed_with(CaptureError::DisplayCaptureError, "permission denied")
    );
}

#[test]
fn displays_instead_of_an_image_is_a_failure() {
    assert_eq!(
        step(FallbackPhase::AwaitingImage, FallbackReply::Displays(Ok(3))),
        failed(CaptureError::DisplayCaptureError)
    );
}

#[test]
fn captured_image_is_encoded() {
    let rgba = vec![9u8, 8, 7, 6, 5, 4, 3, 2];
    let raw = RawImage { width: 1, height: 2, rgba: rgba.clone() };
    let progress = step(FallbackPhase::AwaitingImage, FallbackReply::Image(Ok(raw)));
    assert_eq!(progress, FallbackProgress::Finished(encode_png(&rgba, 1, 2)));
    match progress {
        FallbackProgress::Finished(CaptureOutcome::Success(image)) => {
            let decoder = png::Decoder::new(image.bytes.as_slice());
            let mut reader = decoder.read_info().unwrap();
            let mut pixels = vec![0; reader.output_buffer_size()];
            let frame = reader.next_frame(&mut pixels).unwrap();
            assert_eq!((frame.width, frame.height), (1, 2));
            assert_eq!(&pixels[..frame.buffer_size()], rgba.as_slice());
        }
        other => panic!("no image: {:?}", other),
    }
}

#[test]
fn captured_image_of_the_wrong_size_is_not_encoded() {
    let raw = RawImage { width: 2, height: 2, rgba: vec![0; 15] };
    assert_eq!(
        step(FallbackPhase::AwaitingImage, FallbackReply::Image(Ok(raw))),
        failed(CaptureError::EncodingError)
    );
}

#[test]
fn whole_fallback_run() {
    let rgba = vec![255u8, 0, 0, 255];
    let (mut phase, mut request) = begin();
    let mut asked = Vec::new();
    let outcome = loop {
        asked.push(request);
        let reply = match request {
            FallbackRequest::EnumerateDisplays => FallbackReply::Displays(Ok(2)),
            FallbackRequest::CaptureDisplay { index } => {
                assert_eq!(index, 0);
                FallbackReply::Image(Ok(RawImage { width: 1, height: 1, rgba: rgba.clone() }))
            }
        };
        match step(phase, reply) {
            FallbackProgress::Next(next, next_request) => {
                phase = next;
                request = next_request;
            }
            FallbackProgress::Finished(outcome) => break outcome,
        }
    };
    assert_eq!(
        asked,
        vec![FallbackRequest::EnumerateDisplays, FallbackRequest::CaptureDisplay { index: 0 }]
    );
    assert_eq!(outcome, encode_png(&rgba, 1, 1));
    assert!(outcome.is_success());
}
