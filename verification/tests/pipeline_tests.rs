//! End-to-end scenarios driving the request pipeline through its stages.

use inference_server::decode::DecodedImage;
use inference_server::error::{PredictionError, FAILURE_STATUS, SUCCESS_STATUS};
use inference_server::pipeline::{next_action, respond, step, Action, Event, Stage};

/// A well-formed PNG of the given pixels, encoded in memory.
fn png_bytes(width: u32, height: u32, pixels: Vec<u8>) -> Vec<u8> {
    let img = image::RgbImage::from_raw(width, height, pixels).unwrap();
    let mut bytes: Vec<u8> = Vec::new();
    img.write_to(&mut std::io::Cursor::new(&mut bytes), image::ImageFormat::Png)
        .unwrap();
    bytes
}

/// Drives one request from arrival to its response, reporting the given read
/// outcome and, if the pipeline gets that far, the given run outcome.
fn drive(
    path: &str,
    read: Result<Vec<u8>, String>,
    run: Result<String, String>,
) -> (u16, String) {
    let mut stage = Stage::Received {
        path: path.to_string(),
    };
    loop {
        match next_action(&stage) {
            Action::Extract => stage = step(stage, Event::Started),
            Action::ReadImage => stage = step(stage, Event::BytesRead(read.clone())),
            Action::AwaitGate => stage = step(stage, Event::GateAcquired),
            Action::RunInference => stage = step(stage, Event::RunCompleted(run.clone())),
            Action::Respond => return respond(stage),
            Action::Finished => unreachable!(),
        }
    }
}

#[test]
fn valid_image_request_returns_success_with_rendering() {
    let bytes = png_bytes(2, 1, vec![255, 0, 0, 0, 255, 0]);
    let rendered = "Result { probs: None, bboxes: Some([]) }".to_string();
    let (status, body) = drive("valid.jpg", Ok(bytes), Ok(rendered.clone()));
    assert_eq!(status, SUCCESS_STATUS);
    assert_eq!(body, rendered);
    assert!(!body.is_empty());
}

#[test]
fn missing_file_request_returns_500_with_open_error() {
    let read_err = "No such file or directory (os error 2)".to_string();
    let (status, body) = drive(
        "missing.jpg",
        Err(read_err),
        Ok("unused".to_string()),
    );
    assert_eq!(status, FAILURE_STATUS);
    assert_eq!(body, "Image open error: No such file or directory (os error 2)");
    assert!(body.contains("open error"));
}

#[test]
fn corrupt_file_request_returns_500_with_format_or_decode_error() {
    // Garbage that matches no format signature.
    let garbage = vec![0x00u8, 0x01, 0x02, 0x03, 0x04, 0x05, 0x06, 0x07];
    let (status, body) = drive("corrupt.jpg", Ok(garbage), Ok("unused".to_string()));
    assert_eq!(status, FAILURE_STATUS);
    assert!(body.starts_with("Image format error: "));

    // A truncated PNG: the signature is recognized, the rest does not decode.
    let truncated = vec![0x89u8, b'P', b'N', b'G', 0x0D, 0x0A, 0x1A, 0x0A, 0xFF, 0xFF];
    let (status, body) = drive("corrupt.jpg", Ok(truncated), Ok("unused".to_string()));
    assert_eq!(status, FAILURE_STATUS);
    assert!(body.starts_with("Image decode error: "));
}

#[test]
fn failed_run_returns_500_with_inference_error() {
    let bytes = png_bytes(1, 1, vec![9, 9, 9]);
    let (status, body) = drive(
        "valid.jpg",
        Ok(bytes),
        Err("input tensor mismatch".to_string()),
    );
    assert_eq!(status, FAILURE_STATUS);
    assert_eq!(body, "Model prediction error: input tensor mismatch");
}

#[test]
fn mismatched_event_leaves_stage_unchanged() {
    let stage = Stage::Received {
        path: "a.png".to_string(),
    };
    let stage = step(stage, Event::GateAcquired);
    assert!(matches!(stage, Stage::Received { .. }));
    assert_eq!(next_action(&stage), Action::Extract);
}

#[test]
fn next_action_follows_the_stages() {
    let img = DecodedImage {
        width: 1,
        height: 1,
        pixels: vec![0, 0, 0],
    };
    assert_eq!(
        next_action(&Stage::Decoding {
            path: "p".to_string()
        }),
        Action::ReadImage
    );
    assert_eq!(
        next_action(&Stage::AwaitingGate { image: img }),
        Action::AwaitGate
    );
    assert_eq!(
        next_action(&Stage::Formatting {
            rendered: "r".to_string()
        }),
        Action::Respond
    );
    assert_eq!(
        next_action(&Stage::Done {
            status: 200,
            body: "b".to_string()
        }),
        Action::Finished
    );
}

#[test]
fn respond_on_done_returns_the_stored_response() {
    let (status, body) = respond(Stage::Done {
        status: 200,
        body: "already formed".to_string(),
    });
    assert_eq!(status, 200);
    assert_eq!(body, "already formed");
}

#[test]
fn respond_on_unfinished_stage_exposes_nothing() {
    let (status, body) = respond(Stage::Received {
        path: "secret-internal-path".to_string(),
    });
    assert_eq!(status, FAILURE_STATUS);
    assert_eq!(body, "Internal Server Error");
}

#[test]
fn failed_stage_keeps_its_error_through_respond() {
    let stage = Stage::Failed {
        error: PredictionError {
            category: inference_server::ErrorCategory::Decode,
            message: "Image decode error: bad chunk".to_string(),
        },
    };
    let (status, body) = respond(stage);
    assert_eq!(status, FAILURE_STATUS);
    assert_eq!(body, "Image decode error: bad chunk");
}
