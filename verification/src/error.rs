//! The error taxonomy of the service and its translation into a response.
//!
//! Every failure a request can run into is carried as a [`PredictionError`]:
//! a category out of a closed set, and a human-readable message built from a
//! fixed prefix and the underlying low-level error text. The translator turns
//! any such failure into the one server-side failure status with the message
//! as the body; an uncategorized rejection gets a generic body instead.

use vstd::prelude::*;
use vstd::string::*;

verus! {

/// Status code of every translated failure.
pub const FAILURE_STATUS: u16 = 500;

/// Status code of a successful prediction.
pub const SUCCESS_STATUS: u16 = 200;

/// The closed set of categories a request failure falls in.
#[derive(Clone, Copy, PartialEq, Eq, Structural, Debug)]
pub enum ErrorCategory {
    /// The source image could not be opened or read.
    Open,
    /// No image format could be determined from the byte content.
    Format,
    /// The bytes were structurally invalid for the detected format.
    Decode,
    /// The inference engine rejected its input or failed internally.
    Inference,
}

/// A categorized failure carrying a human-readable message. It travels out of
/// band from the normal result channel and is rendered by [`translate`].
#[derive(Debug)]
pub struct PredictionError {
    /// Which stage of the pipeline failed.
    pub category: ErrorCategory,
    /// Prefix naming the stage, followed by the underlying error text.
    pub message: String,
}

/// The abstract value of a [`PredictionError`]: its category and message text.
#[verifier::ext_equal]
pub struct ErrorModel {
    /// Which stage of the pipeline failed.
    pub category: ErrorCategory,
    /// The message text.
    pub message: Seq<char>,
}

impl View for PredictionError {
    type V = ErrorModel;

    open spec fn view(&self) -> ErrorModel {
        ErrorModel { category: self.category, message: self.message@ }
    }
}

/// Message of a failure to open or read the source image.
pub open spec fn open_message(detail: Seq<char>) -> Seq<char> {
    "Image open error: "@ + detail
}

/// Message of a failure to determine the image format.
pub open spec fn format_message(detail: Seq<char>) -> Seq<char> {
    "Image format error: "@ + detail
}

/// Message of a failure to decode the image bytes.
pub open spec fn decode_message(detail: Seq<char>) -> Seq<char> {
    "Image decode error: "@ + detail
}

/// Message of a failure inside the inference engine.
pub open spec fn inference_message(detail: Seq<char>) -> Seq<char> {
    "Model prediction error: "@ + detail
}

/// Body of a response to a rejection that carries no categorized failure.
pub open spec fn generic_message() -> Seq<char> {
    "Internal Server Error"@
}

/// Builds the failure for an unreadable source image.
pub fn open_error(detail: &str) -> (e: PredictionError)
    ensures
        e.category == ErrorCategory::Open,
        e.message@ == open_message(detail@),
{
    PredictionError {
        category: ErrorCategory::Open,
        message: "Image open error: ".to_owned().concat(detail),
    }
}

/// Builds the failure for byte content of no recognizable image format.
pub fn format_error(detail: &str) -> (e: PredictionError)
    ensures
        e.category == ErrorCategory::Format,
        e.message@ == format_message(detail@),
{
    PredictionError {
        category: ErrorCategory::Format,
        message: "Image format error: ".to_owned().concat(detail),
    }
}

/// Builds the failure for bytes that do not decode under their format.
pub fn decode_error(detail: &str) -> (e: PredictionError)
    ensures
        e.category == ErrorCategory::Decode,
        e.message@ == decode_message(detail@),
{
    PredictionError {
        category: ErrorCategory::Decode,
        message: "Image decode error: ".to_owned().concat(detail),
    }
}

/// Builds the failure for an inference engine that rejected its input or
/// failed internally.
pub fn inference_error(detail: &str) -> (e: PredictionError)
    ensures
        e.category == ErrorCategory::Inference,
        e.message@ == inference_message(detail@),
{
    PredictionError {
        category: ErrorCategory::Inference,
        message: "Model prediction error: ".to_owned().concat(detail),
    }
}

/// Renders a categorized failure as a status and a body. Every category maps
/// to the one server-side failure status; the body is the failure's message.
/// The translator never fails: it is total over its input.
pub fn translate(err: &PredictionError) -> (r: (u16, String))
    ensures
        r.0 == FAILURE_STATUS,
        r.1@ == err.message@,
{
    (FAILURE_STATUS, err.message.clone())
}

/// Renders the outcome of a rejected request. A rejection that carries a
/// categorized failure keeps that failure's message as the body; any other
/// rejection gets the generic body. The status is the failure status either
/// way, and internal state beyond the message text is never exposed.
pub fn translate_rejection(err: Option<&PredictionError>) -> (r: (u16, String))
    ensures
        r.0 == FAILURE_STATUS,
        err matches Some(e) ==> r.1@ == e.message@,
        err is None ==> r.1@ == generic_message(),
{
    match err {
        Some(e) => (FAILURE_STATUS, e.message.clone()),
        None => (FAILURE_STATUS, "Internal Server Error".to_owned()),
    }
}

} // verus!
