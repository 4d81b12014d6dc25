//! The per-request pipeline: a stage machine from arrival to response.
//!
//! A request passes through `Received → Decoding → AwaitingGate → Inferring →
//! Formatting → Done`, with an absorbing `Failed` stage reachable from the
//! decoding and inferring stages. The surrounding server drives [`step`] with
//! the outcome of each outside operation (reading the file, being admitted at
//! the access gate, the engine's run) and performs whatever [`next_action`] says a
//! stage is waiting for; [`respond`] turns a finished pipeline into the
//! status and body that are written out. No stage is retried: the first
//! failure is carried to the response, translated, and the request ends.

use vstd::prelude::*;
use crate::decode::{
    DecodedImage, ImageModel, decode_bytes_spec, decode_outcome, decode_read, guess_outcome,
    image_wf, read_decode_spec, read_view,
};
use crate::error::{
    ErrorCategory, ErrorModel, PredictionError, FAILURE_STATUS, SUCCESS_STATUS, decode_message,
    format_message, generic_message, inference_error, inference_message, open_message, translate,
};
use crate::gate::{Gate, lemma_release_frees};

verus! {

/// The stage a request is in, with what that stage carries.
pub enum Stage {
    /// The request arrived; its path parameter is being extracted.
    Received {
        /// The path segment naming the image.
        path: String,
    },
    /// The image named by the path is being read and decoded.
    Decoding {
        /// The path segment naming the image.
        path: String,
    },
    /// Decoding succeeded; the request waits its turn at the access gate.
    AwaitingGate {
        /// The decoded image, owned by this request alone.
        image: DecodedImage,
    },
    /// The request is inside the access gate; the engine runs on its image.
    Inferring {
        /// The decoded image, owned by this request alone.
        image: DecodedImage,
    },
    /// The run succeeded; a success response carrying the rendering is due.
    Formatting {
        /// The rendered prediction result.
        rendered: String,
    },
    /// A stage failed; the translated error response is due.
    Failed {
        /// The categorized failure.
        error: PredictionError,
    },
    /// The response has been formed; nothing is left but writing it out.
    Done {
        /// The response status.
        status: u16,
        /// The response body.
        body: String,
    },
}

/// The abstract value of a [`Stage`].
#[verifier::ext_equal]
pub enum StageModel {
    /// The request arrived.
    Received {
        /// The path text.
        path: Seq<char>,
    },
    /// The image is being read and decoded.
    Decoding {
        /// The path text.
        path: Seq<char>,
    },
    /// Waiting at the access gate.
    AwaitingGate {
        /// The decoded image.
        image: ImageModel,
    },
    /// Inside the access gate.
    Inferring {
        /// The decoded image.
        image: ImageModel,
    },
    /// The run succeeded.
    Formatting {
        /// The rendered result text.
        rendered: Seq<char>,
    },
    /// A stage failed.
    Failed {
        /// The categorized failure.
        error: ErrorModel,
    },
    /// The response is formed.
    Done {
        /// The response status.
        status: u16,
        /// The response body text.
        body: Seq<char>,
    },
}

impl View for Stage {
    type V = StageModel;

    open spec fn view(&self) -> StageModel {
        match self {
            Stage::Received { path } => StageModel::Received { path: path@ },
            Stage::Decoding { path } => StageModel::Decoding { path: path@ },
            Stage::AwaitingGate { image } => StageModel::AwaitingGate { image: image@ },
            Stage::Inferring { image } => StageModel::Inferring { image: image@ },
            Stage::Formatting { rendered } => StageModel::Formatting { rendered: rendered@ },
            Stage::Failed { error } => StageModel::Failed { error: error@ },
            Stage::Done { status, body } => StageModel::Done { status: *status, body: body@ },
        }
    }
}

/// An outside outcome the server reports to the pipeline.
pub enum Event {
    /// The path parameter has been extracted; decoding may begin.
    Started,
    /// The outcome of opening and reading the image file: its byte content,
    /// or the I/O error's text.
    BytesRead(Result<Vec<u8>, String>),
    /// The access gate admitted this request.
    GateAcquired,
    /// The outcome of the engine's run: the rendered result, or the engine's
    /// error text.
    RunCompleted(Result<String, String>),
}

/// The abstract value of an [`Event`].
#[verifier::ext_equal]
pub enum EventModel {
    /// The path parameter has been extracted.
    Started,
    /// The read outcome: byte content or error text.
    BytesRead(Result<Seq<u8>, Seq<char>>),
    /// The access gate admitted this request.
    GateAcquired,
    /// The run outcome: rendered result or error text.
    RunCompleted(Result<Seq<char>, Seq<char>>),
}

impl View for Event {
    type V = EventModel;

    open spec fn view(&self) -> EventModel {
        match self {
            Event::Started => EventModel::Started,
            Event::BytesRead(read) => EventModel::BytesRead(read_view(*read)),
            Event::GateAcquired => EventModel::GateAcquired,
            Event::RunCompleted(run) => EventModel::RunCompleted(
                match run {
                    Ok(text) => Ok(text@),
                    Err(detail) => Err(detail@),
                },
            ),
        }
    }
}

/// Every transition of the pipeline. A stage only moves on the event it is
/// waiting for; any other event leaves it unchanged, so a failure at any
/// stage is absorbing until the response is rendered.
pub open spec fn step_model(s: StageModel, e: EventModel) -> StageModel {
    match (s, e) {
        (StageModel::Received { path }, EventModel::Started) => StageModel::Decoding { path },
        (StageModel::Decoding { path }, EventModel::BytesRead(read)) => match read_decode_spec(
            read,
        ) {
            Ok(image) => StageModel::AwaitingGate { image },
            Err(error) => StageModel::Failed { error },
        },
        (StageModel::AwaitingGate { image }, EventModel::GateAcquired) => StageModel::Inferring {
            image,
        },
        (StageModel::Inferring { image }, EventModel::RunCompleted(run)) => match run {
            Ok(rendered) => StageModel::Formatting { rendered },
            Err(detail) => StageModel::Failed {
                error: ErrorModel {
                    category: ErrorCategory::Inference,
                    message: inference_message(detail),
                },
            },
        },
        _ => s,
    }
}

/// Stages that carry an image carry a well-formed one.
pub open spec fn stage_wf(s: StageModel) -> bool {
    match s {
        StageModel::AwaitingGate { image } => image_wf(image),
        StageModel::Inferring { image } => image_wf(image),
        _ => true,
    }
}

/// One move of the pipeline: the stage machine applied to an outside
/// outcome. Decoding happens here, inside the library; the server only
/// reports what it read.
pub fn step(s: Stage, e: Event) -> (r: Stage)
    ensures
        r@ == step_model(s@, e@),
        stage_wf(s@) ==> stage_wf(r@),
{
    match (s, e) {
        (Stage::Received { path }, Event::Started) => Stage::Decoding { path },
        (Stage::Decoding { path: _ }, Event::BytesRead(read)) => match decode_read(read) {
            Ok(image) => Stage::AwaitingGate { image },
            Err(error) => Stage::Failed { error },
        },
        (Stage::AwaitingGate { image }, Event::GateAcquired) => Stage::Inferring { image },
        (Stage::Inferring { image: _ }, Event::RunCompleted(run)) => match run {
            Ok(rendered) => Stage::Formatting { rendered },
            Err(detail) => Stage::Failed { error: inference_error(detail.as_str()) },
        },
        (other, _) => other,
    }
}

/// What the server must do for a request sitting in a stage.
#[derive(Clone, Copy, PartialEq, Eq, Structural, Debug)]
pub enum Action {
    /// Extract the path parameter, then report `Started`.
    Extract,
    /// Open and read the image named by the stage's path, then report the
    /// outcome as `BytesRead`.
    ReadImage,
    /// Wait at the access gate; report `GateAcquired` once admitted.
    AwaitGate,
    /// Run the engine on the stage's image inside the access gate, release the access gate
    /// whatever the outcome, then report it as `RunCompleted`.
    RunInference,
    /// Form the response with `respond`.
    Respond,
    /// Write the formed response out; the pipeline is over.
    Finished,
}

/// The action each stage waits for.
pub open spec fn action_model(s: StageModel) -> Action {
    match s {
        StageModel::Received { .. } => Action::Extract,
        StageModel::Decoding { .. } => Action::ReadImage,
        StageModel::AwaitingGate { .. } => Action::AwaitGate,
        StageModel::Inferring { .. } => Action::RunInference,
        StageModel::Formatting { .. } => Action::Respond,
        StageModel::Failed { .. } => Action::Respond,
        StageModel::Done { .. } => Action::Finished,
    }
}

/// Tells the server what the request is waiting for.
pub fn next_action(s: &Stage) -> (a: Action)
    ensures
        a == action_model(s@),
{
    match s {
        Stage::Received { .. } => Action::Extract,
        Stage::Decoding { .. } => Action::ReadImage,
        Stage::AwaitingGate { .. } => Action::AwaitGate,
        Stage::Inferring { .. } => Action::RunInference,
        Stage::Formatting { .. } => Action::Respond,
        Stage::Failed { .. } => Action::Respond,
        Stage::Done { .. } => Action::Finished,
    }
}

/// The response each stage owes. A finished run renders its result with the
/// success status; a failure is translated to the failure status with its
/// message as the body; a stage that should never reach response rendering
/// is answered like an uncategorized rejection, exposing nothing.
pub open spec fn response_model(s: StageModel) -> (u16, Seq<char>) {
    match s {
        StageModel::Formatting { rendered } => (SUCCESS_STATUS, rendered),
        StageModel::Failed { error } => (FAILURE_STATUS, error.message),
        StageModel::Done { status, body } => (status, body),
        _ => (FAILURE_STATUS, generic_message()),
    }
}

/// Renders the response a finished pipeline owes. Total: it never fails,
/// whatever stage it is handed.
pub fn respond(s: Stage) -> (r: (u16, String))
    ensures
        r.0 == response_model(s@).0,
        r.1@ == response_model(s@).1,
{
    match s {
        Stage::Formatting { rendered } => (SUCCESS_STATUS, rendered),
        Stage::Failed { error } => translate(&error),
        Stage::Done { status, body } => (status, body),
        _ => (FAILURE_STATUS, "Internal Server Error".to_owned()),
    }
}

/// No starvation: a request inside the access gate leaves the `Inferring` stage on
/// any run outcome — a success moves it to `Formatting`, a failure to
/// `Failed` with the inference category — and the access gate it then releases is
/// free, so an attempt by any later request succeeds.
pub proof fn lemma_no_starvation(
    g: Gate,
    holder: u64,
    s: StageModel,
    run: Result<Seq<char>, Seq<char>>,
)
    requires
        g.holds(holder),
        s is Inferring,
    ensures
        !(step_model(s, EventModel::RunCompleted(run)) is Inferring),
        !(step_model(s, EventModel::RunCompleted(run)) is AwaitingGate),
        run is Ok ==> step_model(s, EventModel::RunCompleted(run)) is Formatting,
        run is Err ==> (step_model(s, EventModel::RunCompleted(run)) matches StageModel::Failed {
            error,
        } && error.category == ErrorCategory::Inference),
        g.after_release().is_free(),
        forall|next: u64| g.after_release().after_acquire(next).holds(next),
{
    lemma_release_frees(g);
}

/// Error categorization: a request whose image cannot be read is answered
/// with the failure status and the open-error message; one whose byte
/// content matches no known format, or does not decode under its format, is
/// answered with the failure status and the format- or decode-error message
/// carrying the underlying text.
pub proof fn lemma_error_categorization(path: Seq<char>, detail: Seq<char>, bytes: Seq<u8>)
    ensures
        response_model(
            step_model(StageModel::Decoding { path }, EventModel::BytesRead(Err(detail))),
        ) == (FAILURE_STATUS, open_message(detail)),
        guess_outcome(bytes) is Err ==> response_model(
            step_model(StageModel::Decoding { path }, EventModel::BytesRead(Ok(bytes))),
        ) == (FAILURE_STATUS, format_message(guess_outcome(bytes)->Err_0)),
        guess_outcome(bytes) is Ok && decode_outcome(bytes) is Err ==> response_model(
            step_model(StageModel::Decoding { path }, EventModel::BytesRead(Ok(bytes))),
        ) == (FAILURE_STATUS, decode_message(decode_outcome(bytes)->Err_0)),
{
}

/// The success path end to end: a request whose image decodes and whose run
/// succeeds passes `Received → Decoding → AwaitingGate → Inferring →
/// Formatting` and is answered with the success status and the rendered
/// result, nothing else.
pub proof fn lemma_success_path(path: Seq<char>, bytes: Seq<u8>, rendered: Seq<char>)
    requires
        decode_bytes_spec(bytes) is Ok,
    ensures
        ({
            let decoding = step_model(StageModel::Received { path }, EventModel::Started);
            let awaiting = step_model(decoding, EventModel::BytesRead(Ok(bytes)));
            let inferring = step_model(awaiting, EventModel::GateAcquired);
            let formatting = step_model(inferring, EventModel::RunCompleted(Ok(rendered)));
            decoding == (StageModel::Decoding { path }) && awaiting
                == (StageModel::AwaitingGate { image: decode_bytes_spec(bytes)->Ok_0 })
                && inferring == (StageModel::Inferring {
                image: decode_bytes_spec(bytes)->Ok_0,
            }) && formatting == (StageModel::Formatting { rendered }) && response_model(formatting)
                == (SUCCESS_STATUS, rendered)
        }),
{
}

} // verus!
