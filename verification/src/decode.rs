//! Byte-level image decoding with categorized failures.
//!
//! The pipeline reads the named file outside this library and hands the byte
//! content (or the read error's text) in; everything from there on is decided
//! here. Format sniffing and pixel decoding are done by the `image` crate
//! behind two trusted wrappers; their results are functions of the byte
//! content alone and are named by two uninterpreted spec functions, so every
//! caller's contract pins the outcome exactly. A failure at each stage yields
//! its own category: `Open` for an unreadable source, `Format` when no format
//! can be determined from the content, `Decode` when the bytes are invalid
//! for the detected format.

use vstd::prelude::*;
use crate::error::{
    ErrorCategory, ErrorModel, PredictionError, decode_error, decode_message, format_error,
    format_message, open_error, open_message,
};

verus! {

/// A decoded image held as plain values: dimensions and tightly packed RGB
/// pixel data, three channel bytes per pixel, row-major.
#[derive(Debug)]
pub struct DecodedImage {
    /// Width in pixels.
    pub width: u32,
    /// Height in pixels.
    pub height: u32,
    /// The pixel buffer, `width * height * 3` bytes.
    pub pixels: Vec<u8>,
}

/// The abstract value of a [`DecodedImage`].
#[verifier::ext_equal]
pub struct ImageModel {
    /// Width in pixels.
    pub width: nat,
    /// Height in pixels.
    pub height: nat,
    /// The pixel bytes.
    pub pixels: Seq<u8>,
}

impl View for DecodedImage {
    type V = ImageModel;

    open spec fn view(&self) -> ImageModel {
        ImageModel { width: self.width as nat, height: self.height as nat, pixels: self.pixels@ }
    }
}

/// The pixel buffer exactly fills the dimensions.
pub open spec fn image_wf(m: ImageModel) -> bool {
    m.pixels.len() == m.width * m.height * 3
}

impl DecodedImage {
    /// The pixel buffer exactly fills the dimensions.
    pub open spec fn wf(&self) -> bool {
        image_wf(self@)
    }
}

/// What format detection returns on given byte content: success when the
/// leading bytes carry a known format's signature, otherwise the error text.
pub uninterp spec fn guess_outcome(bytes: Seq<u8>) -> Result<(), Seq<char>>;

/// What pixel decoding returns on given byte content: the RGB model of the
/// image, or the decoder's error text.
pub uninterp spec fn decode_outcome(bytes: Seq<u8>) -> Result<ImageModel, Seq<char>>;

/// `image::ImageFormat`, the format tag that content sniffing detects. Opaque
/// here; the decoder re-detects it from the same bytes.
#[verifier::external_type_specification]
#[verifier::external_body]
pub struct ExImageFormat(image::ImageFormat);

/// Relies on `image::guess_format`: the detected format is a function of the
/// buffer's leading bytes alone, and an unrecognized buffer yields an error
/// with its own text.
#[verifier::external_body]
fn guess_format_bytes(bytes: &Vec<u8>) -> (r: Result<image::ImageFormat, String>)
    ensures
        r is Ok <==> guess_outcome(bytes@) is Ok,
        r matches Err(t) ==> t@ == guess_outcome(bytes@)->Err_0,
{
    image::guess_format(bytes).map_err(|e| e.to_string())
}

/// Relies on `image::load_from_memory`, `DynamicImage::to_rgb8` and
/// `ImageBuffer::into_raw`: the decoded RGB pixels are a function of the byte
/// content alone, and the raw buffer holds exactly `width * height * 3`
/// bytes.
#[verifier::external_body]
fn load_image_bytes(bytes: &Vec<u8>) -> (r: Result<DecodedImage, String>)
    ensures
        r is Ok <==> decode_outcome(bytes@) is Ok,
        r matches Ok(img) ==> img@ == decode_outcome(bytes@)->Ok_0 && img.wf(),
        r matches Err(t) ==> t@ == decode_outcome(bytes@)->Err_0,
{
    match image::load_from_memory(bytes) {
        Ok(dynamic) => {
            let rgb = dynamic.to_rgb8();
            let (width, height) = (rgb.width(), rgb.height());
            Ok(DecodedImage { width, height, pixels: rgb.into_raw() })
        },
        Err(e) => Err(e.to_string()),
    }
}

/// What decoding byte content yields: the image model, or the categorized
/// failure — format sniffing first, pixel decoding second.
pub open spec fn decode_bytes_spec(bytes: Seq<u8>) -> Result<ImageModel, ErrorModel> {
    if guess_outcome(bytes) is Err {
        Err(
            ErrorModel {
                category: ErrorCategory::Format,
                message: format_message(guess_outcome(bytes)->Err_0),
            },
        )
    } else if decode_outcome(bytes) is Err {
        Err(
            ErrorModel {
                category: ErrorCategory::Decode,
                message: decode_message(decode_outcome(bytes)->Err_0),
            },
        )
    } else {
        Ok(decode_outcome(bytes)->Ok_0)
    }
}

/// Decodes in-memory image bytes: determine the format from the content, then
/// decode the pixel data. Each stage failing yields its own category carrying
/// the underlying error text; on success the image model is pinned by the
/// byte content.
pub fn decode_image(bytes: &Vec<u8>) -> (r: Result<DecodedImage, PredictionError>)
    ensures
        r is Ok <==> decode_bytes_spec(bytes@) is Ok,
        r matches Ok(img) ==> img@ == decode_bytes_spec(bytes@)->Ok_0 && img.wf(),
        r matches Err(e) ==> e@ == decode_bytes_spec(bytes@)->Err_0,
{
    match guess_format_bytes(bytes) {
        Ok(_format) => match load_image_bytes(bytes) {
            Ok(img) => Ok(img),
            Err(detail) => Err(decode_error(detail.as_str())),
        },
        Err(detail) => Err(format_error(detail.as_str())),
    }
}

/// The abstract value of a read outcome handed in by the server: the byte
/// content of the image file, or the I/O error's text.
pub open spec fn read_view(read: Result<Vec<u8>, String>) -> Result<Seq<u8>, Seq<char>> {
    match read {
        Ok(bytes) => Ok(bytes@),
        Err(detail) => Err(detail@),
    }
}

/// What the decode stage yields for a read outcome: a read failure is an
/// `Open` error with the reader's text; read bytes decode as
/// [`decode_bytes_spec`] says.
pub open spec fn read_decode_spec(read: Result<Seq<u8>, Seq<char>>) -> Result<
    ImageModel,
    ErrorModel,
> {
    match read {
        Ok(bytes) => decode_bytes_spec(bytes),
        Err(detail) => Err(
            ErrorModel { category: ErrorCategory::Open, message: open_message(detail) },
        ),
    }
}

/// The whole decode stage: turns the outcome of reading the image file into a
/// decoded image or the categorized failure.
pub fn decode_read(read: Result<Vec<u8>, String>) -> (r: Result<DecodedImage, PredictionError>)
    ensures
        r is Ok <==> read_decode_spec(read_view(read)) is Ok,
        r matches Ok(img) ==> img@ == read_decode_spec(read_view(read))->Ok_0 && img.wf(),
        r matches Err(e) ==> e@ == read_decode_spec(read_view(read))->Err_0,
{
    match read {
        Ok(bytes) => decode_image(&bytes),
        Err(detail) => Err(open_error(detail.as_str())),
    }
}

/// Idempotence of decoding: the decode stage is a function of the byte
/// content alone, so reading the same content twice decodes to the same
/// outcome — the same image model, or the same categorized failure. The
/// content itself is only ever taken by shared reference and never changed.
pub proof fn lemma_decode_deterministic(
    first: Result<Seq<u8>, Seq<char>>,
    second: Result<Seq<u8>, Seq<char>>,
)
    requires
        first == second,
    ensures
        read_decode_spec(first) == read_decode_spec(second),
{
}

} // verus!
