//! Verified core of an image-inference HTTP service.
//!
//! A request names an image; the service decodes it, submits it to a single
//! shared inference engine, and answers with the engine's rendered result or
//! with a categorized error. The modules here hold the parts of that pipeline
//! that can be stated and proved: the error taxonomy and its translation to a
//! response, byte-level image decoding, the exclusive-access gate that
//! serializes use of the engine, and the per-request stage machine.

pub mod decode;
pub mod error;
pub mod gate;
pub mod pipeline;

pub use error::ErrorCategory;
pub use error::PredictionError;
