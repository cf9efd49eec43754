//! Errors of the inference pipeline.

use vstd::prelude::*;

verus! {

#[verifier::external_type_specification]
#[verifier::external_body]
pub struct ExImageError(image::ImageError);

/// Why a model or tokenizer could not be made ready at start-up.
#[derive(Clone, Copy, Debug, PartialEq, Eq, Structural)]
pub enum LoadIssue {
    /// The model artifact could not be read, parsed or compiled.
    Artifact,
    /// The tokenizer definition could not be parsed.
    Tokenizer,
    /// The model declares an input shape other than the expected one.
    InputShape,
    /// The model declares an output shape whose width is not the label count.
    OutputShape,
}

/// Failure of one step of the pipeline.
#[derive(Debug)]
pub enum Error {
    /// A model or tokenizer artifact is missing, malformed or incompatible.
    Load(LoadIssue),
    /// The input bytes are not an image of a supported codec.
    Decode(image::ImageError),
    /// A tensor's shape or axis order does not fit the requested step.
    Layout,
    /// The tokenizer could not encode the text.
    Tokenization,
    /// The compiled model failed while running, with its diagnostic.
    Execution(String),
    /// The model returned no score.
    Empty,
}

} // verus!
