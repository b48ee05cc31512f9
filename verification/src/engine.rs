//! The optimisation engine and the one place where it is called.

use vstd::prelude::*;
use vstd::string::StringExecFns;
use crate::chunks::admits;
use crate::chunks::engine_admits;
use crate::error::UploadError;
use crate::error::UploadErrorView;
use crate::mode::OptimizationMode;
use crate::signature::has_png_signature;
use crate::signature::starts_with_signature;

verus! {

/// What the optimisation engine makes of an image at a preset level: the
/// optimised image, or the description of its failure. The engine is taken
/// to be a function of these two arguments alone.
pub uninterp spec fn engine_outcome(image: Seq<u8>, level: u8) -> Result<Seq<u8>, Seq<char>>;

/// Runs `oxipng::optimize_from_memory` on `image` with the options that
/// `oxipng::Options::from_preset` makes of `level`, and renders a failure
/// through the `Display` text of `oxipng::PngError`.
///
/// Nothing is proved of this function. Its contract only gives the result a
/// name: it claims that the outcome depends on the image and the level and
/// on nothing else, and says nothing of what the outcome is. It is called
/// only on images that the walk over the chunks admits, which leaves out
/// the images on which the engine is known to stop without an answer.
#[verifier::external_body]
fn run_engine(image: &[u8], level: u8) -> (outcome: Result<Vec<u8>, String>)
    requires
        starts_with_signature(image@),
        engine_admits(image@),
        1 <= level <= 6,
    ensures
        match outcome {
            Ok(bytes) => engine_outcome(image@, level) == Ok::<Seq<u8>, Seq<char>>(bytes@),
            Err(text) => engine_outcome(image@, level) == Err::<Seq<u8>, Seq<char>>(text@),
        },
{
    let options = oxipng::Options::from_preset(level);
    match oxipng::optimize_from_memory(image, &options) {
        Ok(bytes) => Ok(bytes),
        Err(error) => Err(error.to_string()),
    }
}

/// How an outcome of the engine counts for the upload: an optimised image
/// passes as it is, and a failure becomes an engine failure with the
/// engine's own description.
pub open spec fn outcome_verdict(outcome: Result<Seq<u8>, Seq<char>>) -> Result<
    Seq<u8>,
    UploadErrorView,
> {
    match outcome {
        Ok(bytes) => Ok(bytes),
        Err(text) => Err(UploadErrorView::EngineFailure(text)),
    }
}

/// The description of the failure that is reported for an image that
/// starts with the signature and that the engine is not given.
pub const REFUSED_IMAGE: &'static str = "Malformed or oversized PNG chunk detected";

/// The failure that is reported for an image that the engine is not given:
/// an engine failure with a fixed description.
pub open spec fn refusal() -> UploadErrorView {
    UploadErrorView::EngineFailure("Malformed or oversized PNG chunk detected"@)
}

/// The result of validating and optimising an uploaded image: an invalid
/// signature where the bytes do not start with the PNG signature, the
/// refusal where the walk over the chunks does not admit them, and
/// otherwise the verdict on what the engine makes of them.
pub open spec fn optimized(image: Seq<u8>, mode: OptimizationMode) -> Result<
    Seq<u8>,
    UploadErrorView,
> {
    if !starts_with_signature(image) {
        Err(UploadErrorView::InvalidSignature)
    } else if !engine_admits(image) {
        Err(refusal())
    } else {
        outcome_verdict(engine_outcome(image, mode.level_spec()))
    }
}

/// The mathematical value of an image or the error in its place.
pub open spec fn result_view(result: Result<Vec<u8>, UploadError>) -> Result<
    Seq<u8>,
    UploadErrorView,
> {
    match result {
        Ok(bytes) => Ok(bytes@),
        Err(error) => Err(error@),
    }
}

/// The mathematical value of an outcome of the engine.
pub open spec fn outcome_view(outcome: Result<Vec<u8>, String>) -> Result<Seq<u8>, Seq<char>> {
    match outcome {
        Ok(bytes) => Ok(bytes@),
        Err(text) => Err(text@),
    }
}

/// Turns an outcome of the engine into the result of the upload.
pub fn engine_verdict(outcome: Result<Vec<u8>, String>) -> (result: Result<Vec<u8>, UploadError>)
    ensures
        result_view(result) == outcome_verdict(outcome_view(outcome)),
        outcome is Ok <==> result is Ok,
{
    match outcome {
        Ok(bytes) => Ok(bytes),
        Err(text) => Err(UploadError::EngineFailure(text)),
    }
}

/// Validates an uploaded image and hands it to the engine at the level of
/// `mode`.
///
/// Bytes that do not start with the PNG signature, a buffer shorter than the
/// signature among them, are turned down as an invalid signature. Bytes
/// that start with it and that the walk over the chunks does not admit are
/// turned down as an engine failure with a fixed description, which is
/// reported with status 500 like a failure of the engine itself. In neither
/// case is the engine called.
pub fn optimize(image: &[u8], mode: OptimizationMode) -> (result: Result<Vec<u8>, UploadError>)
    ensures
        result_view(result) == optimized(image@, mode),
        result is Ok <==> starts_with_signature(image@) && engine_admits(image@) && engine_outcome(
            image@,
            mode.level_spec(),
        ) is Ok,
        !starts_with_signature(image@) ==> result_view(result) == Err::<
            Seq<u8>,
            UploadErrorView,
        >(UploadErrorView::InvalidSignature),
        starts_with_signature(image@) && !engine_admits(image@) ==> result_view(result) == Err::<
            Seq<u8>,
            UploadErrorView,
        >(refusal()),
        starts_with_signature(image@) && engine_admits(image@) ==> result_view(result)
            == outcome_verdict(engine_outcome(image@, mode.level_spec())),
{
    if !has_png_signature(image) {
        return Err(UploadError::InvalidSignature);
    }
    if !admits(image) {
        return Err(UploadError::EngineFailure(String::from_str(REFUSED_IMAGE)));
    }
    engine_verdict(run_engine(image, mode.level()))
}

} // verus!
