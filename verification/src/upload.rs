//! The upload handler: from a parsed form and the bytes of the uploaded file
//! to the response.
//!
//! The handler runs in two steps, because the bytes of the file are read
//! only once the form has been found to hold a file under the image key.
//! [`begin_upload`] looks at the form and either answers at once or asks for
//! the file to be read; [`finish_upload`] takes the bytes and answers.

use vstd::prelude::*;
use crate::chunks::engine_admits;
use crate::engine::engine_outcome;
use crate::engine::optimize;
use crate::engine::optimized;
use crate::engine::outcome_verdict;
use crate::engine::result_view;
use crate::error::UploadError;
use crate::error::UploadErrorView;
use crate::form::FormEntry;
use crate::form::FormEntryView;
use crate::form::UploadForm;
use crate::form::UploadFormView;
use crate::mode::select_mode;
use crate::mode::selected_mode;
use crate::response::Response;
use crate::response::ResponseView;
use crate::response::error_response;
use crate::response::image_response;
use crate::signature::starts_with_signature;

verus! {

/// The mathematical value of a form that may have failed to parse.
pub open spec fn form_view(form: Option<&UploadForm>) -> Option<UploadFormView> {
    match form {
        Some(f) => Some(f@),
        None => None,
    }
}

/// The mathematical value of a form entry that may be absent.
pub open spec fn entry_ref_view(entry: Option<&FormEntry>) -> Option<FormEntryView> {
    match entry {
        Some(e) => Some(e@),
        None => None,
    }
}

/// What is wrong with a form, if anything, before any file is read. `None`
/// stands for a body that is no multipart form data.
pub open spec fn form_verdict(form: Option<UploadFormView>) -> Result<(), UploadErrorView> {
    match form {
        None => Err(UploadErrorView::MalformedRequest),
        Some(f) => match f.image {
            None => Err(UploadErrorView::MissingField),
            Some(FormEntryView::Field(_)) => Err(UploadErrorView::WrongFieldType),
            Some(FormEntryView::File) => Ok(()),
        },
    }
}

/// Checks that the body was a form and that it holds a file under the image key.
pub fn check_form(form: Option<&UploadForm>) -> (verdict: Result<(), UploadError>)
    ensures
        match verdict {
            Ok(()) => form_verdict(form_view(form)) == Ok::<(), UploadErrorView>(()),
            Err(error) => form_verdict(form_view(form)) == Err::<(), UploadErrorView>(error@),
        },
{
    match form {
        None => Err(UploadError::MalformedRequest),
        Some(f) => match &f.image {
            None => Err(UploadError::MissingField),
            Some(FormEntry::Field(_)) => Err(UploadError::WrongFieldType),
            Some(FormEntry::File) => Ok(()),
        },
    }
}

/// What the handler does once the form is known.
#[derive(Clone, Debug, PartialEq, Eq)]
pub enum UploadStep {
    /// The form holds a file under the image key: its bytes are to be read
    /// and handed to [`finish_upload`].
    ReadImage,
    /// The request is answered with this response, and nothing is read.
    Respond(Response),
}

/// The mathematical value of an [`UploadStep`].
pub enum UploadStepView {
    ReadImage,
    Respond(ResponseView),
}

impl View for UploadStep {
    type V = UploadStepView;

    open spec fn view(&self) -> UploadStepView {
        match self {
            UploadStep::ReadImage => UploadStepView::ReadImage,
            UploadStep::Respond(response) => UploadStepView::Respond(response@),
        }
    }
}

/// The step that follows from a form: the file is read where the form is
/// in order, and the error is reported where it is not.
pub open spec fn first_step(form: Option<UploadFormView>) -> UploadStepView {
    match form_verdict(form) {
        Ok(()) => UploadStepView::ReadImage,
        Err(error) => UploadStepView::Respond(error.response()),
    }
}

/// The response to an upload whose file holds `image`, where the form holds
/// `mode` under the mode key.
pub open spec fn image_reply(mode: Option<FormEntryView>, image: Seq<u8>) -> ResponseView {
    reply(optimized(image, selected_mode(mode)))
}

/// The response that reports a result: the image on success, and the
/// error's status and message on failure.
pub open spec fn reply(result: Result<Seq<u8>, UploadErrorView>) -> ResponseView {
    match result {
        Ok(image) => image_response(image),
        Err(error) => error.response(),
    }
}

/// The response to a whole upload: `form` is the parsed form, `None` for a
/// body that is no form, and `image` holds the bytes of the file under the
/// image key, which count only where the form holds one.
pub open spec fn upload_reply(form: Option<UploadFormView>, image: Seq<u8>) -> ResponseView {
    match first_step(form) {
        UploadStepView::Respond(response) => response,
        UploadStepView::ReadImage => image_reply(form->0.mode, image),
    }
}

/// Builds the response that reports a result of the upload.
pub fn respond(result: Result<Vec<u8>, UploadError>) -> (response: Response)
    ensures
        response@ == reply(result_view(result)),
        result matches Ok(image) ==> response@ == image_response(image@),
        result matches Err(error) ==> response@ == error_response(
            error@.status(),
            error@.message(),
        ),
{
    match result {
        Ok(image) => Response::image(image),
        Err(error) => error.into_response(),
    }
}

/// The first step of the handler. `form` is the parsed form, or `None`
/// where the body could not be parsed as multipart form data.
///
/// A body that is no form, a form without a value under the image key and a
/// form with a text field under it are each answered at once with status 400
/// and the message of the error. Only a file under the image key is read.
pub fn begin_upload(form: Option<&UploadForm>) -> (step: UploadStep)
    ensures
        step@ == first_step(form_view(form)),
        form is None ==> step@ == UploadStepView::Respond(
            error_response(400, "There was no Form-Data"@),
        ),
        form matches Some(f) ==> (f.image is None ==> step@ == UploadStepView::Respond(
            error_response(400, "There was no 'image' key in Form-Data"@),
        )),
        form matches Some(f) ==> (f.image matches Some(FormEntry::Field(_)) ==> step@
            == UploadStepView::Respond(error_response(400, "Invalid file"@))),
        form matches Some(f) ==> (f.image matches Some(FormEntry::File) ==> step@
            == UploadStepView::ReadImage),
{
    match check_form(form) {
        Ok(()) => UploadStep::ReadImage,
        Err(error) => UploadStep::Respond(error.into_response()),
    }
}

/// The second step of the handler. `mode` is what the form holds under the
/// mode key and `image` holds the bytes of the uploaded file.
///
/// The mode is resolved first and never fails the request. Bytes that do
/// not start with the PNG signature are answered with status 400. Bytes
/// whose chunks the engine cannot be given are answered with status 500 and
/// a fixed message. Otherwise the engine runs at the level of the mode: its
/// image is sent back with status 200 as `image/png`, and its failure with
/// status 500 and the engine's description as the message.
pub fn finish_upload(mode: Option<&FormEntry>, image: &[u8]) -> (response: Response)
    ensures
        response@ == image_reply(entry_ref_view(mode), image@),
        !starts_with_signature(image@) ==> response@ == error_response(
            400,
            "Invalid PNG header detected"@,
        ),
        starts_with_signature(image@) && !engine_admits(image@) ==> response@ == error_response(
            500,
            "Malformed or oversized PNG chunk detected"@,
        ),
        starts_with_signature(image@) && engine_admits(image@) ==> response@ == reply(
            outcome_verdict(
                engine_outcome(image@, selected_mode(entry_ref_view(mode)).level_spec()),
            ),
        ),
{
    let level = select_mode(mode);
    respond(optimize(image, level))
}

} // verus!
