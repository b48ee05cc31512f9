//! The ways in which an upload can fail, with the status and message of each.

use vstd::prelude::*;
use vstd::string::StringExecFns;
use crate::response::Response;
use crate::response::ResponseView;
use crate::response::error_response;

verus! {

/// Why an upload was turned down.
#[derive(Clone, Debug, PartialEq, Eq)]
pub enum UploadError {
    /// The request body is not multipart form data.
    MalformedRequest,
    /// The form has no value under the image key.
    MissingField,
    /// The value under the image key is a text field, not a file.
    WrongFieldType,
    /// The uploaded bytes do not start with the PNG signature.
    InvalidSignature,
    /// The optimisation engine failed; the text is its own description.
    EngineFailure(String),
}

/// The mathematical value of an [`UploadError`].
pub enum UploadErrorView {
    MalformedRequest,
    MissingField,
    WrongFieldType,
    InvalidSignature,
    EngineFailure(Seq<char>),
}

impl View for UploadError {
    type V = UploadErrorView;

    open spec fn view(&self) -> UploadErrorView {
        match self {
            UploadError::MalformedRequest => UploadErrorView::MalformedRequest,
            UploadError::MissingField => UploadErrorView::MissingField,
            UploadError::WrongFieldType => UploadErrorView::WrongFieldType,
            UploadError::InvalidSignature => UploadErrorView::InvalidSignature,
            UploadError::EngineFailure(text) => UploadErrorView::EngineFailure(text@),
        }
    }
}

impl UploadErrorView {
    /// The status code that reports the error: 500 where the engine failed,
    /// 400 where the request was at fault.
    pub open spec fn status(self) -> u16 {
        match self {
            UploadErrorView::EngineFailure(_) => 500,
            _ => 400,
        }
    }

    /// The message that reports the error.
    pub open spec fn message(self) -> Seq<char> {
        match self {
            UploadErrorView::MalformedRequest => "There was no Form-Data"@,
            UploadErrorView::MissingField => "There was no 'image' key in Form-Data"@,
            UploadErrorView::WrongFieldType => "Invalid file"@,
            UploadErrorView::InvalidSignature => "Invalid PNG header detected"@,
            UploadErrorView::EngineFailure(text) => text,
        }
    }

    /// The response that reports the error.
    pub open spec fn response(self) -> ResponseView {
        error_response(self.status(), self.message())
    }
}

impl UploadError {
    /// The status code that reports the error.
    pub fn status(&self) -> (status: u16)
        ensures
            status == self@.status(),
    {
        match self {
            UploadError::EngineFailure(_) => 500,
            _ => 400,
        }
    }

    /// The message that reports the error.
    pub fn message(&self) -> (message: String)
        ensures
            message@ == self@.message(),
    {
        match self {
            UploadError::MalformedRequest => String::from_str("There was no Form-Data"),
            UploadError::MissingField => String::from_str(
                "There was no 'image' key in Form-Data",
            ),
            UploadError::WrongFieldType => String::from_str("Invalid file"),
            UploadError::InvalidSignature => String::from_str("Invalid PNG header detected"),
            UploadError::EngineFailure(text) => text.clone(),
        }
    }

    /// The response that reports the error.
    pub fn into_response(self) -> (response: Response)
        ensures
            response@ == self@.response(),
    {
        let status = self.status();
        let message = match self {
            UploadError::EngineFailure(text) => text,
            other => other.message(),
        };
        Response::error(status, message)
    }
}

} // verus!
