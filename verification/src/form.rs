//! The parts of a multipart form that the upload handler looks at.

use vstd::prelude::*;

verus! {

/// The form key under which the PNG file is uploaded.
pub const IMAGE_FIELD: &'static str = "image";

/// The form key under which the optimisation mode may be given.
pub const MODE_FIELD: &'static str = "mode";

/// One value of a multipart form.
#[derive(Clone, Debug, PartialEq, Eq)]
pub enum FormEntry {
    /// A plain text field with its text.
    Field(String),
    /// A file part. Its bytes are read separately, once the handler asks for them.
    File,
}

/// The mathematical value of a [`FormEntry`].
pub enum FormEntryView {
    Field(Seq<char>),
    File,
}

impl View for FormEntry {
    type V = FormEntryView;

    open spec fn view(&self) -> FormEntryView {
        match self {
            FormEntry::Field(text) => FormEntryView::Field(text@),
            FormEntry::File => FormEntryView::File,
        }
    }
}

/// What a parsed upload form holds under the two keys that matter, each the
/// first value of its key or `None` where the key is absent.
#[derive(Clone, Debug, PartialEq, Eq)]
pub struct UploadForm {
    pub image: Option<FormEntry>,
    pub mode: Option<FormEntry>,
}

/// The mathematical value of an [`UploadForm`].
pub struct UploadFormView {
    pub image: Option<FormEntryView>,
    pub mode: Option<FormEntryView>,
}

/// The mathematical value of an optional form entry.
pub open spec fn entry_view(entry: Option<FormEntry>) -> Option<FormEntryView> {
    match entry {
        Some(e) => Some(e@),
        None => None,
    }
}

impl View for UploadForm {
    type V = UploadFormView;

    open spec fn view(&self) -> UploadFormView {
        UploadFormView { image: entry_view(self.image), mode: entry_view(self.mode) }
    }
}

} // verus!
