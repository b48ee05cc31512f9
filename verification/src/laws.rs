//! What holds of the handlers on every request, stated over their models.

use vstd::prelude::*;
use crate::chunks::engine_admits;
use crate::cors::CorsPolicyView;
use crate::cors::lemma_service_headers;
use crate::cors::policy_headers;
use crate::cors::service_headers;
use crate::cors::service_policy;
use crate::engine::engine_outcome;
use crate::engine::optimized;
use crate::form::FormEntryView;
use crate::form::UploadFormView;
use crate::mode::OptimizationMode;
use crate::mode::mode_of_text;
use crate::mode::names_level;
use crate::mode::selected_mode;
use crate::preflight::negotiates;
use crate::preflight::preflight_reply;
use crate::response::BodyView;
use crate::response::empty_response;
use crate::response::error_response;
use crate::response::image_response;
use crate::signature::png_signature;
use crate::signature::starts_with_signature;
use crate::upload::image_reply;
use crate::upload::upload_reply;

verus! {

/// A body that is no multipart form data is answered with status 400 and
/// the message "There was no Form-Data", whatever else the request holds.
pub proof fn law_no_form_data(image: Seq<u8>)
    ensures
        upload_reply(None, image) == error_response(400, "There was no Form-Data"@),
{
}

/// Every upload whose form has no value under the image key is answered
/// with status 400 and the message "There was no 'image' key in Form-Data",
/// whatever the form holds under the mode key.
pub proof fn law_missing_image(form: UploadFormView, image: Seq<u8>)
    requires
        form.image is None,
    ensures
        upload_reply(Some(form), image) == error_response(
            400,
            "There was no 'image' key in Form-Data"@,
        ),
{
}

/// Every upload whose form holds a text field under the image key is
/// answered with status 400 and the message "Invalid file", whatever the
/// text is.
pub proof fn law_text_image(form: UploadFormView, image: Seq<u8>)
    requires
        form.image is Some,
        form.image->0 is Field,
    ensures
        upload_reply(Some(form), image) == error_response(400, "Invalid file"@),
{
}

/// Every uploaded file whose first eight bytes are not the PNG signature, a
/// file of fewer than eight bytes among them, is answered with status 400
/// and the message "Invalid PNG header detected", whatever the mode.
pub proof fn law_invalid_signature(form: UploadFormView, image: Seq<u8>)
    requires
        form.image == Some(FormEntryView::File),
        !starts_with_signature(image),
    ensures
        upload_reply(Some(form), image) == error_response(400, "Invalid PNG header detected"@),
{
}

/// A file of fewer than eight bytes never starts with the PNG signature,
/// and a file of eight bytes or more does so exactly when its first eight
/// bytes are `89 50 4E 47 0D 0A 1A 0A`.
pub proof fn law_signature(image: Seq<u8>)
    ensures
        image.len() < 8 ==> !starts_with_signature(image),
        image.len() >= 8 ==> (starts_with_signature(image) <==> image[0] == 0x89 && image[1]
            == 0x50 && image[2] == 0x4E && image[3] == 0x47 && image[4] == 0x0D && image[5]
            == 0x0A && image[6] == 0x1A && image[7] == 0x0A),
{
    if image.len() >= 8 {
        let head = image.subrange(0, 8);
        assert(head[0] == image[0] && head[1] == image[1] && head[2] == image[2] && head[3]
            == image[3] && head[4] == image[4] && head[5] == image[5] && head[6] == image[6]
            && head[7] == image[7]);
        if image[0] == 0x89 && image[1] == 0x50 && image[2] == 0x4E && image[3] == 0x47
            && image[4] == 0x0D && image[5] == 0x0A && image[6] == 0x1A && image[7] == 0x0A {
            assert(head =~= png_signature());
        }
    }
}

/// Every value under the mode key that is not one of the texts "1" to "6",
/// an absent value and a file among them, selects level 6.
pub proof fn law_mode_fallback(mode: Option<FormEntryView>)
    requires
        !(mode matches Some(FormEntryView::Field(text)) && names_level(text)),
    ensures
        selected_mode(mode) == OptimizationMode::Level6,
        selected_mode(mode).level_spec() == 6,
{
}

/// Every uploaded file that starts with the PNG signature and whose chunks
/// the engine cannot be given is answered with status 500 and a fixed
/// message, whatever the mode, and the engine's own outcome plays no part.
pub proof fn law_refused_image(form: UploadFormView, image: Seq<u8>)
    requires
        form.image == Some(FormEntryView::File),
        starts_with_signature(image),
        !engine_admits(image),
    ensures
        upload_reply(Some(form), image) == error_response(
            500,
            "Malformed or oversized PNG chunk detected"@,
        ),
{
}

/// The mode in effect is always one of the six levels, and a text from "1"
/// to "6" selects the level that it names.
pub proof fn law_mode_in_range(mode: Option<FormEntryView>)
    ensures
        1 <= selected_mode(mode).level_spec() <= 6,
        mode matches Some(FormEntryView::Field(text)) ==> (names_level(text) ==> mode_of_text(
            text,
        ) == Some(selected_mode(mode))),
{
}

/// The response to an upload depends on the bytes of the image and on the
/// mode in effect and on nothing else: the same image at the same level is
/// answered byte for byte the same, however the mode was written.
pub proof fn law_same_image_same_reply(
    first: Option<FormEntryView>,
    second: Option<FormEntryView>,
    image: Seq<u8>,
)
    requires
        selected_mode(first) == selected_mode(second),
    ensures
        image_reply(first, image) == image_reply(second, image),
{
}

/// An upload is answered either with an image, status 200 and the header
/// `content-type: image/png`, or with a plain-text message and the status
/// 400 or 500: there is no third kind of response. Status 500 comes only
/// for a file that starts with the signature, and then either from a
/// failure of the engine or from an image that the engine is not given.
pub proof fn law_image_or_error(form: Option<UploadFormView>, image: Seq<u8>)
    ensures
        ({
            let response = upload_reply(form, image);
            ||| (exists|bytes: Seq<u8>| response == image_response(bytes))
            ||| (exists|message: Seq<char>| response == error_response(400, message))
            ||| (exists|message: Seq<char>| response == error_response(500, message))
        }),
        upload_reply(form, image).status == 500 ==> form is Some && form->0.image == Some(
            FormEntryView::File,
        ) && starts_with_signature(image) && (!engine_admits(image) || engine_outcome(
            image,
            selected_mode(form->0.mode).level_spec(),
        ) is Err),
{
    let response = upload_reply(form, image);
    match form {
        None => {
            assert(response == error_response(400, "There was no Form-Data"@));
        },
        Some(f) => match f.image {
            None => {
                assert(response == error_response(400, "There was no 'image' key in Form-Data"@));
            },
            Some(FormEntryView::Field(_)) => {
                assert(response == error_response(400, "Invalid file"@));
            },
            Some(FormEntryView::File) => match optimized(image, selected_mode(f.mode)) {
                Ok(bytes) => {
                    assert(response == image_response(bytes));
                },
                Err(error) => {
                    assert(response == error_response(error.status(), error.message()));
                },
            },
        },
    }
}

/// A request on the preflight route that carries all three preflight
/// headers receives the header lines of the policy, and a request that
/// lacks any one of them receives the empty response without any header.
pub proof fn law_preflight(
    origin: Option<Seq<char>>,
    request_method: Option<Seq<char>>,
    request_headers: Option<Seq<char>>,
    policy: CorsPolicyView,
)
    ensures
        origin is Some && request_method is Some && request_headers is Some ==> preflight_reply(
            negotiates(origin, request_method, request_headers),
            policy,
        ).headers == policy_headers(policy),
        origin is None || request_method is None || request_headers is None ==> preflight_reply(
            negotiates(origin, request_method, request_headers),
            policy,
        ) == empty_response(),
        preflight_reply(negotiates(origin, request_method, request_headers), policy).body
            == BodyView::Empty,
        policy_headers(service_policy()) == service_headers(),
        1 <= policy_headers(policy).len() <= 3,
        empty_response().headers.len() == 0,
{
    lemma_service_headers();
}

} // verus!
