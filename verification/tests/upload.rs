use png_edge::engine::{engine_verdict, optimize};
use png_edge::error::UploadError;
use png_edge::form::{FormEntry, UploadForm};
use png_edge::mode::OptimizationMode;
use png_edge::response::{Body, Header, Response};
use png_edge::upload::{begin_upload, check_form, finish_upload, respond, UploadStep};

/// An 8 by 8 image of one colour, stored without compression, so that the
/// engine has something to gain.
fn sample_png() -> Vec<u8> {
    vec![
        0x89, 0x50, 0x4E, 0x47, 0x0D, 0x0A, 0x1A, 0x0A, 0x00, 0x00, 0x00, 0x0D,
        0x49, 0x48, 0x44, 0x52, 0x00, 0x00, 0x00, 0x08, 0x00, 0x00, 0x00, 0x08,
        0x08, 0x06, 0x00, 0x00, 0x00, 0xC4, 0x0F, 0xBE, 0x8B, 0x00, 0x00, 0x01,
        0x13, 0x49, 0x44, 0x41, 0x54, 0x78, 0x01, 0x01, 0x08, 0x01, 0xF7, 0xFE,
        0x00, 0xC8, 0x1E, 0x1E, 0xFF, 0xC8, 0x1E, 0x1E, 0xFF, 0xC8, 0x1E, 0x1E,
        0xFF, 0xC8, 0x1E, 0x1E, 0xFF, 0xC8, 0x1E, 0x1E, 0xFF, 0xC8, 0x1E, 0x1E,
        0xFF, 0xC8, 0x1E, 0x1E, 0xFF, 0xC8, 0x1E, 0x1E, 0xFF, 0x00, 0xC8, 0x1E,
        0x1E, 0xFF, 0xC8, 0x1E, 0x1E, 0xFF, 0xC8, 0x1E, 0x1E, 0xFF, 0xC8, 0x1E,
        0x1E, 0xFF, 0xC8, 0x1E, 0x1E, 0xFF, 0xC8, 0x1E, 0x1E, 0xFF, 0xC8, 0x1E,
        0x1E, 0xFF, 0xC8, 0x1E, 0x1E, 0xFF, 0x00, 0xC8, 0x1E, 0x1E, 0xFF, 0xC8,
        0x1E, 0x1E, 0xFF, 0xC8, 0x1E, 0x1E, 0xFF, 0xC8, 0x1E, 0x1E, 0xFF, 0xC8,
        0x1E, 0x1E, 0xFF, 0xC8, 0x1E, 0x1E, 0xFF, 0xC8, 0x1E, 0x1E, 0xFF, 0xC8,
        0x1E, 0x1E, 0xFF, 0x00, 0xC8, 0x1E, 0x1E, 0xFF, 0xC8, 0x1E, 0x1E, 0xFF,
        0xC8, 0x1E, 0x1E, 0xFF, 0xC8, 0x1E, 0x1E, 0xFF, 0xC8, 0x1E, 0x1E, 0xFF,
        0xC8, 0x1E, 0x1E, 0xFF, 0xC8, 0x1E, 0x1E, 0xFF, 0xC8, 0x1E, 0x1E, 0xFF,
        0x00, 0xC8, 0x1E, 0x1E, 0xFF, 0xC8, 0x1E, 0x1E, 0xFF, 0xC8, 0x1E, 0x1E,
        0xFF, 0xC8, 0x1E, 0x1E, 0xFF, 0xC8, 0x1E, 0x1E, 0xFF, 0xC8, 0x1E, 0x1E,
        0xFF, 0xC8, 0x1E, 0x1E, 0xFF, 0xC8, 0x1E, 0x1E, 0xFF, 0x00, 0xC8, 0x1E,
        0x1E, 0xFF, 0xC8, 0x1E, 0x1E, 0xFF, 0xC8, 0x1E, 0x1E, 0xFF, 0xC8, 0x1E,
        0x1E, 0xFF, 0xC8, 0x1E, 0x1E, 0xFF, 0xC8, 0x1E, 0x1E, 0xFF, 0xC8, 0x1E,
        0x1E, 0xFF, 0xC8, 0x1E, 0x1E, 0xFF, 0x00, 0xC8, 0x1E, 0x1E, 0xFF, 0xC8,
        0x1E, 0x1E, 0xFF, 0xC8, 0x1E, 0x1E, 0xFF, 0xC8, 0x1E, 0x1E, 0xFF, 0xC8,
        0x1E, 0x1E, 0xFF, 0xC8, 0x1E, 0x1E, 0xFF, 0xC8, 0x1E, 0x1E, 0xFF, 0xC8,
        0x1E, 0x1E, 0xFF, 0x00, 0xC8, 0x1E, 0x1E, 0xFF, 0xC8, 0x1E, 0x1E, 0xFF,
        0xC8, 0x1E, 0x1E, 0xFF, 0xC8, 0x1E, 0x1E, 0xFF, 0xC8, 0x1E, 0x1E, 0xFF,
        0xC8, 0x1E, 0x1E, 0xFF, 0xC8, 0x1E, 0x1E, 0xFF, 0xC8, 0x1E, 0x1E, 0xFF,
        0x53, 0x46, 0x80, 0xC1, 0xF8, 0x75, 0x13, 0xF2, 0x00, 0x00, 0x00, 0x00,
        0x49, 0x45, 0x4E, 0x44, 0xAE, 0x42, 0x60, 0x82,
    ]
}

fn signature() -> Vec<u8> {
    vec![0x89, 0x50, 0x4E, 0x47, 0x0D, 0x0A, 0x1A, 0x0A]
}

fn error(status: u16, message: &str) -> Response {
    Response { status, headers: vec![], body: Body::Text(message.to_string()) }
}

fn image(bytes: Vec<u8>) -> Response {
    Response {
        status: 200,
        headers: vec![Header { name: "content-type".to_string(), value: "image/png".to_string() }],
        body: Body::Bytes(bytes),
    }
}

fn engine(bytes: &[u8], level: u8) -> Result<Vec<u8>, String> {
    oxipng::optimize_from_memory(bytes, &oxipng::Options::from_preset(level))
        .map_err(|e| e.to_string())
}

#[test]
fn upload_without_form_data_is_rejected() {
    assert_eq!(begin_upload(None), UploadStep::Respond(error(400, "There was no Form-Data")));
    assert_eq!(check_form(None), Err(UploadError::MalformedRequest));
}

#[test]
fn upload_without_image_key_is_rejected() {
    let form = UploadForm { image: None, mode: None };
    assert_eq!(
        begin_upload(Some(&form)),
        UploadStep::Respond(error(400, "There was no 'image' key in Form-Data"))
    );
    assert_eq!(check_form(Some(&form)), Err(UploadError::MissingField));
}

#[test]
fn upload_without_image_key_is_rejected_whatever_the_mode() {
    for mode in [
        Some(FormEntry::Field("3".to_string())),
        Some(FormEntry::Field("fast".to_string())),
        Some(FormEntry::File),
    ] {
        let form = UploadForm { image: None, mode };
        assert_eq!(
            begin_upload(Some(&form)),
            UploadStep::Respond(error(400, "There was no 'image' key in Form-Data"))
        );
    }
}

#[test]
fn upload_with_text_image_is_rejected() {
    let form = UploadForm { image: Some(FormEntry::Field("hello".to_string())), mode: None };
    assert_eq!(begin_upload(Some(&form)), UploadStep::Respond(error(400, "Invalid file")));
    assert_eq!(check_form(Some(&form)), Err(UploadError::WrongFieldType));
}

#[test]
fn upload_with_empty_text_image_is_rejected() {
    let form = UploadForm {
        image: Some(FormEntry::Field(String::new())),
        mode: Some(FormEntry::Field("1".to_string())),
    };
    assert_eq!(begin_upload(Some(&form)), UploadStep::Respond(error(400, "Invalid file")));
}

#[test]
fn upload_with_file_image_asks_for_its_bytes() {
    let form = UploadForm { image: Some(FormEntry::File), mode: None };
    assert_eq!(begin_upload(Some(&form)), UploadStep::ReadImage);
    assert_eq!(check_form(Some(&form)), Ok(()));
    let form = UploadForm { image: Some(FormEntry::File), mode: Some(FormEntry::File) };
    assert_eq!(begin_upload(Some(&form)), UploadStep::ReadImage);
}

#[test]
fn valid_png_without_mode_is_optimized_at_level_six() {
    let png = sample_png();
    let form = UploadForm { image: Some(FormEntry::File), mode: None };
    assert_eq!(begin_upload(Some(&form)), UploadStep::ReadImage);
    let response = finish_upload(form.mode.as_ref(), &png);
    let expected = engine(&png, 6).unwrap();
    assert_eq!(response.status, 200);
    assert_eq!(response.headers.len(), 1);
    assert_eq!(response.headers[0].name, "content-type");
    assert_eq!(response.headers[0].value, "image/png");
    assert_eq!(response.body, Body::Bytes(expected.clone()));
    assert_eq!(response, image(expected));
}

#[test]
fn optimized_image_differs_from_the_upload() {
    let png = sample_png();
    let response = finish_upload(None, &png);
    match response.body {
        Body::Bytes(bytes) => {
            assert_ne!(bytes, png);
            assert!(bytes.len() < png.len());
            assert_eq!(&bytes[0..8], &signature()[..]);
        }
        other => panic!("no image in the response: {:?}", other),
    }
}

#[test]
fn optimize_returns_what_the_engine_returns() {
    let png = sample_png();
    let levels = [
        (OptimizationMode::Level1, 1u8),
        (OptimizationMode::Level2, 2),
        (OptimizationMode::Level3, 3),
        (OptimizationMode::Level4, 4),
        (OptimizationMode::Level5, 5),
        (OptimizationMode::Level6, 6),
    ];
    for (mode, level) in levels {
        let result = optimize(&png, mode);
        assert_eq!(result, Ok(engine(&png, level).unwrap()));
        assert_ne!(result, Ok(png.clone()));
    }
}

#[test]
fn mode_field_selects_the_level_of_the_engine() {
    let png = sample_png();
    let mode = FormEntry::Field("1".to_string());
    let response = finish_upload(Some(&mode), &png);
    assert_eq!(response, image(engine(&png, 1).unwrap()));
}

#[test]
fn same_upload_twice_gives_the_same_bytes() {
    let png = sample_png();
    let mode = FormEntry::Field("4".to_string());
    let first = finish_upload(Some(&mode), &png);
    let second = finish_upload(Some(&mode), &png);
    assert_eq!(first, second);
    assert_eq!(first.status, 200);
}

#[test]
fn modes_with_the_same_effect_give_the_same_bytes() {
    let png = sample_png();
    let six = FormEntry::Field("6".to_string());
    let junk = FormEntry::Field("best".to_string());
    let file = FormEntry::File;
    let named = finish_upload(Some(&six), &png);
    assert_eq!(finish_upload(None, &png), named);
    assert_eq!(finish_upload(Some(&junk), &png), named);
    assert_eq!(finish_upload(Some(&file), &png), named);
}

#[test]
fn engine_failure_is_reported_with_status_500() {
    let verdict = engine_verdict(Err("corrupt chunk".to_string()));
    assert_eq!(verdict, Err(UploadError::EngineFailure("corrupt chunk".to_string())));
    let response = respond(verdict);
    assert_eq!(response.status, 500);
    assert_eq!(response.body, Body::Text("corrupt chunk".to_string()));
    assert_eq!(response, error(500, "corrupt chunk"));
}

#[test]
fn mode_three_with_a_failing_engine_is_reported_with_status_500() {
    let form = UploadForm {
        image: Some(FormEntry::File),
        mode: Some(FormEntry::Field("3".to_string())),
    };
    assert_eq!(begin_upload(Some(&form)), UploadStep::ReadImage);
    assert_eq!(png_edge::mode::select_mode(form.mode.as_ref()).level(), 3);
    let response = respond(engine_verdict(Err("corrupt chunk".to_string())));
    assert_eq!(response.status, 500);
    assert_eq!(response.body, Body::Text("corrupt chunk".to_string()));
}

#[test]
fn engine_success_is_passed_on() {
    let verdict = engine_verdict(Ok(vec![1, 2, 3]));
    assert_eq!(verdict, Ok(vec![1, 2, 3]));
    assert_eq!(respond(verdict), image(vec![1, 2, 3]));
}

#[test]
fn bare_signature_fails_in_the_engine() {
    let bytes = signature();
    let mode = FormEntry::Field("3".to_string());
    let response = finish_upload(Some(&mode), &bytes);
    let message = engine(&bytes, 3).unwrap_err();
    assert!(!message.is_empty());
    assert_eq!(response, error(500, &message));
    assert_eq!(optimize(&bytes, OptimizationMode::Level3), Err(UploadError::EngineFailure(message)));
}

#[test]
fn damaged_chunk_fails_in_the_engine() {
    let mut png = sample_png();
    png[29] ^= 0xFF;
    let response = finish_upload(None, &png);
    let message = engine(&png, 6).unwrap_err();
    assert_eq!(response.status, 500);
    assert_eq!(response.body, Body::Text(message));
    assert_eq!(response.headers, vec![]);
}

#[test]
fn wrong_first_bytes_are_rejected() {
    let mut png = sample_png();
    png[0] = 0x88;
    assert_eq!(finish_upload(None, &png), error(400, "Invalid PNG header detected"));
    for i in 0..8 {
        let mut png = sample_png();
        png[i] ^= 0x01;
        assert_eq!(finish_upload(None, &png), error(400, "Invalid PNG header detected"));
        assert_eq!(optimize(&png, OptimizationMode::Level2), Err(UploadError::InvalidSignature));
    }
}

#[test]
fn short_buffers_are_rejected() {
    let full = signature();
    for len in 0..8 {
        let response = finish_upload(None, &full[0..len]);
        assert_eq!(response, error(400, "Invalid PNG header detected"));
    }
    assert_eq!(finish_upload(None, &[]), error(400, "Invalid PNG header detected"));
}

#[test]
fn text_is_not_a_png() {
    let mode = FormEntry::Field("2".to_string());
    assert_eq!(
        finish_upload(Some(&mode), b"GIF89a, not a PNG at all"),
        error(400, "Invalid PNG header detected")
    );
}

#[test]
fn every_error_has_its_status_and_message() {
    let cases = [
        (UploadError::MalformedRequest, 400, "There was no Form-Data"),
        (UploadError::MissingField, 400, "There was no 'image' key in Form-Data"),
        (UploadError::WrongFieldType, 400, "Invalid file"),
        (UploadError::InvalidSignature, 400, "Invalid PNG header detected"),
        (UploadError::EngineFailure("out of memory".to_string()), 500, "out of memory"),
        (UploadError::EngineFailure(String::new()), 500, ""),
    ];
    for (error_kind, status, message) in cases {
        assert_eq!(error_kind.status(), status);
        assert_eq!(error_kind.message(), message);
        assert_eq!(respond(Err(error_kind.clone())), error(status, message));
        assert_eq!(error_kind.into_response(), error(status, message));
    }
}
