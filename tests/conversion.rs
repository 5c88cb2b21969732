use base64::Engine;
use cwebp_api::convert::{artifact_name, plan_conversion, tool_outcome, ToolRun};
use cwebp_api::errors::{ApiError, AuthKind, ValidationKind};
use cwebp_api::ingest::{Ingest, UploadedImage};
use cwebp_api::options::{cwebp_args, ConversionOptions, ConvertParams, ResponseKind};
use cwebp_api::params::parse_params;
use cwebp_api::response::{
    base64_response, check_identifier, content_disposition, conversion_response,
    image_content_type, link_response, ConvertResponse,
};

fn upload(name: &str, bytes: Vec<u8>) -> UploadedImage {
    UploadedImage { bytes, filename: name.to_string() }
}

#[test]
fn args_carry_numeric_settings() {
    let o = ConversionOptions {
        lossless: false,
        quality: 90,
        near_lossless: 100,
        compression_level: 9,
        preset: None,
        method: 6,
    };
    let args = cwebp_args(&o, "/tmp/in", "/store/cat.webp");
    assert_eq!(
        args,
        vec!["-q", "90", "-near_lossless", "100", "-z", "9", "-m", "6", "/tmp/in", "-o", "/store/cat.webp"]
    );
}

#[test]
fn args_with_lossless_and_preset() {
    let o = ConversionOptions {
        lossless: true,
        quality: 0,
        near_lossless: 60,
        compression_level: 0,
        preset: Some("photo".to_string()),
        method: 0,
    };
    let args = cwebp_args(&o, "in", "out");
    assert_eq!(
        args,
        vec!["-lossless", "-q", "0", "-near_lossless", "60", "-z", "0", "-preset", "photo", "-m", "0", "in", "-o", "out"]
    );
}

#[test]
fn args_for_defaults() {
    let args = cwebp_args(&ConversionOptions::default(), "a", "b");
    assert_eq!(args, vec!["-q", "80", "-near_lossless", "100", "-z", "6", "-m", "4", "a", "-o", "b"]);
}

#[test]
fn artifact_name_takes_part_before_first_dot() {
    assert_eq!(artifact_name("cat.png"), "cat.webp");
    assert_eq!(artifact_name("archive.tar.gz"), "archive.webp");
    assert_eq!(artifact_name("noext"), "noext.webp");
    assert_eq!(artifact_name(".hidden"), ".webp");
    assert_eq!(artifact_name(""), ".webp");
}

#[test]
fn plan_for_cat_png() {
    let mut params = ConvertParams::default();
    params.quality = 90;
    let plan = plan_conversion(&upload("cat.png", vec![1, 2, 3]), &params, "/store", "/tmp/x").unwrap();
    assert_eq!(plan.output_filename, "cat.webp");
    assert_eq!(plan.output_path, "/store/cat.webp");
    assert_eq!(plan.args[0], "-q");
    assert_eq!(plan.args[1], "90");
    assert_eq!(plan.args[plan.args.len() - 1], "/store/cat.webp");
    assert_eq!(plan.args[plan.args.len() - 3], "/tmp/x");
}

#[test]
fn plan_refuses_names_leaving_the_store() {
    let params = ConvertParams::default();
    let r = plan_conversion(&upload("../../etc/x", vec![1]), &params, "/store", "/tmp/x");
    assert_eq!(r.unwrap().output_filename, ".webp");
    let r = plan_conversion(&upload("sub/dir.png", vec![1]), &params, "/store", "/tmp/x");
    assert!(matches!(r, Err(ApiError::Validation(ValidationKind::InvalidIdentifier))));
    let r = plan_conversion(&upload("a\\b.png", vec![1]), &params, "/store", "/tmp/x");
    assert!(matches!(r, Err(ApiError::Validation(ValidationKind::InvalidIdentifier))));
}

#[test]
fn tool_outcomes() {
    assert!(tool_outcome(ToolRun::Exited { success: true, stderr: String::new() }).is_ok());
    match tool_outcome(ToolRun::Exited { success: false, stderr: "bad input".to_string() }) {
        Err(ApiError::ToolFailed(m)) => assert_eq!(m, "bad input"),
        other => panic!("unexpected {:?}", other),
    }
    assert!(matches!(tool_outcome(ToolRun::Unavailable), Err(ApiError::ToolUnavailable)));
    let e = tool_outcome(ToolRun::Exited { success: false, stderr: "oops".to_string() }).unwrap_err();
    assert_eq!(e.status(), 500);
    assert_eq!(e.to_response().message, "Conversion failed: cwebp conversion failed: oops");
    let e = tool_outcome(ToolRun::Unavailable).unwrap_err();
    assert_eq!(e.to_response().error, "Internal Server Error");
}

#[test]
fn link_response_fields() {
    let r = link_response("cat.webp", "localhost:3333", "t0".to_string());
    assert!(r.success);
    assert_eq!(r.response_type, "webp");
    assert_eq!(r.file_id, "cat.webp");
    assert_eq!(r.filename, "cat.webp");
    assert_eq!(r.url, "/api/images/cat.webp");
    assert_eq!(r.full_url, "http://localhost:3333/api/images/cat.webp");
    assert_eq!(r.timestamp, "t0");
}

#[test]
fn link_round_trip_identifier_is_retrievable() {
    let params = ConvertParams::default();
    let plan = plan_conversion(&upload("photo.jpeg", vec![9]), &params, "/store", "/tmp/in").unwrap();
    let r = link_response(&plan.output_filename, "h", "t".to_string());
    let id = r.url.strip_prefix("/api/images/").unwrap();
    assert!(check_identifier(id).is_ok());
    assert_eq!(format!("/store/{}", id), plan.output_path);
}

#[test]
fn base64_response_decodes_to_artifact() {
    let artifact: Vec<u8> = (0u32..1000).map(|i| (i * 7 % 256) as u8).collect();
    let r = base64_response(&artifact, "cat.webp", "t".to_string());
    assert!(r.success);
    assert_eq!(r.response_type, "base64");
    assert_eq!(r.format, "webp");
    assert_eq!(r.filename, "cat.webp");
    let decoded = base64::engine::general_purpose::STANDARD.decode(r.data.as_bytes()).unwrap();
    assert_eq!(decoded, artifact);
}

#[test]
fn base64_exact_value() {
    let r = base64_response(b"hello", "x.webp", "t".to_string());
    assert_eq!(r.data, "aGVsbG8=");
    let r = base64_response(b"", "x.webp", "t".to_string());
    assert_eq!(r.data, "");
}

#[test]
fn scenario_convert_cat_png_base64() {
    let mut ingest = Ingest::new(100 * 1024 * 1024);
    ingest.begin_image();
    let image = vec![0x89u8; 5 * 1024];
    for chunk in image.chunks(1000) {
        ingest.push_image_chunk(chunk).unwrap();
    }
    ingest.end_image(Some("cat.png".to_string()));
    ingest.accept_params(br#"{"quality":90,"response_type":"base64"}"#).unwrap();
    let (up, params) = ingest.finish().unwrap();
    assert_eq!(up.bytes.len(), 5 * 1024);
    assert_eq!(params.response_kind(), ResponseKind::Embedded);
    let plan = plan_conversion(&up, &params, "/store", "/tmp/in").unwrap();
    assert_eq!(plan.args[1], "90");
    assert!(tool_outcome(ToolRun::Exited { success: true, stderr: String::new() }).is_ok());
    let artifact = b"RIFF....WEBPVP8 ".to_vec();
    match conversion_response(params.response_kind(), &plan.output_filename, "h", &artifact, "t".to_string()) {
        ConvertResponse::Embedded(e) => {
            assert!(e.success);
            assert_eq!(e.response_type, "base64");
            assert_eq!(e.format, "webp");
            assert_eq!(e.filename, "cat.webp");
            assert_eq!(base64::engine::general_purpose::STANDARD.decode(&e.data).unwrap(), artifact);
        }
        ConvertResponse::Link(_) => panic!("expected an embedded answer"),
    }
}

#[test]
fn scenario_get_cat_webp() {
    assert!(check_identifier("cat.webp").is_ok());
    assert_eq!(image_content_type(), "image/webp");
    assert_eq!(content_disposition("cat.webp"), "inline; filename=\"cat.webp\"");
}

#[test]
fn scenario_missing_image_not_found() {
    assert!(check_identifier("missing.webp").is_ok());
    let e = ApiError::NotFound;
    assert_eq!(e.status(), 404);
    let doc = e.to_response();
    assert!(!doc.success);
    assert_eq!(doc.error, "File not found");
    assert_eq!(doc.message, "The requested image file does not exist");
}

#[test]
fn identifier_with_separator_is_refused() {
    let e = check_identifier("../secret").unwrap_err();
    assert!(matches!(e, ApiError::Validation(ValidationKind::InvalidIdentifier)));
    assert_eq!(e.status(), 400);
    assert!(check_identifier("a\\b").is_err());
}

#[test]
fn link_is_default_and_case_insensitive() {
    let mut p = ConvertParams::default();
    assert_eq!(p.response_kind(), ResponseKind::Link);
    p.response_type = "BASE64".to_string();
    assert_eq!(p.response_kind(), ResponseKind::Embedded);
    p.response_type = "Base64".to_string();
    assert_eq!(p.response_kind(), ResponseKind::Embedded);
    p.response_type = "png".to_string();
    assert_eq!(p.response_kind(), ResponseKind::Link);
}

#[test]
fn auth_error_documents() {
    let d = ApiError::Auth(AuthKind::MissingKey).to_response();
    assert_eq!((d.error.as_str(), d.message.as_str()), ("Unauthorized", "API Key is required"));
    let d = ApiError::Auth(AuthKind::InvalidKey).to_response();
    assert_eq!(d.message, "Invalid API Key");
    assert_eq!(ApiError::Auth(AuthKind::InvalidKey).status(), 401);
}

#[test]
fn params_parse_errors() {
    assert!(parse_params(b"not json").is_err());
    assert!(parse_params(b"[1,2]").is_err());
    assert!(parse_params(br#"{"quality":300}"#).is_err());
    assert!(parse_params(br#"{"quality":-1}"#).is_err());
    assert!(parse_params(br#"{"quality":80.5}"#).is_err());
    assert!(parse_params(br#"{"lossless":"yes"}"#).is_err());
    assert!(parse_params(br#"{"method":null}"#).is_err());
    let e = parse_params(br#"{"preset":3}"#).unwrap_err();
    assert!(matches!(e, ApiError::Validation(ValidationKind::MalformedOptions)));
}

#[test]
fn params_defaults_and_values() {
    let p = parse_params(b"{}").unwrap();
    assert_eq!((p.lossless, p.quality, p.near_lossless, p.compression_level, p.method), (false, 80, 100, 6, 4));
    assert_eq!(p.preset, None);
    assert_eq!(p.response_type, "webp");
    let p = parse_params(
        br#"{"lossless":true,"quality":0,"near_lossless":40,"compression_level":9,"preset":"drawing","method":6,"response_type":"base64","other":[1]}"#,
    )
    .unwrap();
    assert_eq!((p.lossless, p.quality, p.near_lossless, p.compression_level, p.method), (true, 0, 40, 9, 6));
    assert_eq!(p.preset.as_deref(), Some("drawing"));
    assert_eq!(p.response_type, "base64");
    let p = parse_params(br#"{"preset":null}"#).unwrap();
    assert_eq!(p.preset, None);
}
