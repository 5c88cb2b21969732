use cwebp_api::errors::{ApiError, ValidationKind};
use cwebp_api::ingest::Ingest;

#[test]
fn oversize_upload_fails_before_buffering_past_ceiling() {
    let mut ingest = Ingest::new(10);
    ingest.begin_image();
    assert!(ingest.push_image_chunk(&[1, 2, 3, 4]).is_ok());
    assert!(ingest.push_image_chunk(&[5, 6, 7, 8, 9, 10]).is_ok());
    assert_eq!(ingest.receiving.len(), 10);
    let e = ingest.push_image_chunk(&[11]).unwrap_err();
    assert!(matches!(e, ApiError::Validation(ValidationKind::SizeExceeded { limit: 10 })));
    assert_eq!(ingest.receiving.len(), 10);
    assert_eq!(e.status(), 400);
    assert_eq!(e.to_response().message, "Image size exceeds maximum limit of 10 bytes");
}

#[test]
fn single_huge_chunk_is_refused() {
    let mut ingest = Ingest::new(3);
    ingest.begin_image();
    assert!(ingest.push_image_chunk(&[0; 4]).is_err());
    assert_eq!(ingest.receiving.len(), 0);
}

#[test]
fn exactly_ceiling_is_accepted() {
    let mut ingest = Ingest::new(4);
    ingest.begin_image();
    assert!(ingest.push_image_chunk(&[0; 4]).is_ok());
    ingest.end_image(Some("a.png".to_string()));
    let (up, _) = ingest.finish().unwrap();
    assert_eq!(up.bytes, vec![0; 4]);
    assert_eq!(up.filename, "a.png");
}

#[test]
fn zero_ceiling_refuses_any_byte() {
    let mut ingest = Ingest::new(0);
    ingest.begin_image();
    assert!(ingest.push_image_chunk(&[]).is_ok());
    assert!(ingest.push_image_chunk(&[1]).is_err());
}

#[test]
fn missing_image_and_filename() {
    let ingest = Ingest::new(100);
    assert!(matches!(ingest.finish(), Err(ApiError::Validation(ValidationKind::MissingImage))));
    let mut ingest = Ingest::new(100);
    ingest.begin_image();
    ingest.push_image_chunk(&[1]).unwrap();
    ingest.end_image(None);
    let e = ingest.finish().unwrap_err();
    assert!(matches!(e, ApiError::Validation(ValidationKind::MissingFilename)));
    assert_eq!(e.to_response().message, "No filename provided");
}

#[test]
fn no_params_part_gives_defaults() {
    let mut ingest = Ingest::new(100);
    ingest.begin_image();
    ingest.end_image(Some("x.png".to_string()));
    let (_, p) = ingest.finish().unwrap();
    assert_eq!((p.quality, p.near_lossless, p.compression_level, p.method), (80, 100, 6, 4));
    assert!(!p.lossless);
    assert_eq!(p.response_type, "webp");
}

#[test]
fn malformed_params_part() {
    let mut ingest = Ingest::new(100);
    let e = ingest.accept_params(b"{quality:").unwrap_err();
    assert!(matches!(e, ApiError::Validation(ValidationKind::MalformedOptions)));
    assert!(ingest.params.is_none());
}

#[test]
fn later_image_part_replaces_earlier() {
    let mut ingest = Ingest::new(100);
    ingest.begin_image();
    ingest.push_image_chunk(&[1, 1]).unwrap();
    ingest.end_image(Some("a.png".to_string()));
    ingest.begin_image();
    ingest.push_image_chunk(&[2]).unwrap();
    ingest.end_image(Some("b.png".to_string()));
    let (up, _) = ingest.finish().unwrap();
    assert_eq!(up.bytes, vec![2]);
    assert_eq!(up.filename, "b.png");
}
