use intake::media::{accept, MediaDecision, UploadError, MAX_IMAGE_BYTES};
use std::collections::HashSet;

fn small_payload() -> Vec<u8> {
    vec![7u8; 1024]
}

#[test]
fn other_fields_are_ignored() {
    assert!(matches!(accept("avatar", "image/png", &small_payload()), MediaDecision::Ignored));
    assert!(matches!(accept("", "image/png", &small_payload()), MediaDecision::Ignored));
}

#[test]
fn unsupported_content_types_are_rejected() {
    for ct in ["image/gif", "image/bmp", "text/html", "application/pdf", "", "IMAGE/PNG"] {
        let r = accept("image", ct, &small_payload());
        assert!(matches!(r, MediaDecision::Rejected(UploadError::UnsupportedType)));
    }
}

#[test]
fn oversized_payloads_are_rejected() {
    let six_mib = vec![0u8; 6 * 1024 * 1024];
    let r = accept("image", "image/png", &six_mib);
    assert!(matches!(r, MediaDecision::Rejected(UploadError::TooLarge)));
}

#[test]
fn the_ceiling_itself_is_accepted() {
    let at_limit = vec![0u8; MAX_IMAGE_BYTES];
    assert!(matches!(accept("image", "image/webp", &at_limit), MediaDecision::Accepted { .. }));
    let over = vec![0u8; MAX_IMAGE_BYTES + 1];
    assert!(matches!(
        accept("image", "image/webp", &over),
        MediaDecision::Rejected(UploadError::TooLarge)
    ));
}

#[test]
fn the_type_check_precedes_the_size_check() {
    // an oversized payload of an unsupported type earns UnsupportedType
    let six_mib = vec![0u8; 6 * 1024 * 1024];
    let r = accept("image", "image/gif", &six_mib);
    assert!(matches!(r, MediaDecision::Rejected(UploadError::UnsupportedType)));
}

fn accepted_filename(content_type: &str) -> String {
    match accept("image", content_type, &small_payload()) {
        MediaDecision::Accepted { filename, .. } => filename,
        _ => panic!("a small payload of an allowed type must be accepted"),
    }
}

#[test]
fn accepted_uploads_get_the_implied_extension() {
    assert!(accepted_filename("image/jpeg").ends_with(".jpg"));
    assert!(accepted_filename("image/jpg").ends_with(".jpg"));
    assert!(accepted_filename("image/png").ends_with(".png"));
    assert!(accepted_filename("image/webp").ends_with(".webp"));
}

#[test]
fn generated_filenames_have_the_identifier_shape() {
    let f = accepted_filename("image/jpeg");
    assert_eq!(f.len(), 40);
    let id: Vec<char> = f.chars().take(36).collect();
    for (i, c) in id.iter().enumerate() {
        if i == 8 || i == 13 || i == 18 || i == 23 {
            assert_eq!(*c, '-');
        } else {
            assert!(c.is_ascii_hexdigit() && !c.is_ascii_uppercase());
        }
    }
}

#[test]
fn generated_filenames_never_collide() {
    let mut seen: HashSet<String> = HashSet::new();
    for _ in 0..500 {
        let f = accepted_filename("image/png");
        assert!(seen.insert(f), "two uploads drew the same filename");
    }
}
