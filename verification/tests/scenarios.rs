use intake::service::{IntakeService, SubmitError};
use intake::media::MediaDecision;
use intake::store::public_path;

fn service() -> IntakeService {
    IntakeService::new(Some(String::from("shared-secret")))
}

#[test]
fn valid_submission_is_stored() {
    let mut svc = service();
    let r = svc.submit_message(
        "Ana P\u{e9}rez",
        "Hola, este es un mensaje de prueba v\u{e1}lido.",
        "a-token",
        Some(true),
    );
    assert_eq!(r, Ok(()));
    assert_eq!(svc.store.message_count(), 1);
    let (name, message) = svc.store.message_at(0);
    assert_eq!(name, "Ana P\u{e9}rez");
    assert_eq!(message, "Hola, este es un mensaje de prueba v\u{e1}lido.");
}

#[test]
fn short_name_is_rejected_before_any_write() {
    let mut svc = service();
    let r = svc.submit_message("Al", "Hola, este es un mensaje de prueba.", "a-token", Some(true));
    assert_eq!(r, Err(SubmitError::InvalidName));
    assert_eq!(svc.store.message_count(), 0);
}

#[test]
fn short_message_is_rejected_before_any_write() {
    let mut svc = service();
    let r = svc.submit_message("Ana", "corto", "a-token", Some(true));
    assert_eq!(r, Err(SubmitError::InvalidMessage));
    assert_eq!(svc.store.message_count(), 0);
}

#[test]
fn fields_are_sanitized_before_validation_and_storage() {
    let mut svc = service();
    let r = svc.submit_message(
        "  <Ana>  ",
        "Hola; este -- mensaje 'largo' <vale>.",
        "a-token",
        Some(true),
    );
    assert_eq!(r, Ok(()));
    let (name, message) = svc.store.message_at(0);
    assert_eq!(name, "  Ana  ");
    assert_eq!(message, "Hola este  mensaje largo vale.");
}

#[test]
fn missing_token_is_rejected_without_verification() {
    let mut svc = service();
    let r = svc.submit_message("Ana", "Hola, este es un mensaje.", "", Some(true));
    assert_eq!(r, Err(SubmitError::MissingCaptcha));
    assert_eq!(svc.store.message_count(), 0);
}

#[test]
fn failed_verification_rejects_the_submission() {
    let mut svc = service();
    for verdict in [Some(false), None] {
        let r = svc.submit_message("Ana", "Hola, este es un mensaje.", "a-token", verdict);
        assert_eq!(r, Err(SubmitError::CaptchaFailed));
    }
    assert_eq!(svc.store.message_count(), 0);
}

#[test]
fn missing_secret_fails_closed() {
    let mut svc = IntakeService::new(None);
    let r = svc.submit_message("Ana", "Hola, este es un mensaje.", "a-token", Some(true));
    assert_eq!(r, Err(SubmitError::CaptchaFailed));
    assert_eq!(svc.store.message_count(), 0);
}

#[test]
fn oversized_upload_leaves_no_record() {
    let mut svc = service();
    let six_mib = vec![0u8; 6 * 1024 * 1024];
    let r = svc.upload_image("image", "image/png", &six_mib);
    assert!(matches!(r, MediaDecision::Rejected(intake::media::UploadError::TooLarge)));
    assert_eq!(svc.store.media_count(), 0);
    assert!(svc.list_images().is_empty());
}

#[test]
fn accepted_upload_is_recorded_and_listed_first() {
    let mut svc = service();
    let ten_kib = vec![1u8; 10 * 1024];
    let filename = match svc.upload_image("image", "image/jpeg", &ten_kib) {
        MediaDecision::Accepted { filename, .. } => filename,
        _ => panic!("a 10 KiB jpeg must be accepted"),
    };
    assert!(filename.ends_with(".jpg"));
    assert_eq!(filename.len(), 40);
    assert_eq!(svc.store.media_count(), 1);
    let listed = svc.list_images();
    assert_eq!(listed.len(), 1);
    assert_eq!(listed[0], format!("/uploads/{}", filename));
}

#[test]
fn listing_is_most_recent_first() {
    let mut svc = service();
    let payload = vec![1u8; 64];
    let mut uploaded: Vec<String> = Vec::new();
    for ct in ["image/png", "image/webp", "image/jpeg"] {
        match svc.upload_image("image", ct, &payload) {
            MediaDecision::Accepted { filename, .. } => uploaded.push(filename),
            _ => panic!("small payloads of allowed types must be accepted"),
        }
    }
    let listed = svc.list_images();
    assert_eq!(listed.len(), 3);
    for (i, filename) in uploaded.iter().rev().enumerate() {
        assert_eq!(listed[i], format!("/uploads/{}", filename));
    }
}

#[test]
fn ignored_fields_touch_nothing() {
    let mut svc = service();
    let payload = vec![1u8; 64];
    assert!(matches!(svc.upload_image("file", "image/png", &payload), MediaDecision::Ignored));
    assert_eq!(svc.store.media_count(), 0);
}

#[test]
fn public_paths_carry_the_fixed_prefix() {
    assert_eq!(public_path("abc.png"), "/uploads/abc.png");
}
