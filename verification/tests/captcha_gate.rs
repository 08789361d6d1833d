use intake::captcha::{CaptchaConfig, CaptchaStart, interpret_response};

#[test]
fn empty_token_is_denied_without_a_request() {
    let c = CaptchaConfig::new(Some(String::from("shared-secret")));
    assert!(matches!(c.start(""), CaptchaStart::Denied));
}

#[test]
fn missing_secret_is_denied_without_a_request() {
    let c = CaptchaConfig::new(None);
    assert!(matches!(c.start("a-token"), CaptchaStart::Denied));
    assert!(matches!(c.start(""), CaptchaStart::Denied));
}

#[test]
fn request_carries_secret_and_token() {
    let c = CaptchaConfig::new(Some(String::from("shared-secret")));
    match c.start("the-token") {
        CaptchaStart::Request(q) => {
            assert_eq!(q.secret, "shared-secret");
            assert_eq!(q.response, "the-token");
        },
        CaptchaStart::Denied => panic!("a nonempty token with a secret must form a request"),
    }
}

#[test]
fn only_an_affirmative_success_field_verifies() {
    assert!(interpret_response(Some(true)));
    assert!(!interpret_response(Some(false)));
    assert!(!interpret_response(None));
}
