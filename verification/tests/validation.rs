use intake::validate::{validate_name, validate_message, ValidationError};

#[test]
fn accepts_plain_and_accented_names() {
    assert_eq!(validate_name("Ana P\u{e9}rez"), Ok(()));
    assert_eq!(validate_name("Jos\u{e9} \u{d1}and\u{fa}"), Ok(()));
    assert_eq!(validate_name("\u{c1}\u{c9}\u{cd}\u{d3}\u{da}\u{e1}\u{e9}\u{ed}\u{f3}\u{fa}"), Ok(()));
    assert_eq!(validate_name("abc"), Ok(()));
}

#[test]
fn rejects_short_and_long_names() {
    assert_eq!(validate_name("Al"), Err(ValidationError::InvalidName));
    assert_eq!(validate_name(""), Err(ValidationError::InvalidName));
    assert_eq!(validate_name(&"a".repeat(50)), Ok(()));
    assert_eq!(validate_name(&"a".repeat(51)), Err(ValidationError::InvalidName));
}

#[test]
fn name_length_counts_the_trimmed_text() {
    assert_eq!(validate_name("  Ana  "), Ok(()));
    assert_eq!(validate_name("  Al  "), Err(ValidationError::InvalidName));
    assert_eq!(validate_name("   "), Err(ValidationError::InvalidName));
    // 50 letters surrounded by whitespace still passes
    let padded = format!("  {}  ", "a".repeat(50));
    assert_eq!(validate_name(&padded), Ok(()));
}

#[test]
fn rejects_names_with_other_characters() {
    assert_eq!(validate_name("Ana3"), Err(ValidationError::InvalidName));
    assert_eq!(validate_name("Ana_Perez"), Err(ValidationError::InvalidName));
    assert_eq!(validate_name("Ana.Perez"), Err(ValidationError::InvalidName));
    assert_eq!(validate_name("Fran\u{e7}ois"), Err(ValidationError::InvalidName));
}

#[test]
fn message_length_bounds() {
    assert_eq!(validate_message("x".repeat(10).as_str()), Ok(()));
    assert_eq!(validate_message("x".repeat(9).as_str()), Err(ValidationError::InvalidMessage));
    assert_eq!(validate_message("x".repeat(500).as_str()), Ok(()));
    assert_eq!(validate_message("x".repeat(501).as_str()), Err(ValidationError::InvalidMessage));
    assert_eq!(validate_message(""), Err(ValidationError::InvalidMessage));
}

#[test]
fn message_length_counts_the_trimmed_text() {
    assert_eq!(validate_message("  123456789  "), Err(ValidationError::InvalidMessage));
    assert_eq!(validate_message("  1234567890  "), Ok(()));
    let padded = format!("  {}  ", "x".repeat(500));
    assert_eq!(validate_message(&padded), Ok(()));
}

#[test]
fn message_characters_are_unrestricted() {
    assert_eq!(validate_message("hola, 1234 + &*() ok"), Ok(()));
}
