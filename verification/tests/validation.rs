use spux::errors::ValidationError;
use spux::types::validated_color;
use spux::types::Validation;

const MESSAGE: &str = "Color should be in the #hex format (e.g #000000) for black";

#[test]
fn accepts_black() {
    assert!(matches!("#000000".validate_color_code(), Ok(true)));
}

#[test]
fn accepts_mixed_case_and_non_hex_letters() {
    assert!(matches!("#GgZz09".validate_color_code(), Ok(true)));
    assert!(matches!("#ffffff".validate_color_code(), Ok(true)));
    assert!(matches!("#FFFFFF".validate_color_code(), Ok(true)));
}

#[test]
fn accepts_interspersed_hash() {
    // the filtering-then-counting looseness: a further # still counts
    assert!(matches!("#1#2345".validate_color_code(), Ok(true)));
}

#[test]
fn accepts_all_hashes() {
    assert!(matches!("#######".validate_color_code(), Ok(true)));
}

#[test]
fn accepts_non_ascii_alphanumeric() {
    // seven characters, and an accented letter is alphanumeric
    assert!(matches!("#aé0b1c".validate_color_code(), Ok(true)));
}

#[test]
fn rejects_missing_hash() {
    assert!("000000".validate_color_code().is_err());
}

#[test]
fn rejects_three_digit_form() {
    assert!("#fff".validate_color_code().is_err());
}

#[test]
fn rejects_punctuation() {
    // filtering the ! leaves only five alphanumeric characters
    assert!("#12345!".validate_color_code().is_err());
}

#[test]
fn rejects_space_in_tail() {
    assert!("#12 345".validate_color_code().is_err());
}

#[test]
fn rejects_empty() {
    assert!("".validate_color_code().is_err());
}

#[test]
fn rejects_too_long() {
    assert!("#0000000".validate_color_code().is_err());
}

#[test]
fn rejects_hash_alone() {
    assert!("#".validate_color_code().is_err());
}

#[test]
fn identical_messages_across_causes() {
    let missing_hash = "000000".validate_color_code().unwrap_err();
    let wrong_length = "#fff".validate_color_code().unwrap_err();
    let bad_tail = "#12345!".validate_color_code().unwrap_err();
    assert_eq!(missing_hash.message(), MESSAGE);
    assert_eq!(wrong_length.message(), MESSAGE);
    assert_eq!(bad_tail.message(), MESSAGE);
}

#[test]
fn error_carries_its_message() {
    let e = ValidationError::new("some message");
    assert_eq!(e.message(), "some message");
}

#[test]
fn validated_color_hands_back_the_candidate() {
    let r = validated_color("#1a2b3c");
    assert_eq!(r.unwrap(), "#1a2b3c");
}

#[test]
fn validated_color_reports_failure() {
    let r = validated_color("oops");
    assert_eq!(r.unwrap_err().message(), MESSAGE);
}
