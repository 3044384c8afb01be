use omnitensor_node::validation::{
    check_format, consensus_verdict, is_valid_format, storage_verdict, DataItem, ValidationError,
    ValidationResult, MAX_IMAGE_BYTES, MAX_TEXT_BYTES,
};

fn agreed() -> ValidationResult {
    ValidationResult { is_valid: true, confidence_bits: 0.95f64.to_bits(), validator_count: 10 }
}

fn validate(
    data: &DataItem,
    consensus: Option<ValidationResult>,
    stored: Result<(), String>,
) -> Result<ValidationResult, ValidationError> {
    check_format(data)?;
    let result = consensus_verdict(consensus)?;
    storage_verdict(result, stored)
}

#[test]
fn test_validate_data_success() {
    let result = validate(&DataItem::Text("Valid data".to_string()), Some(agreed()), Ok(()));
    assert!(result.is_ok());
    assert!(result.unwrap().is_valid);
}

#[test]
fn test_validate_data_invalid_format() {
    let result = validate(&DataItem::Text("".to_string()), Some(agreed()), Ok(()));
    assert!(matches!(result, Err(ValidationError::InvalidFormat)));
}

#[test]
fn test_validate_data_consensus_failure() {
    let result = validate(&DataItem::Text("Valid data".to_string()), None, Ok(()));
    assert!(matches!(result, Err(ValidationError::ConsensusFailure)));
}

#[test]
fn a_result_that_cannot_be_stored_is_a_database_error() {
    let result = validate(
        &DataItem::Text("Valid data".to_string()),
        Some(agreed()),
        Err("disk full".to_string()),
    );
    assert_eq!(result, Err(ValidationError::DatabaseError("disk full".to_string())));
}

#[test]
fn the_result_of_a_validation_is_the_one_agreed_on() {
    let doubtful = ValidationResult { is_valid: false, confidence_bits: 7, validator_count: 3 };
    assert_eq!(consensus_verdict(Some(doubtful)), Ok(doubtful));
    assert_eq!(storage_verdict(doubtful, Ok(())), Ok(doubtful));
    assert_eq!(f64::from_bits(agreed().confidence_bits), 0.95);
}

#[test]
fn text_is_limited_in_bytes() {
    assert!(is_valid_format(&DataItem::Text("a".to_string())));
    assert!(is_valid_format(&DataItem::Text("a".repeat(MAX_TEXT_BYTES))));
    assert!(!is_valid_format(&DataItem::Text("a".repeat(MAX_TEXT_BYTES + 1))));
    assert!(!is_valid_format(&DataItem::Text(String::new())));
    assert_eq!(MAX_TEXT_BYTES, 1000);
    // 500 two-byte characters fit, 501 do not, though both are under 1000 characters.
    assert!(is_valid_format(&DataItem::Text("\u{e9}".repeat(500))));
    assert!(!is_valid_format(&DataItem::Text("\u{e9}".repeat(501))));
}

#[test]
fn images_are_limited_in_bytes() {
    assert!(!is_valid_format(&DataItem::Image(vec![])));
    assert!(is_valid_format(&DataItem::Image(vec![0])));
    assert!(is_valid_format(&DataItem::Image(vec![0; MAX_IMAGE_BYTES])));
    assert!(!is_valid_format(&DataItem::Image(vec![0; MAX_IMAGE_BYTES + 1])));
    assert_eq!(MAX_IMAGE_BYTES, 10_000_000);
}

fn numeric(x: f64) -> bool {
    is_valid_format(&DataItem::Numeric(x.to_bits()))
}

#[test]
fn numbers_lie_between_zero_and_one() {
    let samples = [
        0.0,
        -0.0,
        1.0,
        0.5,
        0.95,
        f64::MIN_POSITIVE,
        f64::from_bits(1),
        1.0 - f64::EPSILON / 2.0,
        1.0 + f64::EPSILON,
        2.0,
        -f64::from_bits(1),
        -0.5,
        -1.0,
        f64::MAX,
        f64::MIN,
        f64::INFINITY,
        f64::NEG_INFINITY,
        f64::NAN,
        -f64::NAN,
    ];
    for x in samples {
        assert_eq!(numeric(x), x >= 0.0 && x <= 1.0, "for {:?}", x);
    }
    assert!(numeric(0.0));
    assert!(numeric(-0.0));
    assert!(numeric(1.0));
    assert!(!numeric(1.0 + f64::EPSILON));
    assert!(!numeric(f64::NAN));
    assert!(!numeric(-1.0));
}

#[test]
fn numbers_agree_with_the_comparison_on_many_patterns() {
    let mut bits: u64 = 0x9E37_79B9_7F4A_7C15;
    for _ in 0..20_000 {
        bits ^= bits << 13;
        bits ^= bits >> 7;
        bits ^= bits << 17;
        let x = f64::from_bits(bits);
        assert_eq!(is_valid_format(&DataItem::Numeric(bits)), x >= 0.0 && x <= 1.0);
        let near_one = 0x3FF0_0000_0000_0000u64.wrapping_add(bits % 5).wrapping_sub(2);
        let y = f64::from_bits(near_one);
        assert_eq!(is_valid_format(&DataItem::Numeric(near_one)), y >= 0.0 && y <= 1.0);
    }
}

#[test]
fn errors_have_their_messages() {
    assert_eq!(ValidationError::InvalidFormat.message(), "Invalid data format");
    assert_eq!(ValidationError::ConsensusFailure.message(), "Consensus not reached");
    assert_eq!(
        ValidationError::DatabaseError("timeout".to_string()).message(),
        "Database error: timeout"
    );
    assert_eq!(ValidationError::Unknown.message(), "Unknown error occurred");
}
