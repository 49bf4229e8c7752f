//! Checksum and bounds validator tests.

use tensorwerk_nervous::checksum::ChecksumValidator;
use tensorwerk_nervous::bounds::DataBounds;

#[test]
fn integrity_test_checksum_validation() {
    let validator = ChecksumValidator::new();
    let data = b"Hello, world!";
    let checksum = validator.calculate(data);
    assert!(validator.validate(data, checksum).is_ok());
}

#[test]
fn integrity_test_bounds_validation() {
    let bounds = DataBounds::crypto();
    // 50000.0 in fixed point (scale 1e8).
    assert!(bounds.validate_price(5_000_000_000_000, "BTC").is_ok());
    // 1e-9 is below the smallest representable fixed-point unit.
    assert!(bounds.validate_price(0, "BTC").is_err());
}

#[test]
fn test_checksum_known_value() {
    // The standard CRC-32 check value.
    let validator = ChecksumValidator::new();
    assert_eq!(validator.calculate(b"123456789"), 0xCBF43926);
    assert_eq!(validator.calculate(b""), 0);
}

#[test]
fn test_checksum_default() {
    let validator = ChecksumValidator::default();
    let other = ChecksumValidator::new();
    assert_eq!(validator.calculate(b"abc"), other.calculate(b"abc"));
}

#[test]
fn test_checksum_flip_detection() {
    // Flipping any single byte changes the checksum.
    let validator = ChecksumValidator::new();
    let data: Vec<u8> = (0..64).map(|i| i as u8).collect();
    let original = validator.calculate(&data);
    for i in 0..data.len() {
        let mut corrupted = data.clone();
        corrupted[i] ^= 0x01;
        assert_ne!(validator.calculate(&corrupted), original);
    }
}

#[test]
fn test_checksum_mismatch_carries_both_values() {
    let validator = ChecksumValidator::new();
    let data = b"payload";
    let good = validator.calculate(data);
    let bad = good.wrapping_add(1);
    match validator.validate(data, bad) {
        Err(tensorwerk_nervous::errors::ValidationError::ChecksumMismatch {
            expected,
            calculated,
        }) => {
            assert_eq!(expected, bad);
            assert_eq!(calculated, good);
        }
        _ => panic!("expected a checksum mismatch"),
    }
}

#[test]
fn test_stocks_preset() {
    let bounds = DataBounds::stocks();
    // One cent, in fixed point, is the smallest stock price.
    assert!(bounds.validate_price(1_000_000, "AAPL").is_ok());
    assert!(bounds.validate_price(999_999, "AAPL").is_err());
    // One whole share is the smallest stock quantity.
    assert!(bounds.validate_quantity(100_000_000, "AAPL").is_ok());
    assert!(bounds.validate_quantity(99_999_999, "AAPL").is_err());
}

#[test]
fn test_timestamp_bounds() {
    let bounds = DataBounds::crypto();
    assert!(bounds.validate_timestamp(1_600_000_000_000_000_000).is_ok());
    assert!(matches!(
        bounds.validate_timestamp(1),
        Err(tensorwerk_nervous::errors::ValidationError::InvalidTimestamp(1))
    ));
    assert!(bounds.validate_timestamp(u64::MAX).is_err());
}

#[test]
fn test_out_of_bounds_carries_field_and_value() {
    let bounds = DataBounds::crypto();
    match bounds.validate_price(0, "price") {
        Err(tensorwerk_nervous::errors::ValidationError::OutOfBounds { field, value }) => {
            assert_eq!(field, "price");
            assert_eq!(value, 0);
        }
        _ => panic!("expected an out-of-bounds error"),
    }
}
