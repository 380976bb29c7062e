use mtzip::ZipError;
use mtzip::level::CompressionLevel;

#[test]
fn level_bounds() {
    assert!(CompressionLevel::new(0).is_ok());
    assert!(CompressionLevel::new(9).is_ok());
    assert!(CompressionLevel::new(10).is_err());
    assert!(CompressionLevel::new(255).is_err());
}

#[test]
fn level_ten_reports_value() {
    let err = CompressionLevel::new(10).unwrap_err();
    assert_eq!(err, ZipError::InvalidCompressionLevel { value: 10 });
}

#[test]
fn level_new_keeps_value() {
    for v in 0u8..=9u8 {
        assert_eq!(CompressionLevel::new(v).unwrap().value(), v);
    }
}

#[test]
fn level_presets() {
    assert_eq!(CompressionLevel::none().value(), 0);
    assert_eq!(CompressionLevel::fast().value(), 1);
    assert_eq!(CompressionLevel::balanced().value(), 6);
    assert_eq!(CompressionLevel::best().value(), 9);
}
