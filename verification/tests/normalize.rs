use diskspace::error::QueryError;
use diskspace::winpath::{prepare_windows_path, rewrite_long_path};

#[test]
fn regular_path_gets_long_prefix() {
    let path = b"C:\\foo".to_vec();
    let normalized = rewrite_long_path(&path);
    assert_eq!(normalized, b"\\\\?\\C:\\foo".to_vec());
    assert!(normalized.starts_with(b"\\\\?\\"));
}

#[test]
fn unc_path_gets_unc_long_prefix() {
    let path = b"\\\\server\\share\\foo".to_vec();
    let normalized = rewrite_long_path(&path);
    assert_eq!(normalized, b"\\\\?\\UNC\\server\\share\\foo".to_vec());
    assert!(normalized.starts_with(b"\\\\?\\UNC\\server\\share\\foo"));
}

#[test]
fn bare_drive_root_gains_separator() {
    let path = b"\\\\?\\C:".to_vec();
    let normalized = rewrite_long_path(&path);
    assert_eq!(normalized, b"\\\\?\\C:\\".to_vec());
}

#[test]
fn long_form_path_is_kept() {
    let path = b"\\\\?\\C:\\foo\\bar".to_vec();
    let normalized = rewrite_long_path(&path);
    assert_eq!(normalized, path);
}

#[test]
fn normalization_is_idempotent() {
    let path = b"C:\\foo".to_vec();
    let once = rewrite_long_path(&path);
    let twice = rewrite_long_path(&once);
    assert_eq!(once, twice);
    let root = b"\\\\?\\D:".to_vec();
    let once = rewrite_long_path(&root);
    let twice = rewrite_long_path(&once);
    assert_eq!(once, twice);
}

#[test]
fn prepared_path_is_utf16_of_normalized_form() {
    let path = b"C:\\foo".to_vec();
    let wide = prepare_windows_path(&path).expect("an ASCII path converts");
    let expected: Vec<u16> = "\\\\?\\C:\\foo".encode_utf16().collect();
    assert_eq!(wide, expected);
}

#[test]
fn prepared_non_ascii_path_is_utf16_of_normalized_form() {
    let path = "D:\\m\u{00fc}sik".as_bytes().to_vec();
    let wide = prepare_windows_path(&path).expect("a valid UTF-8 path converts");
    let expected: Vec<u16> = "\\\\?\\D:\\m\u{00fc}sik".encode_utf16().collect();
    assert_eq!(wide, expected);
}

#[test]
fn empty_path_is_invalid_before_conversion() {
    let path: Vec<u8> = Vec::new();
    let err = prepare_windows_path(&path).expect_err("the empty path is rejected");
    assert!(matches!(err, QueryError::InvalidPath));
}

#[test]
fn invalid_utf8_fails_conversion() {
    let path = vec![b'C', b':', b'\\', 0xff, 0xfe];
    let err = prepare_windows_path(&path).expect_err("invalid UTF-8 is rejected");
    assert!(matches!(err, QueryError::PathConversionFailed));
}

#[test]
fn interior_nul_fails_conversion() {
    let path = vec![b'C', b':', b'\\', 0x00, b'x'];
    let err = prepare_windows_path(&path).expect_err("an interior nul is rejected");
    assert!(matches!(err, QueryError::PathConversionFailed));
}

#[test]
fn trailing_nul_is_taken_as_terminator() {
    let path = vec![b'C', b':', 0x00];
    let wide = prepare_windows_path(&path).expect("a final nul is the terminator");
    let expected: Vec<u16> = "\\\\?\\C:".encode_utf16().collect();
    assert_eq!(wide, expected);
}
