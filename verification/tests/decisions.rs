use diskspace::error::{ErrorDetail, QueryError};
use diskspace::posix::{check_directory, errno_detail, is_directory_mode, stats_outcome, RawFsStats};
use diskspace::winpath::{windows_directory_gate, windows_stats_outcome};

#[test]
fn directory_mode_is_recognized() {
    assert!(is_directory_mode(0o040755));
    assert!(!is_directory_mode(0o100644));
    assert!(!is_directory_mode(0o120777));
}

#[test]
fn metadata_outcomes_are_classified() {
    assert!(check_directory(Ok(0o040755)).is_ok());
    let err = check_directory(Ok(0o100644)).expect_err("a file mode is rejected");
    assert!(matches!(err, QueryError::NotDirectory(None)));
    let err = check_directory(Err(13)).expect_err("a failed metadata query is rejected");
    match err {
        QueryError::NotDirectory(Some(detail)) => {
            assert_eq!(detail.code, 13);
            assert_eq!(detail.message, "Permission denied");
        },
        other => panic!("expected NotDirectory with errno detail, got {:?}", other),
    }
}

#[test]
fn statistics_outcomes_are_classified() {
    let raw = RawFsStats { unit: 4096, blocks: 10, blocks_free: 4, blocks_available: 3 };
    let stats = stats_outcome(Ok(raw)).expect("raw counts scale to a record");
    assert_eq!(stats.total, 40960);
    assert_eq!(stats.free, 16384);
    assert_eq!(stats.available, 12288);
    assert_eq!(stats.used, 24576);
    let err = stats_outcome(Err(5)).expect_err("a failed statistics call is rejected");
    match err {
        QueryError::PlatformStatFailed(detail) => {
            assert_eq!(detail.code, 5);
            assert_eq!(detail.message, "I/O error");
        },
        other => panic!("expected PlatformStatFailed, got {:?}", other),
    }
}

#[test]
fn errno_detail_resolves_the_message() {
    let detail = errno_detail(2);
    assert_eq!(detail.code, 2);
    assert_eq!(detail.message, "No such file or directory");
}

#[test]
fn windows_space_outcomes_are_classified() {
    let stats = windows_stats_outcome(Ok((1000, 5000, 2000))).expect("byte counts pass through");
    assert_eq!(stats.available, 1000);
    assert_eq!(stats.total, 5000);
    assert_eq!(stats.free, 2000);
    assert_eq!(stats.used, 3000);
    let detail = ErrorDetail { code: 21, message: String::from("The device is not ready.") };
    let err = windows_stats_outcome(Err(detail)).expect_err("a failed call is rejected");
    match err {
        QueryError::OsApiFailed(detail) => {
            assert_eq!(detail.code, 21);
            assert_eq!(detail.message, "The device is not ready.");
        },
        other => panic!("expected OsApiFailed, got {:?}", other),
    }
}

#[test]
fn windows_attribute_outcomes_are_classified() {
    assert!(windows_directory_gate(Ok(0x10)).is_ok());
    assert!(windows_directory_gate(Ok(0x11)).is_ok());
    let err = windows_directory_gate(Ok(0x20)).expect_err("a plain file attribute is rejected");
    assert!(matches!(err, QueryError::NotDirectory(None)));
    let detail = ErrorDetail { code: 3, message: String::from("The system cannot find the path specified.") };
    let err = windows_directory_gate(Err(detail)).expect_err("a failed attribute query is rejected");
    match err {
        QueryError::OsApiFailed(detail) => {
            assert_eq!(detail.code, 3);
            assert_eq!(detail.message, "The system cannot find the path specified.");
        },
        other => panic!("expected OsApiFailed, got {:?}", other),
    }
}
