use c2pa_preview::file_ext::{unload, FinderError};

#[test]
fn error_codes() {
    assert_eq!(FinderError::Tauri("x".to_string()).code(), 1001);
    assert_eq!(FinderError::FailedToGetPath.code(), 1002);
    assert_eq!(FinderError::PathInvalidOrNoLongerExists.code(), 1003);
    assert_eq!(FinderError::PathInvalidUtf8.code(), 1004);
}

#[test]
fn error_messages() {
    assert_eq!(
        FinderError::Tauri("window failed".to_string()).message(),
        "window failed"
    );
    assert_eq!(
        FinderError::FailedToGetPath.message(),
        "Failed to get file path from the context menu"
    );
    assert_eq!(
        FinderError::PathInvalidOrNoLongerExists.message(),
        "Failed to parse file path from the context menu"
    );
    assert_eq!(
        FinderError::PathInvalidUtf8.message(),
        "Failed to parse file path from the context menu"
    );
}

#[test]
fn unload_does_nothing_harmful() {
    unload();
    unload();
}
