use vfs_apis::atmanager::{get_at, is_at_set, set_at, token_or_empty, AtStore};
use vfs_apis::error::{ErrorCode, RuntimeError, VfsError};

#[test]
fn error_codes_have_their_numbers() {
    assert_eq!(ErrorCode::Success.as_i32(), 0);
    assert_eq!(ErrorCode::InvalidParameter.as_i32(), 1);
    assert_eq!(ErrorCode::WorkspaceNotSet.as_i32(), 2);
    assert_eq!(ErrorCode::PathNotFound.as_i32(), 3);
    assert_eq!(ErrorCode::IoError.as_i32(), 4);
    assert_eq!(ErrorCode::NetworkError.as_i32(), 5);
    assert_eq!(ErrorCode::JsonError.as_i32(), 6);
    assert_eq!(ErrorCode::SessionError.as_i32(), 7);
    assert_eq!(ErrorCode::RequestError.as_i32(), 8);
    assert_eq!(ErrorCode::ResponseError.as_i32(), 9);
    assert_eq!(ErrorCode::LogError.as_i32(), 10);
    assert_eq!(ErrorCode::Unknown.as_i32(), 99);
}

#[test]
fn error_code_round_trip() {
    let all = [
        ErrorCode::Success,
        ErrorCode::InvalidParameter,
        ErrorCode::WorkspaceNotSet,
        ErrorCode::PathNotFound,
        ErrorCode::IoError,
        ErrorCode::NetworkError,
        ErrorCode::JsonError,
        ErrorCode::SessionError,
        ErrorCode::RequestError,
        ErrorCode::ResponseError,
        ErrorCode::LogError,
        ErrorCode::Unknown,
    ];
    for c in all {
        assert_eq!(ErrorCode::from_i32(c.as_i32()), c);
    }
}

#[test]
fn unknown_numbers_decode_to_unknown() {
    assert_eq!(ErrorCode::from_i32(11), ErrorCode::Unknown);
    assert_eq!(ErrorCode::from_i32(-1), ErrorCode::Unknown);
    assert_eq!(ErrorCode::from_i32(98), ErrorCode::Unknown);
    assert_eq!(ErrorCode::from_i32(11).as_i32(), 99);
}

#[test]
fn vfs_error_constructors() {
    let e = VfsError::new(ErrorCode::IoError, "disk full");
    assert_eq!(e.code, ErrorCode::IoError);
    assert_eq!(e.message, "disk full");
    assert!(!e.is_success());
    let s = VfsError::success();
    assert_eq!(s.code, ErrorCode::Success);
    assert_eq!(s.message, "Success");
    assert!(s.is_success());
}

#[test]
fn vfs_error_display_text() {
    let e = VfsError::new(ErrorCode::PathNotFound, "gone");
    assert_eq!(e.display_text(), "VfsError(code=3, message=gone)");
    let u = VfsError::new(ErrorCode::Unknown, "?");
    assert_eq!(u.display_text(), "VfsError(code=99, message=?)");
}

#[test]
fn runtime_error_keeps_message() {
    let r = RuntimeError::new("boom");
    assert_eq!(r.message, "boom");
    let from: RuntimeError = RuntimeError::from(VfsError::new(ErrorCode::JsonError, "bad json"));
    assert_eq!(from.message, "bad json");
}

#[test]
fn token_is_read_back_after_set() {
    let mut store = AtStore::new();
    assert!(!is_at_set(&store));
    let missing = get_at(&store).unwrap_err();
    assert_eq!(missing.code, ErrorCode::WorkspaceNotSet);
    assert_eq!(missing.message, "AT token has not been set");
    assert_eq!(token_or_empty(&store), "");
    assert!(set_at(&mut store, "abc123").is_ok());
    assert!(is_at_set(&store));
    assert_eq!(get_at(&store).unwrap(), "abc123");
    assert!(set_at(&mut store, "second").is_ok());
    assert_eq!(get_at(&store).unwrap(), "second");
    assert_eq!(token_or_empty(&store), "second");
}
