use simchat::server::app_error::AppError;
use simchat::shared::shared_error::SharedError;

fn status(e: &AppError) -> (u16, i32) {
    let s = e.response_status();
    (s.http_status, s.code)
}

#[test]
fn error_statuses() {
    assert_eq!(status(&AppError::JsonError("j".into())), (500, 1));
    assert_eq!(status(&AppError::RedisError("r".into())), (502, 2));
    assert_eq!(status(&AppError::Any("a".into())), (500, 3));
    assert_eq!(status(&AppError::TryFromIntError("t".into())), (400, 5));
    assert_eq!(status(&AppError::GenerateError("g".into())), (400, 6));
    assert_eq!(status(&AppError::NotFound), (404, 8));
    assert_eq!(status(&AppError::PermissionDenied("p".into())), (403, 9));
}

#[test]
fn http_error_status_depends_on_client_error() {
    let with = |status| AppError::HttpError { message: "h".into(), status };
    assert_eq!(status(&with(Some(404))), (400, 4));
    assert_eq!(status(&with(Some(400))), (400, 4));
    assert_eq!(status(&with(Some(499))), (400, 4));
    assert_eq!(status(&with(Some(500))), (502, 4));
    assert_eq!(status(&with(Some(302))), (502, 4));
    assert_eq!(status(&with(None)), (502, 4));
}

#[test]
fn io_error_status_depends_on_missing_file() {
    let missing = AppError::IOError { message: "m".into(), not_found: true };
    let other = AppError::IOError { message: "m".into(), not_found: false };
    assert_eq!(status(&missing), (404, 7));
    assert_eq!(status(&other), (500, 7));
}

#[test]
fn error_messages() {
    assert_eq!(AppError::Any("boom".into()).message(), "boom");
    assert_eq!(AppError::JsonError("bad".into()).message(), "internal server error: bad");
    assert_eq!(AppError::RedisError("down".into()).message(), "redis error: down");
    assert_eq!(
        AppError::HttpError { message: "timeout".into(), status: None }.message(),
        "http error: timeout"
    );
    assert_eq!(AppError::TryFromIntError("x".into()).message(), "invalid integer: x");
    assert_eq!(AppError::GenerateError("g".into()).message(), "generate error: g");
    assert_eq!(
        AppError::IOError { message: "gone".into(), not_found: true }.message(),
        "io error: gone"
    );
    assert_eq!(AppError::NotFound.message(), "not found");
    assert_eq!(
        AppError::PermissionDenied("User already exists".into()).message(),
        "permission denied: User already exists"
    );
}

#[test]
fn shared_error_message() {
    assert_eq!(SharedError::Consistency.message(), "error");
}
