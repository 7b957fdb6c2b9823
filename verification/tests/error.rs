use lethe_server::crypto::CryptoError;
use lethe_server::error::AppError;

#[test]
fn db_error_message_does_not_leak_inner_detail() {
    let inner = sqlx::Error::Configuration("constraint posts_origin_idx violated by row XYZ".into());
    let body = AppError::Db(inner).client_body();
    assert_eq!(body.status, 500);
    let text = format!("{} {}", body.code, body.message);
    assert!(
        !text.contains("posts_origin_idx") && !text.contains("constraint"),
        "client-visible body must not include inner DB detail; got: {text}",
    );
    assert!(text.contains("internal"));
}

#[test]
fn internal_error_message_is_generic() {
    let body = AppError::Internal("some sensitive context").client_body();
    assert!(
        !body.message.contains("some sensitive context"),
        "client-visible body must not include the static internal context: {}",
        body.message
    );
    assert_eq!(body.status, 500);
}

#[test]
fn bad_request_message_is_preserved() {
    let body = AppError::BadRequest("body length").client_body();
    assert!(body.message.contains("body length"), "got: {}", body.message);
    assert_eq!((body.status, body.code), (400, "bad_request"));
    assert_eq!(body.message, "bad request: body length");
}

#[test]
fn crypto_error_message_is_preserved() {
    let body = AppError::Crypto(CryptoError::VerifyFailed).client_body();
    assert!(body.message.contains("does not verify"), "got: {}", body.message);
    assert_eq!((body.status, body.code), (400, "bad_signature"));
}

#[test]
fn every_status_and_code() {
    let b = AppError::NotFound.client_body();
    assert_eq!((b.status, b.code, b.message.as_str()), (404, "not_found", "not found"));
    let b = AppError::Forbidden("nope").client_body();
    assert_eq!((b.status, b.code, b.message.as_str()), (403, "forbidden", "forbidden: nope"));
    let b = AppError::Conflict("again").client_body();
    assert_eq!((b.status, b.code, b.message.as_str()), (409, "conflict", "conflict: again"));
    let b = AppError::from(CryptoError::BadPubkey).client_body();
    assert_eq!(b.message, "malformed public key");
    let b = AppError::from(sqlx::Error::RowNotFound).client_body();
    assert_eq!((b.status, b.message.as_str()), (500, "internal error"));
}
