use std::cell::Cell;
use std::io::{Error as IoError, ErrorKind as IoErrorKind};

use error_status::{ErrorKind, ErrorStatus, ResultExt};

fn failing() -> Result<u32, IoError> {
    Err(IoError::new(IoErrorKind::Other, "disk on fire"))
}

fn expect_status(out: Result<u32, ErrorStatus<IoError>>, kind: ErrorKind, context: &str) {
    let error = out.unwrap_err();
    assert_eq!(error.kind(), kind);
    assert_eq!(error.context(), context);
    assert_eq!(error.source().kind(), IoErrorKind::Other);
    assert_eq!(error.source().to_string(), "disk on fire");
}

#[test]
fn msg() {
    let io_error: Result<(), IoError> = Err(IoErrorKind::Other.into());
    let error_msg = io_error.as_ref().unwrap_err().to_string();
    let error = io_error.internal_error("context").unwrap_err();
    assert!(matches!(error.kind(), ErrorKind::InternalError));
    assert_eq!(error.context(), "context");
    assert_eq!(error.source().to_string(), error_msg);
}

#[test]
fn with_msg() {
    let io_error: Result<(), IoError> = Err(IoErrorKind::Other.into());
    let error_msg = io_error.as_ref().unwrap_err().to_string();
    let error = io_error.internal_error_lazy(|| "context").unwrap_err();
    assert!(matches!(error.kind(), ErrorKind::InternalError));
    assert_eq!(error.context(), "context");
    assert_eq!(error.source().to_string(), error_msg);
}

#[test]
fn eager_client_kinds_keep_kind_context_and_cause() {
    expect_status(failing().bad_request("a"), ErrorKind::BadRequest, "a");
    expect_status(failing().unauthorized("b"), ErrorKind::Unauthorized, "b");
    expect_status(failing().forbidden("c"), ErrorKind::Forbidden, "c");
    expect_status(failing().not_found("d"), ErrorKind::NotFound, "d");
    expect_status(failing().method_not_allowed("e"), ErrorKind::MethodNotAllowed, "e");
    expect_status(failing().request_timeout("f"), ErrorKind::RequestTimeout, "f");
    expect_status(failing().gone("g"), ErrorKind::Gone, "g");
    expect_status(failing().precondition_failed("h"), ErrorKind::PreconditionFailed, "h");
    expect_status(failing().content_too_large("i"), ErrorKind::PayloadTooLarge, "i");
    expect_status(failing().unsupported("j"), ErrorKind::Unsupported, "j");
    expect_status(failing().unprocessable_content("k"), ErrorKind::UnprocessableEntity, "k");
    expect_status(failing().too_many_requests("l"), ErrorKind::TooManyRequests, "l");
}

#[test]
fn eager_server_kinds_keep_kind_context_and_cause() {
    expect_status(failing().internal_error("m"), ErrorKind::InternalError, "m");
    expect_status(failing().not_implemented("n"), ErrorKind::NotImplemented, "n");
    expect_status(failing().unavailable("o"), ErrorKind::Unavailable, "o");
}

#[test]
fn lazy_client_kinds_keep_kind_context_and_cause() {
    expect_status(failing().bad_request_lazy(|| "a"), ErrorKind::BadRequest, "a");
    expect_status(failing().unauthorized_lazy(|| "b"), ErrorKind::Unauthorized, "b");
    expect_status(failing().forbidden_lazy(|| "c"), ErrorKind::Forbidden, "c");
    expect_status(failing().not_found_lazy(|| "d"), ErrorKind::NotFound, "d");
    expect_status(failing().method_not_allowed_lazy(|| "e"), ErrorKind::MethodNotAllowed, "e");
    expect_status(failing().request_timeout_lazy(|| "f"), ErrorKind::RequestTimeout, "f");
    expect_status(failing().gone_lazy(|| "g"), ErrorKind::Gone, "g");
    expect_status(failing().precondition_failed_lazy(|| "h"), ErrorKind::PreconditionFailed, "h");
    expect_status(failing().content_too_large_lazy(|| "i"), ErrorKind::PayloadTooLarge, "i");
    expect_status(failing().unsupported_lazy(|| "j"), ErrorKind::Unsupported, "j");
    expect_status(failing().unprocessable_content_lazy(|| "k"), ErrorKind::UnprocessableEntity, "k");
    expect_status(failing().too_many_requests_lazy(|| "l"), ErrorKind::TooManyRequests, "l");
}

#[test]
fn lazy_server_kinds_keep_kind_context_and_cause() {
    expect_status(failing().internal_error_lazy(|| "m"), ErrorKind::InternalError, "m");
    expect_status(failing().not_implemented_lazy(|| "n"), ErrorKind::NotImplemented, "n");
    expect_status(failing().unavailable_lazy(|| "o"), ErrorKind::Unavailable, "o");
}

#[test]
fn lazy_gives_what_eager_gives() {
    let path = "/etc/app.toml";
    let eager = failing().not_found(format!("Failed to read {}", path)).unwrap_err();
    let lazy = failing().not_found_lazy(|| format!("Failed to read {}", path)).unwrap_err();
    assert_eq!(eager.kind(), lazy.kind());
    assert_eq!(eager.context(), lazy.context());
    assert_eq!(lazy.context(), "Failed to read /etc/app.toml");
    assert_eq!(eager.source().to_string(), lazy.source().to_string());
    assert_eq!(eager.to_string(), lazy.to_string());
}

#[test]
fn lazy_asks_the_producer_once_on_failure() {
    let calls = Cell::new(0u32);
    let out = failing().unavailable_lazy(|| {
        calls.set(calls.get() + 1);
        "down"
    });
    assert_eq!(calls.get(), 1);
    expect_status(out, ErrorKind::Unavailable, "down");
}

#[test]
fn lazy_does_not_ask_the_producer_on_success() {
    let calls = Cell::new(0u32);
    let ok: Result<u32, IoError> = Ok(5);
    let out = ok.internal_error_lazy(|| {
        calls.set(calls.get() + 1);
        "never"
    });
    assert_eq!(calls.get(), 0);
    assert!(matches!(out, Ok(5)));
    let ok: Result<u32, IoError> = Ok(6);
    let out = ok.not_found_lazy(|| -> String { panic!("the producer was asked on a success") });
    assert!(matches!(out, Ok(6)));
}

#[test]
fn success_passes_through_every_eager_form() {
    let ok = |value: u32| -> Result<u32, IoError> { Ok(value) };
    assert!(matches!(ok(1).bad_request("x"), Ok(1)));
    assert!(matches!(ok(2).unauthorized("x"), Ok(2)));
    assert!(matches!(ok(3).forbidden("x"), Ok(3)));
    assert!(matches!(ok(4).not_found("x"), Ok(4)));
    assert!(matches!(ok(5).method_not_allowed("x"), Ok(5)));
    assert!(matches!(ok(6).request_timeout("x"), Ok(6)));
    assert!(matches!(ok(7).gone("x"), Ok(7)));
    assert!(matches!(ok(8).precondition_failed("x"), Ok(8)));
    assert!(matches!(ok(9).content_too_large("x"), Ok(9)));
    assert!(matches!(ok(10).unsupported("x"), Ok(10)));
    assert!(matches!(ok(11).unprocessable_content("x"), Ok(11)));
    assert!(matches!(ok(12).too_many_requests("x"), Ok(12)));
    assert!(matches!(ok(13).internal_error("x"), Ok(13)));
    assert!(matches!(ok(14).not_implemented("x"), Ok(14)));
    assert!(matches!(ok(15).unavailable("x"), Ok(15)));
}

#[test]
fn success_passes_through_every_lazy_form() {
    let ok = |value: u32| -> Result<u32, IoError> { Ok(value) };
    assert!(matches!(ok(1).bad_request_lazy(|| "x"), Ok(1)));
    assert!(matches!(ok(2).unauthorized_lazy(|| "x"), Ok(2)));
    assert!(matches!(ok(3).forbidden_lazy(|| "x"), Ok(3)));
    assert!(matches!(ok(4).not_found_lazy(|| "x"), Ok(4)));
    assert!(matches!(ok(5).method_not_allowed_lazy(|| "x"), Ok(5)));
    assert!(matches!(ok(6).request_timeout_lazy(|| "x"), Ok(6)));
    assert!(matches!(ok(7).gone_lazy(|| "x"), Ok(7)));
    assert!(matches!(ok(8).precondition_failed_lazy(|| "x"), Ok(8)));
    assert!(matches!(ok(9).content_too_large_lazy(|| "x"), Ok(9)));
    assert!(matches!(ok(10).unsupported_lazy(|| "x"), Ok(10)));
    assert!(matches!(ok(11).unprocessable_content_lazy(|| "x"), Ok(11)));
    assert!(matches!(ok(12).too_many_requests_lazy(|| "x"), Ok(12)));
    assert!(matches!(ok(13).internal_error_lazy(|| "x"), Ok(13)));
    assert!(matches!(ok(14).not_implemented_lazy(|| "x"), Ok(14)));
    assert!(matches!(ok(15).unavailable_lazy(|| "x"), Ok(15)));
}

#[test]
fn context_may_be_a_slice_or_an_owned_string() {
    let from_slice = failing().gone("moved away").unwrap_err();
    let from_owned = failing().gone(String::from("moved away")).unwrap_err();
    assert_eq!(from_slice.context(), "moved away");
    assert_eq!(from_owned.context(), "moved away");
}

#[test]
fn context_may_be_empty() {
    let error = failing().bad_request("").unwrap_err();
    assert_eq!(error.context(), "");
    assert_eq!(error.kind(), ErrorKind::BadRequest);
    assert_eq!(error.to_string(), "BadRequest - ");
}

#[test]
fn two_annotations_stack() {
    let found: Result<(), IoError> = Err(IoErrorKind::NotFound.into());
    let underlying = found.as_ref().unwrap_err().to_string();
    let outer = found
        .not_found("Failed to read file")
        .internal_error("Config file is not available")
        .unwrap_err();
    assert_eq!(outer.kind(), ErrorKind::InternalError);
    assert_eq!(outer.context(), "Config file is not available");
    let inner = outer.source();
    assert_eq!(inner.kind(), ErrorKind::NotFound);
    assert_eq!(inner.context(), "Failed to read file");
    assert_eq!(inner.source().kind(), IoErrorKind::NotFound);
    assert_eq!(inner.source().to_string(), underlying);
}

#[test]
fn layers_are_visited_outer_then_inner() {
    let outer = failing().forbidden("inner layer").unavailable("outer layer").unwrap_err();
    let visited = vec![
        outer.to_string(),
        outer.source().to_string(),
        outer.source().source().to_string(),
    ];
    assert_eq!(
        visited,
        vec![
            "Unavailable - outer layer".to_string(),
            "Forbidden - inner layer".to_string(),
            "disk on fire".to_string(),
        ]
    );
}
