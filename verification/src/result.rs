use vstd::prelude::*;
use crate::context::Context;
use crate::kind::ErrorKind;
use crate::status::{ErrorStatus, StatusView};

verus! {

/// An annotated result, with the container of a failure taken by its view.
pub open spec fn outcome<T, E>(result: Result<T, ErrorStatus<E>>) -> Result<T, StatusView<E>> {
    match result {
        Ok(value) => Ok(value),
        Err(status) => Err(status@),
    }
}

/// What annotating `result` with `kind` and `context` gives: a success is
/// passed on as it is, a failure becomes the cause of a container that holds
/// `kind` and `context`.
pub open spec fn annotated<T, E>(
    result: Result<T, E>,
    kind: ErrorKind,
    context: Seq<char>,
) -> Result<T, StatusView<E>> {
    match result {
        Ok(value) => Ok(value),
        Err(source) => Err(StatusView { kind, context, source }),
    }
}

/// Whether `out` is what annotating `result` with `kind` and a context from
/// the producer `f` may give: a success is passed on as it is, a failure is
/// annotated with a context that `f` can return.
pub open spec fn annotated_lazy<T, E, C: Context, F: FnOnce() -> C>(
    result: Result<T, E>,
    kind: ErrorKind,
    f: F,
    out: Result<T, StatusView<E>>,
) -> bool {
    match result {
        Ok(value) => out == Ok::<T, StatusView<E>>(value),
        Err(_) => exists|context: C|
            f.ensures((), context) && out == annotated(result, kind, #[trigger] context.text()),
    }
}

/// Keeps [`ResultExt`] to `Result`: this trait cannot be named from outside
/// the crate, so no other type can implement either of the two.
pub trait Sealed<T, E>: Sized {
    /// The result that is annotated.
    spec fn as_result(self) -> Result<T, E>;

    /// Marks a failure as `kind`, described by `context`.
    fn msg<C: Context>(self, kind: ErrorKind, context: C) -> (out: Result<T, ErrorStatus<E>>)
        ensures
            outcome(out) == annotated(self.as_result(), kind, context.text()),
    ;

    /// Marks a failure as `kind`, described by what `f` returns.
    fn msg_lazy<C: Context, F: FnOnce() -> C>(self, kind: ErrorKind, f: F) -> (out: Result<
        T,
        ErrorStatus<E>,
    >)
        requires
            self.as_result() is Err ==> f.requires(()),
        ensures
            annotated_lazy(self.as_result(), kind, f, outcome(out)),
    ;
}

/// Methods to construct different [`ErrorStatus`]s from `Result`
///
/// Each classification has a method that takes the context as it is, and one
/// that takes a producer of the context. None of them fails: a success is
/// returned unchanged, and a failure comes back as the cause of an
/// [`ErrorStatus`].
///
/// A producer is called on a failure only. Its precondition is asked of the
/// caller for a failing result and for no other, so on a success nothing
/// permits the call.
pub trait ResultExt<T, E>: Sealed<T, E> {
    /// Marks a failure as [`ErrorKind::BadRequest`], described by `context`.
    fn bad_request<C: Context>(self, context: C) -> (out: Result<T, ErrorStatus<E>>)
        ensures
            outcome(out) == annotated(self.as_result(), ErrorKind::BadRequest, context.text()),
    {
        self.msg(ErrorKind::BadRequest, context)
    }

    /// Marks a failure as [`ErrorKind::Unauthorized`], described by `context`.
    fn unauthorized<C: Context>(self, context: C) -> (out: Result<T, ErrorStatus<E>>)
        ensures
            outcome(out) == annotated(self.as_result(), ErrorKind::Unauthorized, context.text()),
    {
        self.msg(ErrorKind::Unauthorized, context)
    }

    /// Marks a failure as [`ErrorKind::Forbidden`], described by `context`.
    fn forbidden<C: Context>(self, context: C) -> (out: Result<T, ErrorStatus<E>>)
        ensures
            outcome(out) == annotated(self.as_result(), ErrorKind::Forbidden, context.text()),
    {
        self.msg(ErrorKind::Forbidden, context)
    }

    /// Marks a failure as [`ErrorKind::NotFound`], described by `context`.
    fn not_found<C: Context>(self, context: C) -> (out: Result<T, ErrorStatus<E>>)
        ensures
            outcome(out) == annotated(self.as_result(), ErrorKind::NotFound, context.text()),
    {
        self.msg(ErrorKind::NotFound, context)
    }

    /// Marks a failure as [`ErrorKind::MethodNotAllowed`], described by `context`.
    fn method_not_allowed<C: Context>(self, context: C) -> (out: Result<T, ErrorStatus<E>>)
        ensures
            outcome(out) == annotated(
                self.as_result(),
                ErrorKind::MethodNotAllowed,
                context.text(),
            ),
    {
        self.msg(ErrorKind::MethodNotAllowed, context)
    }

    /// Marks a failure as [`ErrorKind::RequestTimeout`], described by `context`.
    fn request_timeout<C: Context>(self, context: C) -> (out: Result<T, ErrorStatus<E>>)
        ensures
            outcome(out) == annotated(self.as_result(), ErrorKind::RequestTimeout, context.text()),
    {
        self.msg(ErrorKind::RequestTimeout, context)
    }

    /// Marks a failure as [`ErrorKind::Gone`], described by `context`.
    fn gone<C: Context>(self, context: C) -> (out: Result<T, ErrorStatus<E>>)
        ensures
            outcome(out) == annotated(self.as_result(), ErrorKind::Gone, context.text()),
    {
        self.msg(ErrorKind::Gone, context)
    }

    /// Marks a failure as [`ErrorKind::PreconditionFailed`], described by `context`.
    fn precondition_failed<C: Context>(self, context: C) -> (out: Result<T, ErrorStatus<E>>)
        ensures
            outcome(out) == annotated(
                self.as_result(),
                ErrorKind::PreconditionFailed,
                context.text(),
            ),
    {
        self.msg(ErrorKind::PreconditionFailed, context)
    }

    /// Marks a failure as [`ErrorKind::PayloadTooLarge`], described by `context`.
    fn content_too_large<C: Context>(self, context: C) -> (out: Result<T, ErrorStatus<E>>)
        ensures
            outcome(out) == annotated(self.as_result(), ErrorKind::PayloadTooLarge, context.text()),
    {
        self.msg(ErrorKind::PayloadTooLarge, context)
    }

    /// Marks a failure as [`ErrorKind::Unsupported`], described by `context`.
    fn unsupported<C: Context>(self, context: C) -> (out: Result<T, ErrorStatus<E>>)
        ensures
            outcome(out) == annotated(self.as_result(), ErrorKind::Unsupported, context.text()),
    {
        self.msg(ErrorKind::Unsupported, context)
    }

    /// Marks a failure as [`ErrorKind::UnprocessableEntity`], described by `context`.
    fn unprocessable_content<C: Context>(self, context: C) -> (out: Result<T, ErrorStatus<E>>)
        ensures
            outcome(out) == annotated(
                self.as_result(),
                ErrorKind::UnprocessableEntity,
                context.text(),
            ),
    {
        self.msg(ErrorKind::UnprocessableEntity, context)
    }

    /// Marks a failure as [`ErrorKind::TooManyRequests`], described by `context`.
    fn too_many_requests<C: Context>(self, context: C) -> (out: Result<T, ErrorStatus<E>>)
        ensures
            outcome(out) == annotated(self.as_result(), ErrorKind::TooManyRequests, context.text()),
    {
        self.msg(ErrorKind::TooManyRequests, context)
    }

    /// Marks a failure as [`ErrorKind::InternalError`], described by `context`.
    fn internal_error<C: Context>(self, context: C) -> (out: Result<T, ErrorStatus<E>>)
        ensures
            outcome(out) == annotated(self.as_result(), ErrorKind::InternalError, context.text()),
    {
        self.msg(ErrorKind::InternalError, context)
    }

    /// Marks a failure as [`ErrorKind::NotImplemented`], described by `context`.
    fn not_implemented<C: Context>(self, context: C) -> (out: Result<T, ErrorStatus<E>>)
        ensures
            outcome(out) == annotated(self.as_result(), ErrorKind::NotImplemented, context.text()),
    {
        self.msg(ErrorKind::NotImplemented, context)
    }

    /// Marks a failure as [`ErrorKind::Unavailable`], described by `context`.
    fn unavailable<C: Context>(self, context: C) -> (out: Result<T, ErrorStatus<E>>)
        ensures
            outcome(out) == annotated(self.as_result(), ErrorKind::Unavailable, context.text()),
    {
        self.msg(ErrorKind::Unavailable, context)
    }

    /// Marks a failure as [`ErrorKind::BadRequest`], described by what `f` returns.
    fn bad_request_lazy<C: Context, F: FnOnce() -> C>(self, f: F) -> (out: Result<
        T,
        ErrorStatus<E>,
    >)
        requires
            self.as_result() is Err ==> f.requires(()),
        ensures
            annotated_lazy(self.as_result(), ErrorKind::BadRequest, f, outcome(out)),
    {
        self.msg_lazy(ErrorKind::BadRequest, f)
    }

    /// Marks a failure as [`ErrorKind::Unauthorized`], described by what `f` returns.
    fn unauthorized_lazy<C: Context, F: FnOnce() -> C>(self, f: F) -> (out: Result<
        T,
        ErrorStatus<E>,
    >)
        requires
            self.as_result() is Err ==> f.requires(()),
        ensures
            annotated_lazy(self.as_result(), ErrorKind::Unauthorized, f, outcome(out)),
    {
        self.msg_lazy(ErrorKind::Unauthorized, f)
    }

    /// Marks a failure as [`ErrorKind::Forbidden`], described by what `f` returns.
    fn forbidden_lazy<C: Context, F: FnOnce() -> C>(self, f: F) -> (out: Result<T, ErrorStatus<E>>)
        requires
            self.as_result() is Err ==> f.requires(()),
        ensures
            annotated_lazy(self.as_result(), ErrorKind::Forbidden, f, outcome(out)),
    {
        self.msg_lazy(ErrorKind::Forbidden, f)
    }

    /// Marks a failure as [`ErrorKind::NotFound`], described by what `f` returns.
    fn not_found_lazy<C: Context, F: FnOnce() -> C>(self, f: F) -> (out: Result<T, ErrorStatus<E>>)
        requires
            self.as_result() is Err ==> f.requires(()),
        ensures
            annotated_lazy(self.as_result(), ErrorKind::NotFound, f, outcome(out)),
    {
        self.msg_lazy(ErrorKind::NotFound, f)
    }

    /// Marks a failure as [`ErrorKind::MethodNotAllowed`], described by what `f` returns.
    fn method_not_allowed_lazy<C: Context, F: FnOnce() -> C>(self, f: F) -> (out: Result<
        T,
        ErrorStatus<E>,
    >)
        requires
            self.as_result() is Err ==> f.requires(()),
        ensures
            annotated_lazy(self.as_result(), ErrorKind::MethodNotAllowed, f, outcome(out)),
    {
        self.msg_lazy(ErrorKind::MethodNotAllowed, f)
    }

    /// Marks a failure as [`ErrorKind::RequestTimeout`], described by what `f` returns.
    fn request_timeout_lazy<C: Context, F: FnOnce() -> C>(self, f: F) -> (out: Result<
        T,
        ErrorStatus<E>,
    >)
        requires
            self.as_result() is Err ==> f.requires(()),
        ensures
            annotated_lazy(self.as_result(), ErrorKind::RequestTimeout, f, outcome(out)),
    {
        self.msg_lazy(ErrorKind::RequestTimeout, f)
    }

    /// Marks a failure as [`ErrorKind::Gone`], described by what `f` returns.
    fn gone_lazy<C: Context, F: FnOnce() -> C>(self, f: F) -> (out: Result<T, ErrorStatus<E>>)
        requires
            self.as_result() is Err ==> f.requires(()),
        ensures
            annotated_lazy(self.as_result(), ErrorKind::Gone, f, outcome(out)),
    {
        self.msg_lazy(ErrorKind::Gone, f)
    }

    /// Marks a failure as [`ErrorKind::PreconditionFailed`], described by what `f` returns.
    fn precondition_failed_lazy<C: Context, F: FnOnce() -> C>(self, f: F) -> (out: Result<
        T,
        ErrorStatus<E>,
    >)
        requires
            self.as_result() is Err ==> f.requires(()),
        ensures
            annotated_lazy(self.as_result(), ErrorKind::PreconditionFailed, f, outcome(out)),
    {
        self.msg_lazy(ErrorKind::PreconditionFailed, f)
    }

    /// Marks a failure as [`ErrorKind::PayloadTooLarge`], described by what `f` returns.
    fn content_too_large_lazy<C: Context, F: FnOnce() -> C>(self, f: F) -> (out: Result<
        T,
        ErrorStatus<E>,
    >)
        requires
            self.as_result() is Err ==> f.requires(()),
        ensures
            annotated_lazy(self.as_result(), ErrorKind::PayloadTooLarge, f, outcome(out)),
    {
        self.msg_lazy(ErrorKind::PayloadTooLarge, f)
    }

    /// Marks a failure as [`ErrorKind::Unsupported`], described by what `f` returns.
    fn unsupported_lazy<C: Context, F: FnOnce() -> C>(self, f: F) -> (out: Result<
        T,
        ErrorStatus<E>,
    >)
        requires
            self.as_result() is Err ==> f.requires(()),
        ensures
            annotated_lazy(self.as_result(), ErrorKind::Unsupported, f, outcome(out)),
    {
        self.msg_lazy(ErrorKind::Unsupported, f)
    }

    /// Marks a failure as [`ErrorKind::UnprocessableEntity`], described by what `f` returns.
    fn unprocessable_content_lazy<C: Context, F: FnOnce() -> C>(self, f: F) -> (out: Result<
        T,
        ErrorStatus<E>,
    >)
        requires
            self.as_result() is Err ==> f.requires(()),
        ensures
            annotated_lazy(self.as_result(), ErrorKind::UnprocessableEntity, f, outcome(out)),
    {
        self.msg_lazy(ErrorKind::UnprocessableEntity, f)
    }

    /// Marks a failure as [`ErrorKind::TooManyRequests`], described by what `f` returns.
    fn too_many_requests_lazy<C: Context, F: FnOnce() -> C>(self, f: F) -> (out: Result<
        T,
        ErrorStatus<E>,
    >)
        requires
            self.as_result() is Err ==> f.requires(()),
        ensures
            annotated_lazy(self.as_result(), ErrorKind::TooManyRequests, f, outcome(out)),
    {
        self.msg_lazy(ErrorKind::TooManyRequests, f)
    }

    /// Marks a failure as [`ErrorKind::InternalError`], described by what `f` returns.
    fn internal_error_lazy<C: Context, F: FnOnce() -> C>(self, f: F) -> (out: Result<
        T,
        ErrorStatus<E>,
    >)
        requires
            self.as_result() is Err ==> f.requires(()),
        ensures
            annotated_lazy(self.as_result(), ErrorKind::InternalError, f, outcome(out)),
    {
        self.msg_lazy(ErrorKind::InternalError, f)
    }

    /// Marks a failure as [`ErrorKind::NotImplemented`], described by what `f` returns.
    fn not_implemented_lazy<C: Context, F: FnOnce() -> C>(self, f: F) -> (out: Result<
        T,
        ErrorStatus<E>,
    >)
        requires
            self.as_result() is Err ==> f.requires(()),
        ensures
            annotated_lazy(self.as_result(), ErrorKind::NotImplemented, f, outcome(out)),
    {
        self.msg_lazy(ErrorKind::NotImplemented, f)
    }

    /// Marks a failure as [`ErrorKind::Unavailable`], described by what `f` returns.
    fn unavailable_lazy<C: Context, F: FnOnce() -> C>(self, f: F) -> (out: Result<
        T,
        ErrorStatus<E>,
    >)
        requires
            self.as_result() is Err ==> f.requires(()),
        ensures
            annotated_lazy(self.as_result(), ErrorKind::Unavailable, f, outcome(out)),
    {
        self.msg_lazy(ErrorKind::Unavailable, f)
    }
}

impl<T, E> ResultExt<T, E> for Result<T, E> where E: Send + Sync + 'static {
}

impl<T, E> Sealed<T, E> for Result<T, E> where E: Send + Sync + 'static {
    open spec fn as_result(self) -> Result<T, E> {
        self
    }

    fn msg<C: Context>(self, kind: ErrorKind, context: C) -> (out: Result<T, ErrorStatus<E>>) {
        match self {
            Ok(value) => Ok(value),
            Err(source) => Err(ErrorStatus::from((kind, context.into_text(), source))),
        }
    }

    fn msg_lazy<C: Context, F: FnOnce() -> C>(self, kind: ErrorKind, f: F) -> (out: Result<
        T,
        ErrorStatus<E>,
    >) {
        match self {
            Ok(value) => Ok(value),
            Err(source) => {
                let context = f();
                Err(ErrorStatus::from((kind, context.into_text(), source)))
            },
        }
    }
}

} // verus!
