use vstd::prelude::*;
use vstd::std_specs::convert::FromSpecImpl;
use crate::kind::ErrorKind;
use crate::status::ErrorStatus;

verus! {

impl ErrorKind {
    /// The HTTP status code that stands for the classification.
    pub open spec fn spec_status_code(self) -> u16 {
        match self {
            ErrorKind::BadRequest => 400,
            ErrorKind::Unauthorized => 401,
            ErrorKind::Forbidden => 403,
            ErrorKind::NotFound => 404,
            ErrorKind::MethodNotAllowed => 405,
            ErrorKind::RequestTimeout => 408,
            ErrorKind::Gone => 410,
            ErrorKind::PreconditionFailed => 412,
            ErrorKind::PayloadTooLarge => 413,
            ErrorKind::Unsupported => 415,
            ErrorKind::UnprocessableEntity => 422,
            ErrorKind::TooManyRequests => 429,
            ErrorKind::InternalError => 500,
            ErrorKind::NotImplemented => 501,
            ErrorKind::Unavailable => 503,
        }
    }

    /// The HTTP status code that stands for the classification.
    #[verifier::when_used_as_spec(spec_status_code)]
    pub fn status_code(self) -> (code: u16)
        ensures
            code == self.spec_status_code(),
    {
        match self {
            ErrorKind::BadRequest => 400,
            ErrorKind::Unauthorized => 401,
            ErrorKind::Forbidden => 403,
            ErrorKind::NotFound => 404,
            ErrorKind::MethodNotAllowed => 405,
            ErrorKind::RequestTimeout => 408,
            ErrorKind::Gone => 410,
            ErrorKind::PreconditionFailed => 412,
            ErrorKind::PayloadTooLarge => 413,
            ErrorKind::Unsupported => 415,
            ErrorKind::UnprocessableEntity => 422,
            ErrorKind::TooManyRequests => 429,
            ErrorKind::InternalError => 500,
            ErrorKind::NotImplemented => 501,
            ErrorKind::Unavailable => 503,
        }
    }
}

/// A container converts to the status code of its classification.
impl<E> From<ErrorStatus<E>> for u16 {
    fn from(value: ErrorStatus<E>) -> (code: u16)
        ensures
            code == value@.kind.spec_status_code(),
    {
        value.kind().status_code()
    }
}

impl<E> FromSpecImpl<ErrorStatus<E>> for u16 {
    open spec fn obeys_from_spec() -> bool {
        true
    }

    open spec fn from_spec(value: ErrorStatus<E>) -> u16 {
        value@.kind.spec_status_code()
    }
}

/// A container converts to the status code of its classification and, as the
/// message, its context: neither the one-line form nor anything of the cause.
impl<E> From<ErrorStatus<E>> for (u16, String) {
    fn from(value: ErrorStatus<E>) -> (pair: (u16, String))
        ensures
            pair.0 == value@.kind.spec_status_code(),
            pair.1@ == value@.context,
    {
        let parts = value.into_parts();
        (parts.0.status_code(), parts.1)
    }
}

impl<E> FromSpecImpl<ErrorStatus<E>> for (u16, String) {
    open spec fn obeys_from_spec() -> bool {
        true
    }

    open spec fn from_spec(value: ErrorStatus<E>) -> (u16, String) {
        (value@.kind.spec_status_code(), value.parts().1)
    }
}

} // verus!
