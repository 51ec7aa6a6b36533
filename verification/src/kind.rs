use vstd::prelude::*;

verus! {

/// Error code modeled after HTTP status semantics.
#[derive(Debug, Clone, Copy, PartialEq, Eq, Hash, Structural)]
#[non_exhaustive]
pub enum ErrorKind {
    // ==== Client errors ====
    BadRequest,
    Unauthorized,
    Forbidden,
    NotFound,
    MethodNotAllowed,
    RequestTimeout,
    Gone,
    PreconditionFailed,
    PayloadTooLarge,
    Unsupported,
    UnprocessableEntity,
    TooManyRequests,
    // ==== Server errors ====
    InternalError,
    NotImplemented,
    Unavailable,
}

impl ErrorKind {
    /// The name of the variant, as its `Debug` form prints it.
    pub open spec fn spec_name(self) -> Seq<char> {
        match self {
            ErrorKind::BadRequest => "BadRequest"@,
            ErrorKind::Unauthorized => "Unauthorized"@,
            ErrorKind::Forbidden => "Forbidden"@,
            ErrorKind::NotFound => "NotFound"@,
            ErrorKind::MethodNotAllowed => "MethodNotAllowed"@,
            ErrorKind::RequestTimeout => "RequestTimeout"@,
            ErrorKind::Gone => "Gone"@,
            ErrorKind::PreconditionFailed => "PreconditionFailed"@,
            ErrorKind::PayloadTooLarge => "PayloadTooLarge"@,
            ErrorKind::Unsupported => "Unsupported"@,
            ErrorKind::UnprocessableEntity => "UnprocessableEntity"@,
            ErrorKind::TooManyRequests => "TooManyRequests"@,
            ErrorKind::InternalError => "InternalError"@,
            ErrorKind::NotImplemented => "NotImplemented"@,
            ErrorKind::Unavailable => "Unavailable"@,
        }
    }

    /// Name of the variant.
    pub fn name(self) -> (name: &'static str)
        ensures
            name@ == self.spec_name(),
    {
        match self {
            ErrorKind::BadRequest => "BadRequest",
            ErrorKind::Unauthorized => "Unauthorized",
            ErrorKind::Forbidden => "Forbidden",
            ErrorKind::NotFound => "NotFound",
            ErrorKind::MethodNotAllowed => "MethodNotAllowed",
            ErrorKind::RequestTimeout => "RequestTimeout",
            ErrorKind::Gone => "Gone",
            ErrorKind::PreconditionFailed => "PreconditionFailed",
            ErrorKind::PayloadTooLarge => "PayloadTooLarge",
            ErrorKind::Unsupported => "Unsupported",
            ErrorKind::UnprocessableEntity => "UnprocessableEntity",
            ErrorKind::TooManyRequests => "TooManyRequests",
            ErrorKind::InternalError => "InternalError",
            ErrorKind::NotImplemented => "NotImplemented",
            ErrorKind::Unavailable => "Unavailable",
        }
    }
}

} // verus!
