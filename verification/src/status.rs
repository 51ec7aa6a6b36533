use vstd::prelude::*;
use vstd::string::StringExecFns;
use crate::kind::ErrorKind;

verus! {

/// What an [`ErrorStatus`] holds, as a mathematical value.
pub struct StatusView<E> {
    /// The classification.
    pub kind: ErrorKind,
    /// The description of what the caller was attempting.
    pub context: Seq<char>,
    /// The failure that the container was built from.
    pub source: E,
}

/// Error with context
///
/// The cause is kept as the value it was, under its own type `E`: a container
/// whose cause is itself a container is an `ErrorStatus<ErrorStatus<_>>`.
pub struct ErrorStatus<E> {
    inner: Box<Inner<E>>,
}

struct Inner<E> {
    kind: ErrorKind,
    context: String,
    source: E,
}

impl<E> View for ErrorStatus<E> {
    type V = StatusView<E>;

    open spec fn view(&self) -> StatusView<E> {
        StatusView { kind: self.parts().0, context: self.parts().1@, source: self.parts().2 }
    }
}

/// The one-line form of a container: the name of the classification, then
/// `" - "`, then the context. The cause is no part of it.
pub open spec fn rendered(kind: ErrorKind, context: Seq<char>) -> Seq<char> {
    kind.spec_name() + " - "@ + context
}

/// The diagnostic form of a container: the classification and the cause,
/// the latter by its own diagnostic text. The context is no part of it.
pub open spec fn debug_rendered(kind: ErrorKind, source: Seq<char>) -> Seq<char> {
    "Error { kind: "@ + kind.spec_name() + ", source: "@ + source + " }"@
}

impl<E> ErrorStatus<E> {
    /// The classification, the context and the cause that the container was
    /// built from.
    pub closed spec fn parts(&self) -> (ErrorKind, String, E) {
        (self.inner.kind, self.inner.context, self.inner.source)
    }

    /// Builds the container of a classification, a context and a cause.
    pub(crate) fn from(value: (ErrorKind, String, E)) -> (status: Self)
        ensures
            status.parts() == value,
    {
        ErrorStatus { inner: Box::new(Inner { kind: value.0, context: value.1, source: value.2 }) }
    }

    /// Takes the container apart again.
    pub(crate) fn into_parts(self) -> (parts: (ErrorKind, String, E))
        ensures
            parts == self.parts(),
    {
        let inner = *self.inner;
        (inner.kind, inner.context, inner.source)
    }

    /// The classification of the failure.
    pub fn kind(&self) -> (kind: ErrorKind)
        ensures
            kind == self@.kind,
    {
        self.inner.kind
    }

    /// The description of what the caller was attempting.
    pub fn context(&self) -> (context: &str)
        ensures
            context@ == self@.context,
    {
        self.inner.context.as_str()
    }

    /// The failure that this container was built from. Where that is a
    /// container too, its own `source` leads one step further down.
    pub fn source(&self) -> (source: &E)
        ensures
            *source == self@.source,
    {
        &self.inner.source
    }

    /// One line for a log, such as `NotFound - Failed to read file`.
    pub fn to_string(&self) -> (text: String)
        ensures
            text@ == rendered(self@.kind, self@.context),
    {
        let mut text = String::from_str(self.inner.kind.name());
        text.append(" - ");
        text.append(self.inner.context.as_str());
        text
    }

    /// The diagnostic form, such as `Error { kind: NotFound, source: .. }`,
    /// with `source` as the diagnostic text of the cause.
    pub fn debug_string(&self, source: &str) -> (text: String)
        ensures
            text@ == debug_rendered(self@.kind, source@),
    {
        let mut text = String::from_str("Error { kind: ");
        text.append(self.inner.kind.name());
        text.append(", source: ");
        text.append(source);
        text.append(" }");
        text
    }
}

} // verus!
