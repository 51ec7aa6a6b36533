//! What holds of every annotation and of every projection to a status code.

use vstd::prelude::*;
use vstd::std_specs::convert::FromSpec;
use crate::context::Context;
use crate::kind::ErrorKind;
use crate::result::{annotated, annotated_lazy, outcome};
use crate::status::{ErrorStatus, StatusView};

verus! {

/// Annotating a failure gives a failure whose container holds the chosen
/// classification, the given context, and the underlying failure as its cause,
/// whatever the three are.
pub proof fn failure_keeps_kind_context_and_cause<T, E>(
    source: E,
    kind: ErrorKind,
    context: Seq<char>,
)
    ensures
        annotated(Err::<T, E>(source), kind, context) == Err::<T, StatusView<E>>(
            (StatusView { kind, context, source }),
        ),
{
}

/// Annotating a success returns the success value unchanged, whichever
/// classification and context are supplied.
pub proof fn success_is_unchanged<T, E>(value: T, kind: ErrorKind, context: Seq<char>)
    ensures
        annotated(Ok::<T, E>(value), kind, context) == Ok::<T, StatusView<E>>(value),
{
}

/// On a failure the lazy form gives what the eager form gives for the context
/// that the producer resolves to.
pub proof fn lazy_agrees_with_eager<T, E, C: Context, F: FnOnce() -> C>(
    result: Result<T, E>,
    kind: ErrorKind,
    f: F,
    context: Seq<char>,
    out: Result<T, StatusView<E>>,
)
    requires
        annotated_lazy(result, kind, f, out),
        forall|produced: C| f.ensures((), produced) ==> #[trigger] produced.text() == context,
    ensures
        out == annotated(result, kind, context),
{
}

/// On a success the lazy form returns the success value unchanged, whatever
/// the producer is: nothing of the producer enters the result.
pub proof fn lazy_success_is_unchanged<T, E, C: Context, F: FnOnce() -> C>(
    value: T,
    kind: ErrorKind,
    f: F,
    out: Result<T, StatusView<E>>,
)
    requires
        annotated_lazy(Ok::<T, E>(value), kind, f, out),
    ensures
        out == Ok::<T, StatusView<E>>(value),
{
}

/// The status code of a container depends on its classification alone: two
/// containers of one classification have one code, whatever their contexts
/// and causes.
pub proof fn status_code_depends_on_kind_alone<D, E>(a: ErrorStatus<D>, b: ErrorStatus<E>)
    requires
        a@.kind == b@.kind,
    ensures
        u16::from_spec(a) == u16::from_spec(b),
        u16::from_spec(a) == a@.kind.spec_status_code(),
{
}

/// The pair form of the status projection is the status code of the
/// classification, with the context beside it as it stands.
pub proof fn status_pair_is_code_and_context<E>(status: ErrorStatus<E>)
    ensures
        <(u16, String)>::from_spec(status).0 == u16::from_spec(status),
        <(u16, String)>::from_spec(status).1@ == status@.context,
{
}

/// A container that becomes the cause of a new container is kept whole: after
/// two annotations of a failure the outer layer has the second classification
/// and context, its cause is the inner layer with the first classification and
/// context, and the cause of that is the underlying failure.
pub proof fn stacking_keeps_both_layers<T, E>(
    source: E,
    inner_kind: ErrorKind,
    inner_context: Seq<char>,
    first: Result<T, ErrorStatus<E>>,
    outer_kind: ErrorKind,
    outer_context: Seq<char>,
)
    requires
        outcome(first) == annotated(Err::<T, E>(source), inner_kind, inner_context),
    ensures
        first matches Err(inner) && {
            &&& inner@ == (StatusView { kind: inner_kind, context: inner_context, source })
            &&& annotated(first, outer_kind, outer_context) == Err::<T, StatusView<ErrorStatus<E>>>(
                (StatusView { kind: outer_kind, context: outer_context, source: inner }),
            )
        },
{
}

} // verus!
