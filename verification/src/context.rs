use vstd::prelude::*;

verus! {

/// A value that says what a caller was attempting: anything with a textual
/// form that a container can keep as its context.
pub trait Context: Sized {
    /// The textual form of the value.
    spec fn text(&self) -> Seq<char>;

    /// Turns the value into its textual form.
    fn into_text(self) -> (text: String)
        ensures
            text@ == self.text(),
    ;
}

impl<'a> Context for &'a str {
    open spec fn text(&self) -> Seq<char> {
        self@
    }

    fn into_text(self) -> (text: String) {
        self.to_owned()
    }
}

impl Context for String {
    open spec fn text(&self) -> Seq<char> {
        self@
    }

    fn into_text(self) -> (text: String) {
        self
    }
}

} // verus!
