use vstd::prelude::*;

verus! {

/// An error carrying a human-readable description. Every failure this
/// library reports — a malformed message, an untracked window, a missing
/// directory — is one of these, and the contracts pin the description down.
#[derive(Debug, Clone)]
pub struct GenericError {
    details: String,
}

impl View for GenericError {
    type V = Seq<char>;

    closed spec fn view(&self) -> Seq<char> {
        self.details@
    }
}

impl GenericError {
    pub fn new(details: &str) -> (e: GenericError)
        ensures
            e@ == details@,
    {
        GenericError { details: details.to_owned() }
    }

    /// The description, as the text a caller may report.
    pub fn message(&self) -> (r: String)
        ensures
            r@ == self@,
    {
        self.details.clone()
    }
}

} // verus!
