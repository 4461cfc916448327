use crate::error::DeriveError;
use crate::location::Location;
use vstd::prelude::*;

verus! {

/// A visibility, held as it is written: `pub`, `pub(crate)`,
/// `pub(in some::path)`, or nothing at all for a private item.
#[derive(Debug, PartialEq, Eq)]
pub struct Visibility {
    pub text: String,
}

impl View for Visibility {
    type V = Seq<char>;

    open spec fn view(&self) -> Seq<char> {
        self.text@
    }
}

impl DeepView for Visibility {
    type V = Seq<char>;

    open spec fn deep_view(&self) -> Seq<char> {
        self@
    }
}

impl Clone for Visibility {
    fn clone(&self) -> (copy: Visibility)
        ensures
            copy@ == self@,
    {
        Visibility { text: self.text.clone() }
    }
}

/// The error type of `syn`. Nothing is read from it.
#[verifier::external_type_specification]
#[verifier::external_body]
pub struct ExSynError(syn::Error);

/// Whether `syn::parse_str::<syn::Visibility>` returns `Ok` on `source`: the
/// text lexes, a visibility is parsed from its start, and no token is left
/// over.
pub uninterp spec fn syn_visibility(source: Seq<char>) -> bool;

/// Calls `syn::parse_str::<syn::Visibility>` on `source` and drops the
/// syntax tree. The contract claims only that the outcome is the same
/// whenever the text is the same.
#[verifier::external_body]
fn check_visibility(source: &str) -> (verdict: Result<(), syn::Error>)
    ensures
        verdict is Ok <==> syn_visibility(source@),
{
    match syn::parse_str::<syn::Visibility>(source) {
        Ok(_) => Ok(()),
        Err(refusal) => Err(refusal),
    }
}

impl Visibility {
    pub fn new(text: &str) -> (vis: Visibility)
        ensures
            vis@ == text@,
    {
        Visibility { text: String::from_str(text) }
    }

    /// The visibility written as `source`, given the parser's verdict on
    /// that text: the text itself where the parser took it, and otherwise
    /// an unsupported directive at `at`.
    pub fn from_verdict(
        source: String,
        verdict: Result<(), syn::Error>,
        at: Location,
    ) -> (vis: Result<Visibility, DeriveError>)
        ensures
            verdict is Ok ==> vis is Ok && vis->Ok_0@ == source@,
            verdict is Err ==> vis == Err::<Visibility, DeriveError>(
                DeriveError::UnsupportedDirective { at },
            ),
    {
        match verdict {
            Ok(_) => Ok(Visibility { text: source }),
            Err(_) => Err(DeriveError::UnsupportedDirective { at }),
        }
    }

    /// Reads `source` as a visibility. A text that is no visibility is an
    /// unsupported directive at `at`.
    pub fn parse(source: String, at: Location) -> (vis: Result<Visibility, DeriveError>)
        ensures
            syn_visibility(source@) ==> vis is Ok && vis->Ok_0@ == source@,
            !syn_visibility(source@) ==> vis == Err::<Visibility, DeriveError>(
                DeriveError::UnsupportedDirective { at },
            ),
    {
        let verdict = check_visibility(source.as_str());
        Visibility::from_verdict(source, verdict, at)
    }
}

} // verus!
