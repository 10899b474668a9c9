//! The callbacks that shape a prompt, and the defaults of its configuration.

use vstd::prelude::*;
use crate::input::views;

verus! {

/// Number of candidates shown at once unless a prompt says otherwise.
pub const DEFAULT_PAGE_SIZE: usize = 7;

/// Decides whether a text is acceptable as an answer. A validator is a pure
/// function: the same text always gets the same verdict.
pub trait StringValidator {
    /// The reason for which `text` is rejected, or `None` where it passes.
    /// An implementor that does not state it leaves the verdict unspecified.
    open spec fn verdict(&self, text: Seq<char>) -> Option<Seq<char>> {
        arbitrary()
    }

    /// Checks `text`: `Ok` where it passes, else the reason of the rejection.
    fn validate(&self, text: &str) -> (r: Result<(), String>)
        ensures
            r is Ok ==> self.verdict(text@) is None,
            r is Err ==> self.verdict(text@) == Some(r->Err_0@),
    ;
}

/// Turns an accepted answer into the text shown for it. A pure function.
pub trait StringFormatter {
    /// The text shown for `answer`. An implementor that does not state it
    /// leaves the text unspecified.
    open spec fn formatted(&self, answer: Seq<char>) -> Seq<char> {
        arbitrary()
    }

    /// Formats `answer` for display.
    fn format(&self, answer: &str) -> (r: String)
        ensures
            r@ == self.formatted(answer@),
    ;
}

/// Computes the candidate completions of a text, best first. A pure
/// function.
pub trait Suggester {
    /// The candidates for `text`, in order. An implementor that does not
    /// state them leaves them unspecified.
    open spec fn candidates(&self, text: Seq<char>) -> Seq<Seq<char>> {
        arbitrary()
    }

    /// The candidates for `text`, in order.
    fn suggest(&self, text: &str) -> (r: Vec<String>)
        ensures
            views(r@) == self.candidates(text@),
    ;
}

/// The formatter that shows an answer as it is.
#[derive(Clone, Copy, Debug)]
pub struct Verbatim;

impl StringFormatter for Verbatim {
    open spec fn formatted(&self, answer: Seq<char>) -> Seq<char> {
        answer
    }

    fn format(&self, answer: &str) -> (r: String) {
        answer.to_owned()
    }
}

/// The validator that rejects an empty answer.
#[derive(Clone, Copy, Debug)]
pub struct Required;

/// The reason with which [`Required`] rejects an empty answer.
pub open spec fn required_message() -> Seq<char> {
    "A response is required."@
}

impl StringValidator for Required {
    open spec fn verdict(&self, text: Seq<char>) -> Option<Seq<char>> {
        if text.len() == 0 {
            Some(required_message())
        } else {
            None
        }
    }

    fn validate(&self, text: &str) -> (r: Result<(), String>) {
        if text.is_empty() {
            Err("A response is required.".to_owned())
        } else {
            Ok(())
        }
    }
}

/// The suggester that never has a candidate.
#[derive(Clone, Copy, Debug)]
pub struct NoSuggestions;

impl Suggester for NoSuggestions {
    open spec fn candidates(&self, text: Seq<char>) -> Seq<Seq<char>> {
        Seq::empty()
    }

    fn suggest(&self, text: &str) -> (r: Vec<String>) {
        let r: Vec<String> = Vec::new();
        assert(views(r@) =~= Seq::<Seq<char>>::empty());
        r
    }
}

} // verus!
