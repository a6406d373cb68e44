//! A converted word with an optional annotation, as entries once held them.
use vstd::prelude::*;
use super::candidate::{CandidateView, parse_candidate_spec, option_string_view};
use crate::text::{chars_of, split_once_chars, string_of, trim_chars};

verus! {

#[derive(Eq, PartialEq, Debug, Hash)]
pub struct TransformEntry {
    pub entry: String,
    pub annotation: Option<String>,
}

impl View for TransformEntry {
    type V = CandidateView;

    open spec fn view(&self) -> CandidateView {
        (self.entry@, option_string_view(self.annotation))
    }
}

impl TransformEntry {
    pub fn new(entry: String, annotation: Option<String>) -> (r: Self)
        ensures
            r.entry == entry,
            r.annotation == annotation,
    {
        TransformEntry { entry, annotation }
    }

    /// The entry that a piece of a dictionary line denotes, read as a
    /// candidate is.
    pub fn parse(string: &str) -> (r: Option<Self>)
        ensures
            match (r, parse_candidate_spec(string@)) {
                (Some(c), Some(v)) => c@ == v,
                (None, None) => true,
                _ => false,
            },
    {
        let chars = chars_of(string);
        let trimmed = trim_chars(chars.as_slice());
        let (entry, annotation) = split_once_chars(trimmed.as_slice(), ';');
        if entry.len() == 0 {
            return None;
        }
        Some(
            TransformEntry::new(
                string_of(entry.as_slice()),
                match annotation {
                    Some(v) => Some(string_of(v.as_slice())),
                    None => None,
                },
            ),
        )
    }
}

} // verus!
