//! A candidate word of a dictionary entry, with an optional annotation.
use vstd::prelude::*;
use crate::text::{chars_of, split_once_chars, split_once_spec, string_of, trim_chars, trim_spec};

verus! {

/// A candidate as a value: its word and its annotation.
pub type CandidateView = (Seq<char>, Option<Seq<char>>);

/// The candidate that a piece of a dictionary line denotes: the trimmed
/// piece is split at its first `;` into the word and the annotation; a
/// piece with no word denotes none.
pub open spec fn parse_candidate_spec(s: Seq<char>) -> Option<CandidateView> {
    let (entry, annotation) = split_once_spec(trim_spec(s), ';');
    if entry.len() == 0 {
        None
    } else {
        Some((entry, annotation))
    }
}

pub open spec fn option_string_view(o: Option<String>) -> Option<Seq<char>> {
    match o {
        Some(s) => Some(s@),
        None => None,
    }
}

#[derive(Eq, PartialEq, Debug)]
pub struct Candidate {
    pub entry: String,
    pub annotation: Option<String>,
}

impl View for Candidate {
    type V = CandidateView;

    open spec fn view(&self) -> CandidateView {
        (self.entry@, option_string_view(self.annotation))
    }
}

pub fn clone_option_string(o: &Option<String>) -> (r: Option<String>)
    ensures
        option_string_view(r) == option_string_view(*o),
{
    match o {
        Some(s) => Some(s.clone()),
        None => None,
    }
}

pub fn option_string_equal(a: &Option<String>, b: &Option<String>) -> (r: bool)
    ensures
        r == (option_string_view(*a) == option_string_view(*b)),
{
    match (a, b) {
        (Some(x), Some(y)) => *x == *y,
        (None, None) => true,
        _ => false,
    }
}

impl Clone for Candidate {
    fn clone(&self) -> (r: Self)
        ensures
            r@ == self@,
    {
        Candidate { entry: self.entry.clone(), annotation: clone_option_string(&self.annotation) }
    }
}

impl Candidate {
    pub fn new(entry: &str, annotation: Option<&str>) -> (r: Self)
        ensures
            r@.0 == entry@,
            r@.1 == match annotation {
                Some(a) => Some(a@),
                None => None::<Seq<char>>,
            },
    {
        Candidate {
            entry: entry.to_owned(),
            annotation: match annotation {
                Some(s) => Some(s.to_owned()),
                None => None,
            },
        }
    }

    /// Whether two candidates are the same.
    pub fn same(&self, other: &Candidate) -> (r: bool)
        ensures
            r == (self@ == other@),
    {
        self.entry == other.entry && option_string_equal(&self.annotation, &other.annotation)
    }

    pub fn parse_chars(string: &[char]) -> (r: Option<Self>)
        ensures
            match (r, parse_candidate_spec(string@)) {
                (Some(c), Some(v)) => c@ == v,
                (None, None) => true,
                _ => false,
            },
    {
        let trimmed = trim_chars(string);
        let (entry, annotation) = split_once_chars(trimmed.as_slice(), ';');
        if entry.len() == 0 {
            return None;
        }
        Some(
            Candidate {
                entry: string_of(entry.as_slice()),
                annotation: match annotation {
                    Some(v) => Some(string_of(v.as_slice())),
                    None => None,
                },
            },
        )
    }

    /// The candidate that a piece of a dictionary line denotes.
    pub fn parse(string: &str) -> (r: Option<Self>)
        ensures
            match (r, parse_candidate_spec(string@)) {
                (Some(c), Some(v)) => c@ == v,
                (None, None) => true,
                _ => false,
            },
    {
        let chars = chars_of(string);
        Self::parse_chars(chars.as_slice())
    }
}

} // verus!
