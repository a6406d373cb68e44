//! A dictionary entry: a reading and its candidate words.
use vstd::prelude::*;
use super::candidate::{Candidate, CandidateView, parse_candidate_spec};
use crate::text::{chars_of, split_terminator_chars, split_terminator_spec, string_of, trim_chars, trim_spec};

verus! {

/// An entry as a value: its reading and its candidates, in order.
pub type EntryView = (Seq<char>, Seq<CandidateView>);

pub open spec fn nonempty_piece(x: Seq<char>) -> bool {
    x.len() != 0
}

/// The entry that a dictionary line denotes.  A line that starts with `;;`
/// (after trimming) is a comment.  Otherwise the line is split at `/`; it
/// needs at least two pieces.  Empty pieces are skipped; the first piece is
/// the reading (trimmed), the others are candidates, of which at least one
/// must parse.
pub open spec fn parse_entry_spec(s: Seq<char>) -> Option<EntryView> {
    let t = trim_spec(s);
    if t.len() >= 2 && t[0] == ';' && t[1] == ';' {
        None
    } else {
        let items = split_terminator_spec(t, '/');
        if items.len() < 2 {
            None
        } else {
            let kept = items.filter(|x: Seq<char>| nonempty_piece(x));
            if kept.len() == 0 {
                None
            } else {
                let candidates = kept.drop_first().filter_map(|x: Seq<char>| parse_candidate_spec(x));
                if candidates.len() == 0 {
                    None
                } else {
                    Some((trim_spec(kept[0]), candidates))
                }
            }
        }
    }
}

pub open spec fn candidates_view(v: Seq<Candidate>) -> Seq<CandidateView> {
    v.map_values(|c: Candidate| c@)
}

#[derive(Eq, PartialEq, Debug)]
pub struct DictionaryEntry {
    pub read: String,
    pub candidates: Vec<Candidate>,
}

impl View for DictionaryEntry {
    type V = EntryView;

    open spec fn view(&self) -> EntryView {
        (self.read@, candidates_view(self.candidates@))
    }
}

/// Copies a list of candidates.
pub fn clone_candidates(v: &Vec<Candidate>) -> (r: Vec<Candidate>)
    ensures
        candidates_view(r@) == candidates_view(v@),
{
    let mut out: Vec<Candidate> = Vec::new();
    let mut i: usize = 0;
    while i < v.len()
        invariant
            i <= v@.len(),
            out@.len() == i,
            forall|j: int| 0 <= j < i ==> (#[trigger] out@[j])@ == v@[j]@,
        decreases v@.len() - i,
    {
        out.push(v[i].clone());
        i = i + 1;
    }
    assert(candidates_view(out@) =~= candidates_view(v@));
    out
}

impl Clone for DictionaryEntry {
    fn clone(&self) -> (r: Self)
        ensures
            r@ == self@,
    {
        DictionaryEntry { read: self.read.clone(), candidates: clone_candidates(&self.candidates) }
    }
}

impl DictionaryEntry {
    pub fn new(read: &str, candidates: Vec<Candidate>) -> (r: Self)
        ensures
            r@ == (read@, candidates_view(candidates@)),
    {
        DictionaryEntry { read: read.to_owned(), candidates }
    }

    /// Whether two entries are the same.
    pub fn same(&self, other: &DictionaryEntry) -> (r: bool)
        ensures
            r == (self@ == other@),
    {
        if self.read != other.read {
            return false;
        }
        if self.candidates.len() != other.candidates.len() {
            assert(candidates_view(self.candidates@).len() != candidates_view(other.candidates@).len());
            return false;
        }
        let mut i: usize = 0;
        while i < self.candidates.len()
            invariant
                i <= self.candidates@.len(),
                self.candidates@.len() == other.candidates@.len(),
                forall|j: int| 0 <= j < i ==> (#[trigger] self.candidates@[j])@ == other.candidates@[j]@,
            decreases self.candidates@.len() - i,
        {
            if !self.candidates[i].same(&other.candidates[i]) {
                assert(candidates_view(self.candidates@)[i as int] != candidates_view(other.candidates@)[i as int]);
                return false;
            }
            i = i + 1;
        }
        assert(candidates_view(self.candidates@) =~= candidates_view(other.candidates@));
        true
    }

    /// The entry that a dictionary line denotes.
    pub fn parse(string: &str) -> (r: Option<Self>)
        ensures
            match (r, parse_entry_spec(string@)) {
                (Some(e), Some(v)) => e@ == v,
                (None, None) => true,
                _ => false,
            },
    {
        let chars = chars_of(string);
        let trimmed = trim_chars(chars.as_slice());
        let ghost t = trim_spec(string@);
        if trimmed.len() >= 2 && trimmed[0] == ';' && trimmed[1] == ';' {
            return None;
        }
        let items = split_terminator_chars(trimmed.as_slice(), '/');
        let ghost items_v = split_terminator_spec(t, '/');
        if items.len() < 2 {
            return None;
        }
        let mut kept: Vec<Vec<char>> = Vec::new();
        let mut i: usize = 0;
        while i < items.len()
            invariant
                i <= items@.len(),
                items@.len() == items_v.len(),
                forall|j: int| 0 <= j < items@.len() ==> (#[trigger] items@[j])@ == items_v[j],
                kept@.map_values(|v: Vec<char>| v@) == items_v.subrange(0, i as int).filter(|x: Seq<char>| nonempty_piece(x)),
            decreases items@.len() - i,
        {
            proof {
                reveal_with_fuel(Seq::<Seq<char>>::filter, 1);
                assert(items_v.subrange(0, i + 1).drop_last() =~= items_v.subrange(0, i as int));
            }
            let ghost prev = kept@.map_values(|v: Vec<char>| v@);
            if items[i].len() != 0 {
                let piece = items[i].clone();
                kept.push(piece);
                assert(kept@.map_values(|v: Vec<char>| v@) =~= prev.push(items_v[i as int]));
            }
            i = i + 1;
        }
        assert(items_v.subrange(0, items_v.len() as int) =~= items_v);
        let ghost kept_v = items_v.filter(|x: Seq<char>| nonempty_piece(x));
        if kept.len() == 0 {
            return None;
        }
        assert(kept@[0]@ == kept_v[0]);
        let read_chars = trim_chars(kept[0].as_slice());
        let read = string_of(read_chars.as_slice());
        let mut candidates: Vec<Candidate> = Vec::new();
        let mut k: usize = 1;
        while k < kept.len()
            invariant
                1 <= k <= kept@.len(),
                kept@.map_values(|v: Vec<char>| v@) == kept_v,
                candidates_view(candidates@) == kept_v.subrange(1, k as int).filter_map(|x: Seq<char>| parse_candidate_spec(x)),
            decreases kept@.len() - k,
        {
            assert(kept@[k as int]@ == kept_v[k as int]);
            let c = Candidate::parse_chars(kept[k].as_slice());
            assert(kept_v.subrange(1, k + 1).drop_last() =~= kept_v.subrange(1, k as int));
            assert(kept_v.subrange(1, k + 1).last() == kept_v[k as int]);
            match c {
                Some(c) => {
                    let ghost prev = candidates_view(candidates@);
                    candidates.push(c);
                    assert(candidates_view(candidates@) =~= prev + seq![c@]);
                },
                None => {},
            }
            k = k + 1;
        }
        assert(kept_v.subrange(1, kept_v.len() as int) =~= kept_v.drop_first());
        if candidates.len() == 0 {
            return None;
        }
        Some(DictionaryEntry { read, candidates })
    }
}

} // verus!
