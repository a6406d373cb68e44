//! Romaji conversion tables and the buffers that they fill.
pub mod buffer_pair;
pub mod buffer_pairs;
pub mod direct;
pub mod hiragana;
pub mod katakana;
pub mod laws;

use vstd::prelude::*;
use super::BufferState;

pub use buffer_pair::BufferPair;
pub use buffer_pairs::BufferPairs;

verus! {

#[derive(PartialEq, Eq, Structural, Clone, Copy, Hash, Debug)]
pub enum LetterType {
    Direct,
    Hiragana,
    Katakana,
    EnKatakana,
    EmEisu,
}

/// A pair as a value: its letter type, its text and whether it is finished.
pub type PairView = (LetterType, Seq<char>, BufferState);

/// The first pending romaji character, if any.
pub open spec fn prefix0(buf: Seq<char>) -> Option<char> {
    if buf.len() >= 1 { Some(buf[0]) } else { None }
}

/// The second pending romaji character, if any.
pub open spec fn prefix1(buf: Seq<char>) -> Option<char> {
    if buf.len() >= 2 { Some(buf[1]) } else { None }
}

/// What typing a character turns a pair's pending text into, by the table
/// of the pair's letter type: the direct table keeps the character as it
/// is; the kana tables look up the lower-cased character after the pending
/// romaji (which is at most two characters long); the other letter types
/// have no table.
pub open spec fn conversion(lt: LetterType, buf: Seq<char>, c: char) -> Option<Seq<(Seq<char>, BufferState)>> {
    match lt {
        LetterType::Direct => Some(seq![(seq![c], BufferState::Stop)]),
        LetterType::Hiragana => if buf.len() <= 2 {
            hiragana::hiragana_table(prefix0(buf), prefix1(buf), crate::text::spec_lowercase_first(c))
        } else {
            None
        },
        LetterType::Katakana => if buf.len() <= 2 {
            katakana::katakana_table(prefix0(buf), prefix1(buf), crate::text::spec_lowercase_first(c))
        } else {
            None
        },
        _ => None,
    }
}

/// Whether a rule built at run time is the rule of a table.
pub open spec fn rule_matches(r: Option<Vec<(String, BufferState)>>, t: Option<Seq<(Seq<char>, BufferState)>>) -> bool {
    match (r, t) {
        (Some(v), Some(t)) => v@.len() == t.len() && forall|i: int|
            0 <= i < t.len() ==> (#[trigger] v@[i]).0@ == t[i].0 && v@[i].1 == t[i].1,
        (None, None) => true,
        _ => false,
    }
}

/// Whether pairs built at run time are the pieces of a rule, of one letter type.
pub open spec fn pairs_match_rule(r: Option<Vec<BufferPair>>, lt: LetterType, t: Option<Seq<(Seq<char>, BufferState)>>) -> bool {
    match (r, t) {
        (Some(v), Some(t)) => pieces_as_pairs(lt, t) == v@.map_values(|p: BufferPair| p@),
        (None, None) => true,
        _ => false,
    }
}

/// The pieces of a rule as pairs of one letter type.
pub open spec fn pieces_as_pairs(lt: LetterType, t: Seq<(Seq<char>, BufferState)>) -> Seq<PairView> {
    t.map_values(|p: (Seq<char>, BufferState)| (lt, p.0, p.1))
}

/// Turns the pieces of a rule into pairs of one letter type.
pub(crate) fn pairs_from_rule(
    lt: LetterType,
    rule: Option<Vec<(String, BufferState)>>,
    Ghost(t): Ghost<Option<Seq<(Seq<char>, BufferState)>>>,
) -> (r: Option<Vec<BufferPair>>)
    requires
        rule_matches(rule, t),
    ensures
        pairs_match_rule(r, lt, t),
{
    match rule {
        None => None,
        Some(pieces) => {
            let mut out: Vec<BufferPair> = Vec::new();
            let mut i: usize = 0;
            while i < pieces.len()
                invariant
                    i <= pieces@.len(),
                    out@.len() == i,
                    forall|j: int| 0 <= j < i ==> (#[trigger] out@[j])@ == (lt, pieces@[j].0@, pieces@[j].1),
                decreases pieces@.len() - i,
            {
                let (s, st) = (pieces[i].0.clone(), pieces[i].1);
                out.push(BufferPair::from_string(lt, s, st));
                i = i + 1;
            }
            assert(out@.map_values(|p: BufferPair| p@) =~= pieces_as_pairs(lt, t->0));
            Some(out)
        }
    }
}

} // verus!
