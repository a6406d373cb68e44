//! The direct table: every character is kept as it is.
use vstd::prelude::*;
use super::{BufferPair, LetterType};
use crate::transformers::BufferState;
use crate::text::string_of_char;

verus! {

pub fn convert(current_buffer: &str, character: char) -> (r: Option<Vec<BufferPair>>)
    ensures
        super::pairs_match_rule(r, LetterType::Direct, super::conversion(LetterType::Direct, current_buffer@, character)),
{
    let v = vec![BufferPair::from_string(LetterType::Direct, string_of_char(character), BufferState::Stop)];
    assert(super::pieces_as_pairs(LetterType::Direct, seq![(seq![character], BufferState::Stop)]) =~= v@.map_values(|p: BufferPair| p@));
    Some(v)
}

} // verus!
