//! One piece of typed text: finished kana, or romaji still pending.
use vstd::prelude::*;
use super::{LetterType, PairView};
use crate::transformers::BufferState;
use crate::text::{pop_char};

verus! {

#[derive(Debug, PartialEq, Eq)]
pub struct BufferPair {
    buffer: String,
    state: BufferState,
    letter_type: LetterType,
}

impl View for BufferPair {
    type V = PairView;

    closed spec fn view(&self) -> PairView {
        (self.letter_type, self.buffer@, self.state)
    }
}

impl Clone for BufferPair {
    fn clone(&self) -> (r: Self)
        ensures
            r@ == self@,
    {
        BufferPair { buffer: self.buffer.clone(), state: self.state, letter_type: self.letter_type }
    }
}

impl BufferPair {
    pub fn new(letter_type: LetterType, buffer: &str, state: BufferState) -> (r: Self)
        ensures
            r@ == (letter_type, buffer@, state),
    {
        BufferPair { buffer: buffer.to_owned(), state, letter_type }
    }

    pub fn from_string(letter_type: LetterType, buffer: String, state: BufferState) -> (r: Self)
        ensures
            r@ == (letter_type, buffer@, state),
    {
        BufferPair { buffer, state, letter_type }
    }

    pub fn new_empty(letter_type: LetterType) -> (r: Self)
        ensures
            r@ == (letter_type, Seq::<char>::empty(), BufferState::Continue),
    {
        BufferPair { buffer: String::new(), state: BufferState::Continue, letter_type }
    }

    /// The pieces that typing a character turns this pair into.
    pub fn push(&self, character: char) -> (r: Option<Vec<BufferPair>>)
        ensures
            super::pairs_match_rule(r, self@.0, super::conversion(self@.0, self@.1, character)),
    {
        match self.letter_type {
            LetterType::Direct => super::direct::convert(self.buffer.as_str(), character),
            LetterType::Hiragana => super::hiragana::convert(self.buffer.as_str(), character),
            LetterType::Katakana => super::katakana::convert(self.buffer.as_str(), character),
            _ => None,
        }
    }

    pub fn is_stopped(&self) -> (r: bool)
        ensures
            r == (self@.2 == BufferState::Stop),
    {
        self.state == BufferState::Stop
    }

    pub fn to_string(&self) -> (r: String)
        ensures
            r@ == self@.1,
    {
        self.buffer.clone()
    }

    pub fn state(&self) -> (r: BufferState)
        ensures
            r == self@.2,
    {
        self.state
    }

    pub fn letter_type(&self) -> (r: LetterType)
        ensures
            r == self@.0,
    {
        self.letter_type
    }

    pub fn is_empty(&self) -> (r: bool)
        ensures
            r == (self@.1.len() == 0),
    {
        self.buffer.as_str().unicode_len() == 0
    }

    /// Removes the last character of the text and returns it.
    pub fn remove_last(&mut self) -> (r: Option<char>)
        ensures
            old(self)@.1.len() == 0 ==> r is None && final(self)@ == old(self)@,
            old(self)@.1.len() > 0 ==> r == Some(old(self)@.1.last()) && final(self)@ == (
                old(self)@.0,
                old(self)@.1.drop_last(),
                old(self)@.2,
            ),
    {
        pop_char(&mut self.buffer)
    }
}

} // verus!
