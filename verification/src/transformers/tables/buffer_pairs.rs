//! A sequence of pairs: the text typed so far in one letter type.
use vstd::prelude::*;
use super::{BufferPair, BufferState, LetterType, PairView, conversion, pieces_as_pairs};
use crate::text::concat;

verus! {

/// The text of a sequence of pairs.
pub open spec fn concat_pairs(s: Seq<PairView>) -> Seq<char>
    decreases s.len(),
{
    if s.len() == 0 {
        Seq::<char>::empty()
    } else {
        concat_pairs(s.drop_last()) + s.last().1
    }
}

/// The pairs before a character is typed: a new pending pair is opened
/// when there is none or the last one is finished.
pub open spec fn with_open_pair(pairs: Seq<PairView>, lt: LetterType) -> Seq<PairView> {
    if pairs.len() == 0 || pairs.last().2 == BufferState::Stop {
        pairs.push((lt, Seq::<char>::empty(), BufferState::Continue))
    } else {
        pairs
    }
}

/// Typing a character: the open pair is replaced by what the table turns it
/// into, or dropped when the table has no rule for it.
pub open spec fn push_spec(pairs: Seq<PairView>, lt: LetterType, c: char) -> Seq<PairView> {
    let base = with_open_pair(pairs, lt);
    let last = base.last();
    match conversion(last.0, last.1, c) {
        Some(t) => base.drop_last() + pieces_as_pairs(last.0, t),
        None => base.drop_last(),
    }
}

/// Typing the characters of a text one after the other.
pub open spec fn from_spec(lt: LetterType, s: Seq<char>) -> Seq<PairView>
    decreases s.len(),
{
    if s.len() == 0 {
        Seq::<PairView>::empty()
    } else {
        push_spec(from_spec(lt, s.drop_last()), lt, s.last())
    }
}

/// Removing the last piece: a finished pair goes whole; from a pending
/// pair its last romaji character goes, as a finished piece.
pub open spec fn remove_last_spec(pairs: Seq<PairView>, lt: LetterType) -> (Option<PairView>, Seq<PairView>) {
    if pairs.len() == 0 {
        (None, pairs)
    } else {
        let last = pairs.last();
        if last.2 == BufferState::Stop {
            (Some(last), pairs.drop_last())
        } else if last.1.len() == 0 {
            (None, pairs.drop_last())
        } else {
            (
                Some((lt, seq![last.1.last()], BufferState::Stop)),
                if last.1.len() > 1 {
                    pairs.drop_last().push((last.0, last.1.drop_last(), last.2))
                } else {
                    pairs.drop_last()
                },
            )
        }
    }
}

pub open spec fn is_stop(p: PairView) -> bool {
    p.2 == BufferState::Stop
}

pub open spec fn is_continue(p: PairView) -> bool {
    p.2 == BufferState::Continue
}

/// Direct input keeps the text as it is typed: every character becomes a
/// finished pair of its own.
pub proof fn law_direct_keeps_text(s: Seq<char>)
    ensures
        concat_pairs(from_spec(LetterType::Direct, s)) == s,
        forall|i: int| 0 <= i < from_spec(LetterType::Direct, s).len()
            ==> #[trigger] from_spec(LetterType::Direct, s)[i] == (LetterType::Direct, seq![s[i]], BufferState::Stop),
        from_spec(LetterType::Direct, s).len() == s.len(),
    decreases s.len(),
{
    if s.len() > 0 {
        let t = s.drop_last();
        law_direct_keeps_text(t);
        let p = from_spec(LetterType::Direct, t);
        let c = s.last();
        let base = with_open_pair(p, LetterType::Direct);
        assert(base == p.push((LetterType::Direct, Seq::<char>::empty(), BufferState::Continue)));
        assert(base.drop_last() =~= p);
        let piece = seq![(LetterType::Direct, seq![c], BufferState::Stop)];
        assert(pieces_as_pairs(LetterType::Direct, seq![(seq![c], BufferState::Stop)]) =~= piece);
        let q = from_spec(LetterType::Direct, s);
        assert(q =~= p + piece);
        assert(q.drop_last() =~= p);
        assert forall|i: int| 0 <= i < q.len() implies #[trigger] q[i] == (LetterType::Direct, seq![s[i]], BufferState::Stop) by {
            if i < p.len() {
                assert(q[i] == p[i]);
                assert(t[i] == s[i]);
            }
        }
        assert(t.push(c) =~= s);
    }
}

#[derive(Debug)]
pub struct BufferPairs {
    buffer: Vec<BufferPair>,
    letter_type: LetterType,
}

impl View for BufferPairs {
    type V = Seq<PairView>;

    closed spec fn view(&self) -> Seq<PairView> {
        self.buffer@.map_values(|p: BufferPair| p@)
    }
}

impl Clone for BufferPairs {
    fn clone(&self) -> (r: Self)
        ensures
            r@ == self@,
            r.kind() == self.kind(),
    {
        let mut out: Vec<BufferPair> = Vec::new();
        let mut i: usize = 0;
        while i < self.buffer.len()
            invariant
                i <= self.buffer@.len(),
                out@.len() == i,
                forall|j: int| 0 <= j < i ==> (#[trigger] out@[j])@ == self.buffer@[j]@,
            decreases self.buffer@.len() - i,
        {
            out.push(self.buffer[i].clone());
            i = i + 1;
        }
        let r = BufferPairs { buffer: out, letter_type: self.letter_type };
        assert(r@ =~= self@);
        r
    }
}

impl BufferPairs {
    /// The letter type of the text.
    pub closed spec fn kind(&self) -> LetterType {
        self.letter_type
    }

    pub fn new(letter_type: LetterType) -> (r: Self)
        ensures
            r@ == Seq::<PairView>::empty(),
            r.kind() == letter_type,
    {
        let r = BufferPairs { buffer: Vec::new(), letter_type };
        assert(r@ =~= Seq::<PairView>::empty());
        r
    }

    /// The pairs, in order.
    pub fn pairs(&self) -> (r: &Vec<BufferPair>)
        ensures
            r@.map_values(|p: BufferPair| p@) == self@,
    {
        &self.buffer
    }

    /// Types a character.
    pub fn push(&mut self, character: char)
        ensures
            final(self)@ == push_spec(old(self)@, old(self).kind(), character),
            final(self).kind() == old(self).kind(),
    {
        let n: usize = self.buffer.len();
        if n == 0 || self.buffer[n - 1].is_stopped() {
            self.buffer.push(BufferPair::new_empty(self.letter_type));
        }
        assert(self@ =~= with_open_pair(old(self)@, old(self).kind()));
        let ghost base = self@;
        let pair = self.buffer.pop().unwrap();
        assert(self@ =~= base.drop_last());
        match pair.push(character) {
            Some(pieces) => {
                let mut i: usize = 0;
                while i < pieces.len()
                    invariant
                        i <= pieces@.len(),
                        self@ == base.drop_last() + pieces@.map_values(|p: BufferPair| p@).subrange(0, i as int),
                        self.letter_type == old(self).letter_type,
                    decreases pieces@.len() - i,
                {
                    let ghost prev = self@;
                    let c = pieces[i].clone();
                    self.buffer.push(c);
                    assert(self@ =~= prev.push(pieces@[i as int]@));
                    assert(pieces@.map_values(|p: BufferPair| p@).subrange(0, i + 1) =~= pieces@.map_values(|p: BufferPair| p@).subrange(0, i as int).push(pieces@[i as int]@));
                    assert(self@ =~= base.drop_last() + pieces@.map_values(|p: BufferPair| p@).subrange(0, i + 1));
                    i = i + 1;
                }
                assert(pieces@.map_values(|p: BufferPair| p@).subrange(0, pieces@.len() as int) =~= pieces@.map_values(|p: BufferPair| p@));
            },
            None => {},
        }
    }

    pub fn is_stopped(&self) -> (r: bool)
        ensures
            r == (self@.len() > 0 && self@.last().2 == BufferState::Stop),
    {
        let n: usize = self.buffer.len();
        if n == 0 {
            false
        } else {
            self.buffer[n - 1].is_stopped()
        }
    }

    /// Removes the last piece and returns it as a finished pair.
    pub fn remove_last(&mut self) -> (r: Option<BufferPair>)
        ensures
            ({
                let (piece, rest) = remove_last_spec(old(self)@, old(self).kind());
                &&& final(self)@ == rest
                &&& match (r, piece) {
                    (Some(p), Some(q)) => p@ == q,
                    (None, None) => true,
                    _ => false,
                }
            }),
            final(self).kind() == old(self).kind(),
    {
        let n: usize = self.buffer.len();
        if n == 0 {
            return None;
        }
        let mut pair = self.buffer.pop().unwrap();
        assert(self@ =~= old(self)@.drop_last());
        match pair.state() {
            BufferState::Stop => Some(pair),
            BufferState::Continue => {
                let character = pair.remove_last();
                match character {
                    None => None,
                    Some(c) => {
                        let ret = BufferPair::from_string(self.letter_type, crate::text::string_of_char(c), BufferState::Stop);
                        if !pair.is_empty() {
                            self.buffer.push(pair);
                            assert(self@ =~= old(self)@.drop_last().push(pair@));
                        }
                        Some(ret)
                    },
                }
            },
        }
    }

    /// The text of all pairs.
    pub fn to_string(&self) -> (r: String)
        ensures
            r@ == concat_pairs(self@),
    {
        let mut s = String::new();
        let mut i: usize = 0;
        while i < self.buffer.len()
            invariant
                i <= self.buffer@.len(),
                s@ == concat_pairs(self@.subrange(0, i as int)),
            decreases self.buffer@.len() - i,
        {
            let piece = self.buffer[i].to_string();
            s = concat(&s, piece.as_str());
            assert(self@.subrange(0, i + 1).drop_last() =~= self@.subrange(0, i as int));
            i = i + 1;
        }
        assert(self@.subrange(0, self@.len() as int) =~= self@);
        s
    }

    pub fn is_empty(&self) -> (r: bool)
        ensures
            r == (self@.len() == 0),
    {
        self.buffer.len() == 0
    }

    pub fn letter_type(&self) -> (r: LetterType)
        ensures
            r == self.kind(),
    {
        self.letter_type
    }

    /// The pairs of a text typed character by character.
    pub fn from(pair: (LetterType, &str)) -> (r: Self)
        ensures
            r@ == from_spec(pair.0, pair.1@),
            r.kind() == pair.0,
    {
        let (letter_type, buffer) = pair;
        let chars = crate::text::chars_of(buffer);
        let mut acc = BufferPairs::new(letter_type);
        let mut i: usize = 0;
        while i < chars.len()
            invariant
                i <= chars@.len(),
                chars@ == buffer@,
                acc.kind() == letter_type,
                acc@ == from_spec(letter_type, chars@.subrange(0, i as int)),
            decreases chars@.len() - i,
        {
            acc.push(chars[i]);
            assert(chars@.subrange(0, i + 1).drop_last() =~= chars@.subrange(0, i as int));
            i = i + 1;
        }
        assert(chars@.subrange(0, chars@.len() as int) =~= chars@);
        acc
    }

    /// The finished pairs and the pending ones, each in their order.
    pub fn partition_by_state(&self) -> (r: (BufferPairs, BufferPairs))
        ensures
            r.0@ == self@.filter(|p: PairView| is_stop(p)),
            r.1@ == self@.filter(|p: PairView| is_continue(p)),
            r.0.kind() == self.kind(),
            r.1.kind() == self.kind(),
    {
        let mut stopped = BufferPairs::new(self.letter_type);
        let mut continued = BufferPairs::new(self.letter_type);
        let mut i: usize = 0;
        while i < self.buffer.len()
            invariant
                i <= self.buffer@.len(),
                stopped.kind() == self.kind(),
                continued.kind() == self.kind(),
                stopped@ == self@.subrange(0, i as int).filter(|p: PairView| is_stop(p)),
                continued@ == self@.subrange(0, i as int).filter(|p: PairView| is_continue(p)),
            decreases self.buffer@.len() - i,
        {
            let pair = self.buffer[i].clone();
            let ghost pv = pair@;
            let ghost sub = self@.subrange(0, i + 1);
            assert(sub.drop_last() =~= self@.subrange(0, i as int));
            assert(sub.last() == pv);
            proof {
                reveal_with_fuel(Seq::<PairView>::filter, 1);
            }
            if pair.is_stopped() {
                stopped.buffer.push(pair);
                assert(stopped@ =~= self@.subrange(0, i as int).filter(|p: PairView| is_stop(p)).push(pv));
            } else {
                continued.buffer.push(pair);
                assert(continued@ =~= self@.subrange(0, i as int).filter(|p: PairView| is_continue(p)).push(pv));
            }
            i = i + 1;
        }
        assert(self@.subrange(0, self@.len() as int) =~= self@);
        (stopped, continued)
    }
}

} // verus!
