//! A reading being typed: its kana, the okurigana after it, and the
//! dictionary key that the two make.
use vstd::prelude::*;
use super::tables::{BufferPairs, LetterType, PairView};
use super::tables::buffer_pairs::{concat_pairs, push_spec, remove_last_spec, from_spec};
use super::BufferState;
use crate::text::{concat, is_ascii_upper, is_ascii_uppercase, lowercase_first, spec_lowercase_first, string_of_char};

verus! {

/// Okurigana as a value: its pairs and their letter type.
pub type OkuriView = Option<(Seq<PairView>, LetterType)>;

/// A reading as a value: the pairs of the reading, their letter type, and
/// the okurigana once it has begun.
pub type YomiPairView = (Seq<PairView>, LetterType, OkuriView);

/// Whether the last pair of a sequence is finished.
pub open spec fn pairs_stopped(s: Seq<PairView>) -> bool {
    s.len() > 0 && s.last().2 == BufferState::Stop
}

/// The text of okurigana, when there is okurigana.
pub open spec fn okuri_text(o: OkuriView) -> Option<Seq<char>> {
    match o {
        Some((p, _)) => Some(concat_pairs(p)),
        None => None,
    }
}

/// Typing into a reading: into the okurigana once it has begun.
pub open spec fn yp_push(p: YomiPairView, c: char) -> YomiPairView {
    match p.2 {
        Some((o, k)) => (p.0, p.1, Some((push_spec(o, k, c), k))),
        None => (push_spec(p.0, p.1, c), p.1, None),
    }
}

/// Deleting from a reading: the whole okurigana, or else the last piece
/// of the reading.
pub open spec fn yp_pop(p: YomiPairView) -> YomiPairView {
    match p.2 {
        Some(_) => (p.0, p.1, None),
        None => (remove_last_spec(p.0, p.1).1, p.1, None),
    }
}

pub open spec fn yp_is_stopped(p: YomiPairView) -> bool {
    match p.2 {
        Some((o, _)) => pairs_stopped(o),
        None => false,
    }
}

/// A word as a value.
pub struct WordView {
    pub pair: YomiPairView,
    /// The pairs of the dictionary key, in hiragana (or as typed, for an
    /// abbreviation).
    pub dic: Seq<PairView>,
    pub dic_kind: LetterType,
    /// The romaji letter that began the okurigana.
    pub okuri: Option<char>,
}

pub open spec fn word_new(lt: LetterType) -> WordView {
    WordView {
        pair: (Seq::<PairView>::empty(), lt, None),
        dic: Seq::<PairView>::empty(),
        dic_kind: LetterType::Hiragana,
        okuri: None,
    }
}

/// The word of an abbreviation: the text taken as it is.
pub open spec fn word_new_abbr(s: Seq<char>) -> WordView {
    WordView {
        pair: (from_spec(LetterType::Direct, s), LetterType::Direct, None),
        dic: from_spec(LetterType::Direct, s),
        dic_kind: LetterType::Direct,
        okuri: None,
    }
}

/// An upper-case ASCII letter typed after finished kana, before any
/// okurigana, begins the okurigana.
pub open spec fn okuri_starts(w: WordView, c: char) -> bool {
    pairs_stopped(w.pair.0) && w.okuri is None && is_ascii_upper(c)
}

/// Typing a character into a word: it is lower-cased; the dictionary key
/// takes it until the okurigana begins.
pub open spec fn word_push(w: WordView, c: char) -> WordView {
    let lc = spec_lowercase_first(c);
    let w1 = if okuri_starts(w, c) {
        WordView { pair: (w.pair.0, w.pair.1, Some((Seq::<PairView>::empty(), w.pair.1))), okuri: Some(lc), ..w }
    } else {
        w
    };
    WordView {
        pair: yp_push(w1.pair, lc),
        dic: if w1.okuri is None { push_spec(w1.dic, w1.dic_kind, lc) } else { w1.dic },
        ..w1
    }
}

/// Deleting from a word: the okurigana goes whole; otherwise the last
/// piece goes from both the reading and the dictionary key.
pub open spec fn word_pop(w: WordView) -> WordView {
    WordView {
        pair: yp_pop(w.pair),
        dic: if w.pair.2 is None { remove_last_spec(w.dic, w.dic_kind).1 } else { w.dic },
        okuri: None,
        ..w
    }
}

pub open spec fn word_remove_okuri(w: WordView) -> WordView {
    WordView { pair: (w.pair.0, w.pair.1, None), okuri: None, ..w }
}

/// The dictionary key: the key's text and the okurigana's first letter;
/// none while the key is empty.
pub open spec fn word_dic_read(w: WordView) -> Option<Seq<char>> {
    if w.dic.len() == 0 {
        None
    } else {
        Some(concat_pairs(w.dic) + match w.okuri {
            Some(c) => seq![c],
            None => Seq::<char>::empty(),
        })
    }
}

/// The text of a word: the reading, then the okurigana.
pub open spec fn word_buffer(w: WordView) -> Seq<char> {
    match okuri_text(w.pair.2) {
        Some(o) => concat_pairs(w.pair.0) + o,
        None => concat_pairs(w.pair.0),
    }
}

/// How a word is shown: the okurigana after a `*`.
pub open spec fn word_display(w: WordView) -> Seq<char> {
    match okuri_text(w.pair.2) {
        Some(o) => concat_pairs(w.pair.0) + seq!['*'] + o,
        None => concat_pairs(w.pair.0),
    }
}

/// The word that typing the characters of a text makes.
pub open spec fn word_from(lt: LetterType, s: Seq<char>) -> WordView
    decreases s.len(),
{
    if s.len() == 0 {
        word_new(lt)
    } else {
        word_push(word_from(lt, s.drop_last()), s.last())
    }
}

/// Typing text with no upper-case ASCII letter into a word gives no
/// okurigana; the reading is the lower-cased text in the word's letter
/// type, and the dictionary key is the same text in hiragana.
pub proof fn law_word_reading_and_key(lt: LetterType, s: Seq<char>)
    requires
        forall|i: int| 0 <= i < s.len() ==> !is_ascii_upper(#[trigger] s[i]),
    ensures
        word_from(lt, s).pair.0 == from_spec(lt, s.map_values(|c: char| spec_lowercase_first(c))),
        word_from(lt, s).pair.1 == lt,
        word_from(lt, s).pair.2 is None,
        word_from(lt, s).dic == from_spec(LetterType::Hiragana, s.map_values(|c: char| spec_lowercase_first(c))),
        word_from(lt, s).dic_kind == LetterType::Hiragana,
        word_from(lt, s).okuri is None,
    decreases s.len(),
{
    let lower = s.map_values(|c: char| spec_lowercase_first(c));
    if s.len() == 0 {
        assert(lower =~= Seq::<char>::empty());
    } else {
        let t = s.drop_last();
        law_word_reading_and_key(lt, t);
        let lt_lower = t.map_values(|c: char| spec_lowercase_first(c));
        assert(lower.drop_last() =~= lt_lower);
        assert(lower.last() == spec_lowercase_first(s.last()));
    }
}

/// Whether the okurigana's letter and its text are there together.
pub open spec fn okuri_together(w: WordView) -> bool {
    (w.okuri is Some) == (w.pair.2 is Some)
}

/// The okurigana's letter and its text come and go together: a fresh word
/// and an abbreviation have neither, and typing, deleting and dropping the
/// okurigana keep them together.
pub proof fn law_okuri_letter_and_text_together(w: WordView, lt: LetterType, s: Seq<char>, c: char)
    requires
        okuri_together(w),
    ensures
        okuri_together(word_new(lt)),
        okuri_together(word_new_abbr(s)),
        okuri_together(word_push(w, c)),
        okuri_together(word_pop(w)),
        okuri_together(word_remove_okuri(w)),
        okuri_together(word_from(lt, s)),
{
    lemma_word_from_together(lt, s);
}

proof fn lemma_word_from_together(lt: LetterType, s: Seq<char>)
    ensures
        okuri_together(word_from(lt, s)),
    decreases s.len(),
{
    if s.len() > 0 {
        lemma_word_from_together(lt, s.drop_last());
    }
}

#[derive(Debug)]
pub struct YomiPair(BufferPairs, Option<BufferPairs>);

impl View for YomiPair {
    type V = YomiPairView;

    closed spec fn view(&self) -> YomiPairView {
        (self.0@, self.0.kind(), match self.1 {
            Some(o) => Some((o@, o.kind())),
            None => None,
        })
    }
}

impl Clone for YomiPair {
    fn clone(&self) -> (r: Self)
        ensures
            r@ == self@,
    {
        YomiPair(self.0.clone(), match &self.1 {
            Some(o) => Some(o.clone()),
            None => None,
        })
    }
}

impl YomiPair {
    pub fn new(letter_type: LetterType) -> (r: Self)
        ensures
            r@ == (Seq::<PairView>::empty(), letter_type, None::<(Seq<PairView>, LetterType)>),
    {
        YomiPair(BufferPairs::new(letter_type), None)
    }

    /// Types a character, into the okurigana once it has begun.
    pub fn push(&mut self, character: char)
        ensures
            final(self)@ == yp_push(old(self)@, character),
    {
        match self.1.take() {
            Some(mut okuri) => {
                okuri.push(character);
                self.1 = Some(okuri);
            },
            None => {
                self.0.push(character);
            },
        }
    }

    /// Deletes the okurigana, or else the last piece of the reading.
    pub fn pop(&mut self)
        ensures
            final(self)@ == yp_pop(old(self)@),
    {
        match self.1 {
            Some(_) => {
                self.1 = None;
            },
            None => {
                self.0.remove_last();
            },
        }
    }

    /// Begins (empty) okurigana of the reading's letter type.
    pub fn start_okuri(&mut self)
        ensures
            final(self)@ == (old(self)@.0, old(self)@.1, Some((Seq::<PairView>::empty(), old(self)@.1))),
    {
        self.1 = Some(BufferPairs::new(self.0.letter_type()));
    }

    pub fn is_empty(&self) -> (r: bool)
        ensures
            r == (self@.0.len() == 0),
    {
        self.0.is_empty()
    }

    /// Whether the okurigana ends in finished kana.
    pub fn is_stopped(&self) -> (r: bool)
        ensures
            r == yp_is_stopped(self@),
    {
        match &self.1 {
            None => false,
            Some(okuri) => okuri.is_stopped(),
        }
    }

    fn yomi_string(&self) -> (r: String)
        ensures
            r@ == concat_pairs(self@.0),
    {
        self.0.to_string()
    }

    fn okuri_string(&self) -> (r: Option<String>)
        ensures
            crate::dictionary::candidate::option_string_view(r) == okuri_text(self@.2),
    {
        match &self.1 {
            Some(okuri) => Some(okuri.to_string()),
            None => None,
        }
    }

    /// The reading of a text typed character by character.
    pub fn from(pair: (LetterType, &str)) -> (r: Self)
        ensures
            r@ == (from_spec(pair.0, pair.1@), pair.0, None::<(Seq<PairView>, LetterType)>),
    {
        YomiPair(BufferPairs::from(pair), None)
    }
}

#[derive(Debug)]
pub struct Word {
    pair: YomiPair,
    dic_read: BufferPairs,
    okuri: Option<char>,
}

impl View for Word {
    type V = WordView;

    closed spec fn view(&self) -> WordView {
        WordView { pair: self.pair@, dic: self.dic_read@, dic_kind: self.dic_read.kind(), okuri: self.okuri }
    }
}

impl Clone for Word {
    fn clone(&self) -> (r: Self)
        ensures
            r@ == self@,
    {
        Word { pair: self.pair.clone(), dic_read: self.dic_read.clone(), okuri: self.okuri }
    }
}

impl Word {
    pub fn new(letter_type: LetterType) -> (r: Self)
        ensures
            r@ == word_new(letter_type),
    {
        Word { pair: YomiPair::new(letter_type), dic_read: BufferPairs::new(LetterType::Hiragana), okuri: None }
    }

    /// The word of an abbreviation.
    pub fn new_abbr(buf: &str) -> (r: Self)
        ensures
            r@ == word_new_abbr(buf@),
    {
        Word {
            pair: YomiPair::from((LetterType::Direct, buf)),
            dic_read: BufferPairs::from((LetterType::Direct, buf)),
            okuri: None,
        }
    }

    /// Types a character.
    pub fn push(&mut self, character: char)
        ensures
            final(self)@ == word_push(old(self)@, character),
    {
        self.try_okuri_start(character);
        let character = lowercase_first(character);
        if self.okuri.is_none() {
            self.dic_read.push(character);
        }
        self.pair.push(character);
    }

    fn try_okuri_start(&mut self, character: char)
        ensures
            final(self)@ == (if okuri_starts(old(self)@, character) {
                WordView {
                    pair: (old(self)@.pair.0, old(self)@.pair.1, Some((Seq::<PairView>::empty(), old(self)@.pair.1))),
                    okuri: Some(spec_lowercase_first(character)),
                    ..old(self)@
                }
            } else {
                old(self)@
            }),
    {
        if self.is_okuri_start(character) {
            self.pair.start_okuri();
            self.okuri = Some(lowercase_first(character));
        }
    }

    fn is_okuri_start(&self, character: char) -> (r: bool)
        ensures
            r == okuri_starts(self@, character),
    {
        self.pair.0.is_stopped() && self.okuri.is_none() && is_ascii_uppercase(character)
    }

    /// Deletes the okurigana, or else the last piece of the reading and of
    /// the dictionary key.
    pub fn pop(&mut self)
        ensures
            final(self)@ == word_pop(old(self)@),
    {
        if self.pair.1.is_none() {
            self.dic_read.remove_last();
        }
        self.pair.pop();
        self.okuri = None;
    }

    pub fn remove_okuri(&mut self)
        ensures
            final(self)@ == word_remove_okuri(old(self)@),
    {
        self.pair.1 = None;
        self.okuri = None;
    }

    pub fn okuri_string(&self) -> (r: Option<String>)
        ensures
            crate::dictionary::candidate::option_string_view(r) == okuri_text(self@.pair.2),
    {
        self.pair.okuri_string()
    }

    pub fn has_okuri(&self) -> (r: bool)
        ensures
            r == (self@.okuri is Some),
    {
        self.okuri.is_some()
    }

    pub fn is_empty(&self) -> (r: bool)
        ensures
            r == (self@.pair.0.len() == 0),
    {
        self.pair.is_empty()
    }

    pub fn is_stopped(&self) -> (r: bool)
        ensures
            r == yp_is_stopped(self@.pair),
    {
        self.pair.is_stopped()
    }

    /// The dictionary key of the word.
    pub fn to_dic_read(&self) -> (r: Option<String>)
        ensures
            crate::dictionary::candidate::option_string_view(r) == word_dic_read(self@),
    {
        if self.dic_read.is_empty() {
            return None;
        }
        let read = self.dic_read.to_string();
        let read = match self.okuri {
            Some(c) => concat(&read, string_of_char(c).as_str()),
            None => {
                let r = read;
                assert(r@ =~= r@ + Seq::<char>::empty());
                r
            },
        };
        Some(read)
    }

    /// The reading and the okurigana, as text.
    pub fn to_string_pair(&self) -> (r: (String, Option<String>))
        ensures
            r.0@ == concat_pairs(self@.pair.0),
            crate::dictionary::candidate::option_string_view(r.1) == okuri_text(self@.pair.2),
    {
        (self.pair.yomi_string(), self.pair.okuri_string())
    }

    /// The text of the word.
    pub fn buffer_content(&self) -> (r: String)
        ensures
            r@ == word_buffer(self@),
    {
        match self.to_string_pair() {
            (yomi, Some(okuri)) => concat(&yomi, okuri.as_str()),
            (yomi, None) => yomi,
        }
    }

    /// The word as shown, the okurigana after a `*`.
    pub fn display_string(&self) -> (r: String)
        ensures
            r@ == word_display(self@),
    {
        match self.to_string_pair() {
            (yomi, Some(okuri)) => {
                let star = string_of_char('*');
                let s = concat(&yomi, star.as_str());
                let r = concat(&s, okuri.as_str());
                r
            },
            (yomi, None) => yomi,
        }
    }

    /// The word that typing the characters of a text makes.
    pub fn from(pair: (LetterType, &str)) -> (r: Self)
        ensures
            r@ == word_from(pair.0, pair.1@),
    {
        let chars = crate::text::chars_of(pair.1);
        let mut acc = Word::new(pair.0);
        let mut i: usize = 0;
        while i < chars.len()
            invariant
                i <= chars@.len(),
                chars@ == pair.1@,
                acc@ == word_from(pair.0, chars@.subrange(0, i as int)),
            decreases chars@.len() - i,
        {
            acc.push(chars[i]);
            assert(chars@.subrange(0, i + 1).drop_last() =~= chars@.subrange(0, i as int));
            i = i + 1;
        }
        assert(chars@.subrange(0, chars@.len() as int) =~= chars@);
        acc
    }
}

} // verus!
