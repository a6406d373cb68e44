//! The transformers as values, and what each input does to them.
//!
//! A transformer answers an input with `None` when the input is not its
//! concern, and otherwise with the transformers that replace it, in order
//! (the last is the one that goes on; none at all means the input cancelled
//! it).
use vstd::prelude::*;
use super::{StoppedReason, TransformerTypes};
use super::tables::{LetterType, PairView};
use super::tables::buffer_pairs::{concat_pairs, push_spec, remove_last_spec, is_stop, is_continue};
use super::word::{WordView, word_new, word_new_abbr, word_push, word_pop, word_remove_okuri,
    word_dic_read, word_buffer, word_display, yp_is_stopped, okuri_text, pairs_stopped};
use crate::context::{ContextEnv, ContextView, ctx_clear, ctx_new_empty, ctx_push, ctx_stopped, env_lookup};
use crate::dictionary::EntryView;
use crate::dictionary::candidate::CandidateView;
use crate::keyboards::{KeyCode, MetaKey};
use crate::keyboards::keycodes::printable_of;
use crate::text::{spec_is_uppercase, spec_lowercase_first};
use crate::rskk_config::{change_spec, combos_fulfilled, is_default_key_config};
use crate::keyboards::KeyCombinations;
use crate::keyboards::key_set;

verus! {

/// An input to a transformer.
#[derive(PartialEq, Eq, Structural, Copy, Clone, Debug)]
pub enum Op {
    Char(char),
    Escape,
    Enter,
    Space,
    Backspace,
    Delete,
    Tab,
    Arrow,
    /// Any other key, as pressed.
    Any(KeyCode),
}

/// A transformer as a value.
pub enum TfView {
    Stopped { ctx: ContextView, reason: StoppedReason },
    Direct { ctx: ContextView, buf: Seq<PairView> },
    Hiragana { ctx: ContextView, buf: Seq<PairView> },
    Katakana { ctx: ContextView, buf: Seq<PairView> },
    Henkan { ctx: ContextView, ty: TransformerTypes, stack: Seq<TfView> },
    Yomi { ctx: ContextView, ty: TransformerTypes, word: WordView },
    SelectCandidate { ctx: ContextView, entry: EntryView, cands: Seq<CandidateView>, pos: nat, word: WordView },
    UnknownWord { ctx: ContextView, word: WordView, stack: Seq<TfView> },
    Continuous { ctx: ContextView, ty: TransformerTypes, child: Box<TfView>, buffer: Seq<char> },
    Abbr { ctx: ContextView, stack: Seq<TfView> },
}

/// A measure that every input handled by a transformer that holds others
/// makes smaller when it is handed on.
pub open spec fn rank(t: TfView) -> nat
    decreases t,
{
    match t {
        TfView::Henkan { stack, .. } => 1 + ranks(stack),
        TfView::UnknownWord { stack, .. } => 3 + ranks(stack),
        TfView::Continuous { child, .. } => 1 + rank(*child),
        TfView::Abbr { stack, .. } => 1 + ranks(stack),
        _ => 1,
    }
}

pub open spec fn ranks(s: Seq<TfView>) -> nat
    decreases s,
{
    if s.len() == 0 {
        0
    } else {
        ranks(s.subrange(0, s.len() - 1)) + rank(s[s.len() - 1])
    }
}

pub proof fn lemma_rank_positive(t: TfView)
    ensures
        rank(t) >= 1,
{
}

/// Each element of a stack weighs no more than the stack.
pub proof fn lemma_ranks_element(s: Seq<TfView>, i: int)
    requires
        0 <= i < s.len(),
    ensures
        rank(s[i]) <= ranks(s),
    decreases s.len(),
{
    if i < s.len() - 1 {
        lemma_ranks_element(s.subrange(0, s.len() - 1), i);
    }
}

/// The type of a transformer.
pub open spec fn ttype(t: TfView) -> TransformerTypes {
    match t {
        TfView::Stopped { reason, .. } => TransformerTypes::Stopped(reason),
        TfView::Direct { .. } => TransformerTypes::Direct,
        TfView::Hiragana { .. } => TransformerTypes::Hiragana,
        TfView::Katakana { .. } => TransformerTypes::Katakana,
        TfView::Henkan { .. } => TransformerTypes::Henkan,
        TfView::Yomi { .. } => TransformerTypes::Yomi,
        TfView::SelectCandidate { .. } => TransformerTypes::SelectCandidate,
        TfView::UnknownWord { .. } => TransformerTypes::UnknownWord,
        TfView::Continuous { .. } => TransformerTypes::Continuous,
        TfView::Abbr { .. } => TransformerTypes::Abbr,
    }
}

/// The type that typing goes to: the type of the child of a continuous
/// input, that of the last element of a registration, and otherwise the
/// type of the transformer itself.
pub open spec fn child_type(t: TfView) -> TransformerTypes
    decreases rank(t),
{
    match t {
        TfView::Continuous { child, .. } => ttype(*child),
        TfView::UnknownWord { stack, .. } => if stack.len() > 0 {
            proof {
                lemma_ranks_element(stack, stack.len() - 1);
            }
            child_type(stack.last())
        } else {
            ttype(t)
        },
        _ => ttype(t),
    }
}

/// Whether there is a type that typing goes to: a registration that holds
/// nothing yet has no element to ask.
pub open spec fn has_child_type(t: TfView) -> bool
    decreases rank(t),
{
    match t {
        TfView::UnknownWord { stack, .. } => stack.len() > 0 && {
            proof {
                lemma_ranks_element(stack, stack.len() - 1);
            }
            has_child_type(stack.last())
        },
        _ => true,
    }
}

pub open spec fn is_stopped(t: TfView) -> bool {
    t is Stopped
}

pub open spec fn is_completed(t: TfView) -> bool {
    t matches TfView::Stopped { reason: StoppedReason::Compleated, .. }
}

/// The modes a composition starts in and goes back to.
pub open spec fn is_base_type(ty: TransformerTypes) -> bool {
    ty == TransformerTypes::Direct || ty == TransformerTypes::Hiragana || ty == TransformerTypes::Katakana
        || ty == TransformerTypes::EnKatakana || ty == TransformerTypes::EmEisu
}

/// The context of a transformer.
pub open spec fn ctx_of(t: TfView) -> ContextView {
    match t {
        TfView::Stopped { ctx, .. } => ctx,
        TfView::Direct { ctx, .. } => ctx,
        TfView::Hiragana { ctx, .. } => ctx,
        TfView::Katakana { ctx, .. } => ctx,
        TfView::Henkan { ctx, .. } => ctx,
        TfView::Yomi { ctx, .. } => ctx,
        TfView::SelectCandidate { ctx, .. } => ctx,
        TfView::UnknownWord { ctx, .. } => ctx,
        TfView::Continuous { ctx, .. } => ctx,
        TfView::Abbr { ctx, .. } => ctx,
    }
}

/// A transformer with another context.
pub open spec fn with_ctx(t: TfView, c: ContextView) -> TfView {
    match t {
        TfView::Stopped { reason, .. } => TfView::Stopped { ctx: c, reason },
        TfView::Direct { buf, .. } => TfView::Direct { ctx: c, buf },
        TfView::Hiragana { buf, .. } => TfView::Hiragana { ctx: c, buf },
        TfView::Katakana { buf, .. } => TfView::Katakana { ctx: c, buf },
        TfView::Henkan { ty, stack, .. } => TfView::Henkan { ctx: c, ty, stack },
        TfView::Yomi { ty, word, .. } => TfView::Yomi { ctx: c, ty, word },
        TfView::SelectCandidate { entry, cands, pos, word, .. } => TfView::SelectCandidate { ctx: c, entry, cands, pos, word },
        TfView::UnknownWord { word, stack, .. } => TfView::UnknownWord { ctx: c, word, stack },
        TfView::Continuous { ty, child, buffer, .. } => TfView::Continuous { ctx: c, ty, child, buffer },
        TfView::Abbr { stack, .. } => TfView::Abbr { ctx: c, stack },
    }
}

/// The text of the selected candidate with the okurigana after it; empty
/// when the candidates have run out.
pub open spec fn sc_buffer(cands: Seq<CandidateView>, pos: nat, word: WordView) -> Seq<char> {
    if pos < cands.len() {
        cands[pos as int].0 + match okuri_text(word.pair.2) {
            Some(o) => o,
            None => Seq::<char>::empty(),
        }
    } else {
        Seq::<char>::empty()
    }
}

/// The text that a transformer holds.
pub open spec fn buffer_of(t: TfView) -> Seq<char>
    decreases t,
{
    match t {
        TfView::Stopped { .. } => Seq::<char>::empty(),
        TfView::Direct { buf, .. } => concat_pairs(buf),
        TfView::Hiragana { buf, .. } => concat_pairs(buf),
        TfView::Katakana { buf, .. } => concat_pairs(buf),
        TfView::Henkan { stack, .. } => if stack.len() > 0 {
            buffer_of(stack[stack.len() - 1])
        } else {
            Seq::<char>::empty()
        },
        TfView::Yomi { word, .. } => word_buffer(word),
        TfView::SelectCandidate { cands, pos, word, .. } => sc_buffer(cands, pos, word),
        TfView::UnknownWord { stack, .. } => buffers(stack),
        TfView::Continuous { child, buffer, .. } => buffer + buffer_of(*child),
        TfView::Abbr { stack, .. } => if stack.len() > 0 {
            buffer_of(stack[stack.len() - 1])
        } else {
            Seq::<char>::empty()
        },
    }
}

/// The texts of a stack, joined.
pub open spec fn buffers(s: Seq<TfView>) -> Seq<char>
    decreases s,
{
    if s.len() == 0 {
        Seq::<char>::empty()
    } else {
        buffers(s.subrange(0, s.len() - 1)) + buffer_of(s[s.len() - 1])
    }
}

pub open spec fn unknown_word_prefix(word: WordView) -> Seq<char> {
    seq!['[', '登', '録', ':', ' '] + word_display(word) + seq![']']
}

/// What a transformer shows.
pub open spec fn display_of(t: TfView) -> Seq<char>
    decreases t,
{
    match t {
        TfView::Stopped { .. } => Seq::<char>::empty(),
        TfView::Direct { buf, .. } => concat_pairs(buf),
        TfView::Hiragana { buf, .. } => concat_pairs(buf),
        TfView::Katakana { buf, .. } => concat_pairs(buf),
        TfView::Henkan { stack, .. } => if stack.len() > 0 {
            display_of(stack[stack.len() - 1])
        } else {
            Seq::<char>::empty()
        },
        TfView::Yomi { word, .. } => seq!['▽'] + word_display(word),
        TfView::SelectCandidate { cands, pos, word, .. } => seq!['▼'] + sc_buffer(cands, pos, word),
        TfView::UnknownWord { word, stack, .. } => unknown_word_prefix(word) + displays(stack),
        TfView::Continuous { child, buffer, .. } => buffer + display_of(*child),
        TfView::Abbr { stack, .. } => if stack.len() == 1 && stack[0] is Continuous {
            seq!['▽'] + display_of(stack[0])
        } else if stack.len() > 0 {
            display_of(stack[stack.len() - 1])
        } else {
            Seq::<char>::empty()
        },
    }
}

/// What the transformers of a stack show, joined.
pub open spec fn displays(s: Seq<TfView>) -> Seq<char>
    decreases s,
{
    if s.len() == 0 {
        Seq::<char>::empty()
    } else {
        displays(s.subrange(0, s.len() - 1)) + display_of(s[s.len() - 1])
    }
}

/// A stack without its last element (unchanged when empty).
pub open spec fn pop_last(s: Seq<TfView>) -> Seq<TfView> {
    if s.len() > 0 {
        s.drop_last()
    } else {
        s
    }
}

// ---------------------------------------------------------------------
// Making transformers.

/// The types that can be made.
pub open spec fn constructible(ty: TransformerTypes) -> bool {
    ty is Stopped || ty == TransformerTypes::Direct || ty == TransformerTypes::Hiragana
        || ty == TransformerTypes::Katakana || ty == TransformerTypes::Continuous
        || ty == TransformerTypes::Abbr || ty == TransformerTypes::Henkan
}

/// A fresh transformer of one of the three kinds that type text directly.
pub open spec fn leaf_make(ctx: ContextView, ty: TransformerTypes) -> TfView {
    if ty == TransformerTypes::Direct {
        TfView::Direct { ctx, buf: Seq::<PairView>::empty() }
    } else if ty == TransformerTypes::Katakana {
        TfView::Katakana { ctx, buf: Seq::<PairView>::empty() }
    } else {
        TfView::Hiragana { ctx, buf: Seq::<PairView>::empty() }
    }
}

pub open spec fn kana_letter(ty: TransformerTypes) -> LetterType {
    if ty == TransformerTypes::Katakana {
        LetterType::Katakana
    } else {
        LetterType::Hiragana
    }
}

pub open spec fn yomi_new(ctx: ContextView, ty: TransformerTypes) -> TfView {
    TfView::Yomi { ctx, ty, word: word_new(kana_letter(ty)) }
}

pub open spec fn henkan_new(ctx: ContextView, ty: TransformerTypes) -> TfView {
    TfView::Henkan { ctx, ty, stack: seq![yomi_new(ctx_new_empty(ctx), ty)] }
}

/// Continuous input in a text mode, with a fresh child of that mode.
pub open spec fn text_continuous_new(ctx: ContextView, ty: TransformerTypes) -> TfView {
    TfView::Continuous {
        ctx,
        ty,
        child: Box::new(leaf_make(ctx_new_empty(ctx), ty)),
        buffer: Seq::<char>::empty(),
    }
}

/// Continuous input whose child is a fresh transformer of a type.
pub open spec fn continuous_new(ctx: ContextView, ty: TransformerTypes) -> TfView {
    TfView::Continuous {
        ctx,
        ty,
        child: Box::new(make(ctx_new_empty(ctx), ty)),
        buffer: Seq::<char>::empty(),
    }
}

pub open spec fn abbr_new(ctx: ContextView) -> TfView {
    TfView::Abbr { ctx, stack: seq![text_continuous_new(ctx, TransformerTypes::Direct)] }
}

pub open spec fn select_candidate_new(ctx: ContextView, entry: EntryView, word: WordView) -> TfView {
    TfView::SelectCandidate { ctx, entry, cands: entry.1, pos: 0, word }
}

pub open spec fn unknown_word_new(ctx: ContextView, word: WordView) -> TfView {
    TfView::UnknownWord { ctx, word, stack: Seq::<TfView>::empty() }
}

/// A fresh transformer of a constructible type.
pub open spec fn make(ctx: ContextView, ty: TransformerTypes) -> TfView {
    match ty {
        TransformerTypes::Stopped(reason) => TfView::Stopped { ctx, reason },
        TransformerTypes::Continuous => text_continuous_new(ctx, TransformerTypes::Hiragana),
        TransformerTypes::Abbr => abbr_new(ctx),
        TransformerTypes::Henkan => henkan_new(ctx, TransformerTypes::Hiragana),
        _ => leaf_make(ctx, ty),
    }
}

// ---------------------------------------------------------------------
// Typing text.

/// Typing a character into pairs: the finished text and the pending pairs.
pub open spec fn typed(buf: Seq<PairView>, lt: LetterType, c: char) -> (Seq<char>, Seq<PairView>) {
    let b = push_spec(buf, lt, c);
    (concat_pairs(b.filter(|p: PairView| is_stop(p))), b.filter(|p: PairView| is_continue(p)))
}

/// A text-typing transformer of one letter type.
pub open spec fn text_tf(ctx: ContextView, lt: LetterType, buf: Seq<PairView>) -> TfView {
    if lt == LetterType::Direct {
        TfView::Direct { ctx, buf }
    } else if lt == LetterType::Katakana {
        TfView::Katakana { ctx, buf }
    } else {
        TfView::Hiragana { ctx, buf }
    }
}

/// Typing a character: the finished text goes to the context; with nothing
/// pending the transformer is done.
pub open spec fn type_char(ctx: ContextView, lt: LetterType, buf: Seq<PairView>, c: char) -> TfView {
    let (st, co) = typed(buf, lt, c);
    if concat_pairs(co).len() == 0 {
        TfView::Stopped { ctx: ctx_push(ctx, st), reason: StoppedReason::Compleated }
    } else {
        text_tf(ctx_push(ctx, st), lt, co)
    }
}

pub open spec fn direct_step(ctx: ContextView, buf: Seq<PairView>, op: Op) -> Option<Seq<TfView>> {
    match op {
        Op::Char(c) => Some(seq![type_char(ctx, LetterType::Direct, buf, c)]),
        _ => None,
    }
}

/// Beginning a conversion with its first (lower-cased) character.
pub open spec fn henkan_start(ctx: ContextView, ty: TransformerTypes, c: char) -> Option<Seq<TfView>> {
    let y = yomi_new(ctx_new_empty(ctx), ty);
    match y {
        TfView::Yomi { ctx: yc, ty: yt, word } => match yomi_step(yc, yt, word, Op::Char(c)) {
            Some(items) => Some(henkan_replace(ctx, ty, seq![y], items)),
            None => None,
        },
        _ => None,
    }
}

/// Hiragana or katakana input.  `/` begins an abbreviation, an upper-case
/// letter a conversion; other characters are typed.  The katakana mode
/// begins those with an empty context, the hiragana mode with its own.
/// Hiragana keeps all text finished so far in its context, katakana only
/// the text that the last character finished; deleting the last pending
/// piece cancels, except that hiragana with finished text completes.
pub open spec fn kana_step(ctx: ContextView, ty: TransformerTypes, buf: Seq<PairView>, op: Op) -> Option<Seq<TfView>> {
    let lt = kana_letter(ty);
    let start_ctx = if ty == TransformerTypes::Katakana { ctx_new_empty(ctx) } else { ctx };
    match op {
        Op::Char(c) => if c == '/' {
            Some(seq![abbr_new(start_ctx)])
        } else if spec_is_uppercase(c) {
            henkan_start(start_ctx, ty, spec_lowercase_first(c))
        } else if ty == TransformerTypes::Katakana {
            Some(seq![type_char(ctx_clear(ctx), lt, buf, c)])
        } else {
            Some(seq![type_char(ctx, lt, buf, c)])
        },
        Op::Escape => if buf.len() == 0 {
            None
        } else {
            Some(Seq::<TfView>::empty())
        },
        Op::Backspace | Op::Delete => if buf.len() == 0 {
            None
        } else {
            let b = remove_last_spec(buf, lt).1;
            if b.len() == 0 {
                if ty == TransformerTypes::Hiragana && ctx.1.1 is Some {
                    Some(seq![TfView::Stopped { ctx, reason: StoppedReason::Compleated }])
                } else {
                    Some(Seq::<TfView>::empty())
                }
            } else if pairs_stopped(b) {
                Some(seq![TfView::Stopped { ctx, reason: StoppedReason::Compleated }])
            } else {
                Some(seq![text_tf(ctx, lt, b)])
            }
        },
        _ => None,
    }
}

/// Hiragana to katakana, character by character.
pub open spec fn hira_to_kata(c: char) -> char {
    if '\u{3041}' <= c && c <= '\u{3096}' {
        ((c as u32) + 0x60) as char
    } else {
        c
    }
}

/// Katakana to hiragana, character by character.
pub open spec fn kata_to_hira(c: char) -> char {
    if '\u{30a1}' <= c && c <= '\u{30f6}' {
        ((c as u32) - 0x60) as char
    } else {
        c
    }
}

pub open spec fn hira2kata_spec(s: Seq<char>) -> Seq<char> {
    s.map_values(|c: char| hira_to_kata(c))
}

pub open spec fn kata2hira_spec(s: Seq<char>) -> Seq<char> {
    s.map_values(|c: char| kata_to_hira(c))
}

/// Deleting from a reading: with nothing left the conversion is cancelled.
pub open spec fn yomi_pop(ctx: ContextView, ty: TransformerTypes, word: WordView) -> TfView {
    let w = word_pop(word);
    if w.pair.0.len() == 0 {
        TfView::Stopped { ctx, reason: StoppedReason::Canceled }
    } else {
        TfView::Yomi { ctx, ty, word: w }
    }
}

/// The reading of a conversion.  Finishing the okurigana or pressing space
/// looks the word up (keeping the reading before the result); enter
/// finishes with the reading; `q` finishes with it in the other kana.
pub open spec fn yomi_step(ctx: ContextView, ty: TransformerTypes, word: WordView, op: Op) -> Option<Seq<TfView>> {
    match op {
        Op::Char(c) => {
            let w = word_push(word, c);
            if yp_is_stopped(w.pair) {
                Some(seq![TfView::Yomi { ctx, ty, word: word_remove_okuri(w) }, compose(ctx_new_empty(ctx), w)])
            } else {
                Some(seq![TfView::Yomi { ctx, ty, word: w }])
            }
        },
        Op::Escape => if word.okuri is Some {
            Some(seq![yomi_pop(ctx, ty, word)])
        } else {
            Some(Seq::<TfView>::empty())
        },
        Op::Space => Some(seq![TfView::Yomi { ctx, ty, word: word_remove_okuri(word) }, compose(ctx_new_empty(ctx), word)]),
        Op::Enter => Some(seq![TfView::Stopped {
            ctx: ctx_push(ctx, word_buffer(word_remove_okuri(word))),
            reason: StoppedReason::Compleated,
        }]),
        Op::Backspace | Op::Delete => if word.pair.0.len() == 0 {
            Some(Seq::<TfView>::empty())
        } else {
            Some(seq![TfView::Yomi { ctx, ty, word: word_pop(word) }])
        },
        Op::Any(key) => if printable_of(key) == Some('q') {
            if ty == TransformerTypes::Hiragana {
                Some(seq![TfView::Stopped { ctx: ctx_push(ctx, hira2kata_spec(word_buffer(word))), reason: StoppedReason::Compleated }])
            } else if ty == TransformerTypes::Katakana {
                Some(seq![TfView::Stopped { ctx: ctx_push(ctx, kata2hira_spec(word_buffer(word))), reason: StoppedReason::Compleated }])
            } else {
                None
            }
        } else {
            None
        },
        _ => None,
    }
}

/// Choosing among candidates: space goes to the next (past the last, the
/// word is registered as unknown), delete to the previous (before the
/// first, it cancels), enter or a typed key takes the one selected.
pub open spec fn select_candidate_step(t: TfView, op: Op) -> Option<Seq<TfView>> {
    match t {
        TfView::SelectCandidate { ctx, entry, cands, pos, word } => {
            let done = seq![TfView::Stopped { ctx: ctx_push(ctx, sc_buffer(cands, pos, word)), reason: StoppedReason::Compleated }];
            match op {
                Op::Escape => Some(Seq::<TfView>::empty()),
                Op::Enter => if pos < cands.len() { Some(done) } else { None },
                Op::Space => if pos + 1 < cands.len() {
                    Some(seq![TfView::SelectCandidate { ctx, entry, cands, pos: pos + 1, word }])
                } else {
                    Some(seq![t, unknown_word_new(ctx, word)])
                },
                Op::Backspace | Op::Delete => if pos > 0 && pos - 1 < cands.len() {
                    Some(seq![TfView::SelectCandidate { ctx, entry, cands, pos: (pos - 1) as nat, word }])
                } else {
                    Some(Seq::<TfView>::empty())
                },
                Op::Any(key) => if printable_of(key) is Some && pos < cands.len() { Some(done) } else { None },
                _ => None,
            }
        },
        _ => None,
    }
}

// ---------------------------------------------------------------------
// Transformers that hold others.

/// A conversion with its last element replaced; none when nothing is left.
pub open spec fn henkan_replace(ctx: ContextView, ty: TransformerTypes, stack: Seq<TfView>, items: Seq<TfView>) -> Seq<TfView> {
    let s = pop_last(stack) + items;
    if s.len() == 0 {
        Seq::<TfView>::empty()
    } else {
        seq![TfView::Henkan { ctx, ty, stack: s }]
    }
}

/// After a key finished a conversion: a fresh transformer of the mode
/// types the key, and goes on with the finished text before its own.
pub open spec fn henkan_after_stop(ctx: ContextView, ty: TransformerTypes, done: TfView, key: KeyCode) -> TfView {
    let base = leaf_make(ctx_new_empty(ctx), ty);
    let tf = match printable_of(key) {
        Some(c) => match kana_or_direct_step(base, Op::Char(c)) {
            Some(items) => if items.len() > 0 { items.last() } else { base },
            None => base,
        },
        None => base,
    };
    with_ctx(tf, ctx_push(ctx_of(done), ctx_stopped(ctx_of(tf))))
}

/// The steps of the three transformers that type text directly.
pub open spec fn kana_or_direct_step(t: TfView, op: Op) -> Option<Seq<TfView>> {
    match t {
        TfView::Direct { ctx, buf } => direct_step(ctx, buf, op),
        TfView::Hiragana { ctx, buf } => kana_step(ctx, TransformerTypes::Hiragana, buf, op),
        TfView::Katakana { ctx, buf } => kana_step(ctx, TransformerTypes::Katakana, buf, op),
        _ => None,
    }
}

/// A conversion hands each input to its last element.
pub open spec fn henkan_step(t: TfView, op: Op) -> Option<Seq<TfView>>
    decreases rank(t), 0nat,
{
    match t {
        TfView::Henkan { ctx, ty, stack } => if stack.len() == 0 {
            None
        } else {
            let last = stack[stack.len() - 1];
            proof {
                lemma_ranks_element(stack, stack.len() - 1);
            }
            match op {
                Op::Tab | Op::Arrow => None,
                Op::Enter => match step(last, op) {
                    Some(items) => if items.len() == 0 {
                        Some(Seq::<TfView>::empty())
                    } else if items.len() == 1 && is_stopped(items[0]) {
                        Some(items)
                    } else {
                        Some(henkan_replace(ctx, ty, stack, items))
                    },
                    None => None,
                },
                Op::Any(key) => match step(last, op) {
                    Some(items) => if items.len() == 0 {
                        Some(Seq::<TfView>::empty())
                    } else if items.len() == 1 && is_stopped(items[0]) {
                        Some(seq![henkan_after_stop(ctx, ty, items[0], key)])
                    } else {
                        Some(henkan_replace(ctx, ty, stack, items))
                    },
                    None => None,
                },
                _ => match step(last, op) {
                    Some(items) => Some(henkan_replace(ctx, ty, stack, items)),
                    None => None,
                },
            }
        },
        _ => None,
    }
}

/// The registration of a word, with its last element replaced.
pub open spec fn unknown_word_replace(ctx: ContextView, word: WordView, stack: Seq<TfView>, items: Seq<TfView>) -> Seq<TfView> {
    seq![TfView::UnknownWord { ctx, word, stack: pop_last(stack) + items }]
}

/// Registering an unknown word: the word to register is typed in a
/// continuous hiragana input.
pub open spec fn unknown_word_step(t: TfView, op: Op) -> Option<Seq<TfView>>
    decreases rank(t), 0nat,
{
    match t {
        TfView::UnknownWord { ctx, word, stack } => {
            let target = if stack.len() > 0 {
                stack[stack.len() - 1]
            } else {
                continuous_new(ctx, TransformerTypes::Hiragana)
            };
            proof {
                if stack.len() > 0 {
                    lemma_ranks_element(stack, stack.len() - 1);
                } else {
                    assert(rank(leaf_make(ctx_new_empty(ctx), TransformerTypes::Hiragana)) == 1);
                }
            }
            match op {
                Op::Char(_) | Op::Space => match step(target, op) {
                    Some(items) => Some(unknown_word_replace(ctx, word, stack, items)),
                    None => None,
                },
                Op::Enter => match step(target, op) {
                    Some(items) => if items.len() == 0 {
                        None
                    } else if is_completed(items.last()) {
                        Some(seq![items.last()])
                    } else {
                        Some(unknown_word_replace(ctx, word, stack, items))
                    },
                    None => None,
                },
                Op::Backspace | Op::Delete => if buffers(stack).len() == 0 {
                    Some(seq![t])
                } else if stack.len() == 0 {
                    None
                } else {
                    match step(target, Op::Backspace) {
                        Some(items) => Some(unknown_word_replace(ctx, word, stack, items)),
                        None => None,
                    }
                },
                Op::Escape => if stack.len() == 0 {
                    Some(Seq::<TfView>::empty())
                } else if target matches TfView::Continuous { child, .. } && ttype(*child)
                    != TransformerTypes::Henkan && buffer_of(target).len() == 0 {
                    Some(Seq::<TfView>::empty())
                } else {
                    match step(target, op) {
                        Some(items) => Some(unknown_word_replace(ctx, word, stack, items)),
                        None => None,
                    }
                },
                _ => None,
            }
        },
        _ => None,
    }
}

/// The finished texts of the contexts of some transformers, joined.
pub open spec fn stopped_texts(s: Seq<TfView>) -> Seq<char>
    decreases s.len(),
{
    if s.len() == 0 {
        Seq::<char>::empty()
    } else {
        stopped_texts(s.drop_last()) + ctx_stopped(ctx_of(s.last()))
    }
}

/// A continuous input with its child replaced by the last of some
/// transformers; a fresh child when there is none or it is done.
pub open spec fn continuous_replace(ctx: ContextView, ty: TransformerTypes, buffer: Seq<char>, items: Seq<TfView>) -> TfView {
    let child = if items.len() == 0 || is_stopped(items.last()) {
        make(ctx_new_empty(ctx), ty)
    } else {
        items.last()
    };
    TfView::Continuous { ctx, ty, child: Box::new(child), buffer }
}

/// A continuous input: what its child finishes is kept, and a fresh child
/// takes over; enter with nothing pending finishes the whole text.
pub open spec fn continuous_step(t: TfView, op: Op) -> Option<Seq<TfView>>
    decreases rank(t), 0nat,
{
    match t {
        TfView::Continuous { ctx, ty, child, buffer } => match op {
            Op::Char(_) => match step(*child, op) {
                Some(items) => if items.len() == 0 {
                    None
                } else {
                    let last = items.last();
                    let cleared = with_ctx(last, ctx_clear(ctx_of(last)));
                    Some(seq![continuous_replace(ctx, ty, buffer + stopped_texts(items), seq![cleared])])
                },
                None => None,
            },
            Op::Escape => match step(*child, op) {
                Some(items) => if items.len() == 0 {
                    Some(Seq::<TfView>::empty())
                } else {
                    Some(seq![continuous_replace(ctx, ty, buffer, items)])
                },
                None => None,
            },
            Op::Enter => if buffer_of(*child).len() == 0 {
                Some(seq![TfView::Stopped { ctx: ctx_push(ctx, buffer), reason: StoppedReason::Compleated }])
            } else {
                match step(*child, op) {
                    Some(items) => Some(seq![TfView::Continuous {
                        ctx,
                        ty,
                        child: Box::new(make(ctx_new_empty(ctx), ty)),
                        buffer: buffer + stopped_texts(items),
                    }]),
                    None => None,
                }
            },
            Op::Backspace | Op::Delete => if buffer_of(*child).len() == 0 {
                if buffer.len() == 0 {
                    Some(Seq::<TfView>::empty())
                } else {
                    Some(seq![TfView::Continuous { ctx, ty, child, buffer: buffer.drop_last() }])
                }
            } else {
                match step(*child, Op::Backspace) {
                    Some(items) => Some(seq![continuous_replace(ctx, ty, buffer, items)]),
                    None => None,
                }
            },
            Op::Space => match step(*child, op) {
                Some(items) => Some(seq![continuous_replace(ctx, ty, buffer, items)]),
                None => None,
            },
            _ => None,
        },
        _ => None,
    }
}

/// An abbreviation with its last element replaced; none when nothing is left.
pub open spec fn abbr_replace(ctx: ContextView, stack: Seq<TfView>, items: Seq<TfView>) -> Seq<TfView> {
    let s = pop_last(stack) + items;
    if s.len() == 0 {
        Seq::<TfView>::empty()
    } else {
        seq![TfView::Abbr { ctx, stack: s }]
    }
}

/// Looking an abbreviation up, with the context of the abbreviation.
pub open spec fn abbr_compose(ctx: ContextView, text: Seq<char>) -> TfView {
    compose(ctx, word_new_abbr(text))
}

/// Looking a word up: its candidates when the dictionary has its key, else
/// the registration of an unknown word.
pub open spec fn compose(ctx: ContextView, word: WordView) -> TfView {
    match word_dic_read(word) {
        Some(read) => match env_lookup(ctx.0, read) {
            Some(e) => select_candidate_new(ctx, e, word),
            None => unknown_word_new(ctx, word),
        },
        None => unknown_word_new(ctx, word),
    }
}

/// An abbreviation: text typed as it is, looked up on space.
pub open spec fn abbr_step(t: TfView, op: Op) -> Option<Seq<TfView>>
    decreases rank(t), 0nat,
{
    match t {
        TfView::Abbr { ctx, stack } => if stack.len() == 0 {
            match op {
                Op::Space => Some(Seq::<TfView>::empty()),
                _ => None,
            }
        } else {
            let last = stack[stack.len() - 1];
            proof {
                lemma_ranks_element(stack, stack.len() - 1);
            }
            match op {
                Op::Tab | Op::Arrow => None,
                Op::Char(_) => match step(last, op) {
                    Some(items) => Some(abbr_replace(ctx, stack, items)),
                    None => None,
                },
                Op::Escape => match step(last, op) {
                    Some(items) => Some(abbr_replace(ctx, stack, items)),
                    None => if stack.len() == 1 && last is Continuous {
                        Some(Seq::<TfView>::empty())
                    } else {
                        None
                    },
                },
                Op::Enter => match step(last, op) {
                    Some(items) => if items.len() == 0 {
                        Some(Seq::<TfView>::empty())
                    } else if items.len() == 1 && is_stopped(items[0]) {
                        Some(items)
                    } else {
                        Some(abbr_replace(ctx, stack, items))
                    },
                    None => None,
                },
                Op::Space => if stack.len() == 1 && last is Continuous {
                    if buffer_of(last).len() == 0 {
                        Some(Seq::<TfView>::empty())
                    } else {
                        Some(seq![TfView::Abbr { ctx, stack: stack.push(abbr_compose(ctx, buffer_of(last))) }])
                    }
                } else {
                    match step(last, op) {
                        Some(items) => Some(abbr_replace(ctx, stack, items)),
                        None => None,
                    }
                },
                Op::Backspace | Op::Delete => if stack.len() == 1 && buffer_of(last).len() == 0 {
                    Some(Seq::<TfView>::empty())
                } else {
                    match step(last, Op::Delete) {
                        Some(items) => {
                            let r = abbr_replace(ctx, stack, items);
                            if r.len() > 0 {
                                Some(r)
                            } else {
                                Some(seq![abbr_new(ctx)])
                            }
                        },
                        None => None,
                    }
                },
                Op::Any(_) => match step(last, op) {
                    Some(items) => if items.len() == 0 {
                        Some(Seq::<TfView>::empty())
                    } else if is_stopped(items.last()) {
                        Some(seq![items.last()])
                    } else {
                        Some(abbr_replace(ctx, stack, items))
                    },
                    None => None,
                },
            }
        },
        _ => None,
    }
}

/// What an input does to a transformer.
pub open spec fn step(t: TfView, op: Op) -> Option<Seq<TfView>>
    decreases rank(t), 1nat,
{
    match t {
        TfView::Stopped { .. } => None,
        TfView::Direct { ctx, buf } => direct_step(ctx, buf, op),
        TfView::Hiragana { ctx, buf } => kana_step(ctx, TransformerTypes::Hiragana, buf, op),
        TfView::Katakana { ctx, buf } => kana_step(ctx, TransformerTypes::Katakana, buf, op),
        TfView::Henkan { .. } => henkan_step(t, op),
        TfView::Yomi { ctx, ty, word } => yomi_step(ctx, ty, word, op),
        TfView::SelectCandidate { .. } => select_candidate_step(t, op),
        TfView::UnknownWord { .. } => unknown_word_step(t, op),
        TfView::Continuous { .. } => continuous_step(t, op),
        TfView::Abbr { .. } => abbr_step(t, op),
    }
}

/// The input that a key is, apart from the character it types.
pub open spec fn meta_op(key: KeyCode) -> Op {
    match key {
        KeyCode::Meta(MetaKey::Escape) => Op::Escape,
        KeyCode::Meta(MetaKey::Enter) | KeyCode::PrintableMeta(MetaKey::Enter, _) => Op::Enter,
        KeyCode::Meta(MetaKey::Space) | KeyCode::PrintableMeta(MetaKey::Space, _) => Op::Space,
        KeyCode::Meta(MetaKey::Backspace) | KeyCode::PrintableMeta(MetaKey::Backspace, _) => Op::Backspace,
        KeyCode::Meta(MetaKey::Delete) | KeyCode::PrintableMeta(MetaKey::Delete, _) => Op::Delete,
        KeyCode::Meta(MetaKey::Tab) | KeyCode::PrintableMeta(MetaKey::Tab, _) => Op::Tab,
        KeyCode::Meta(MetaKey::ArrowRight) | KeyCode::Meta(MetaKey::ArrowDown)
        | KeyCode::Meta(MetaKey::ArrowLeft) | KeyCode::Meta(MetaKey::ArrowUp) => Op::Arrow,
        _ => Op::Any(key),
    }
}

/// The transformer that an answer leaves: cancelled when the answer is
/// empty, else its last transformer.
pub open spec fn outcome(t: TfView, items: Seq<TfView>) -> TfView {
    if items.len() == 0 {
        TfView::Stopped { ctx: ctx_of(t), reason: StoppedReason::Canceled }
    } else {
        items.last()
    }
}

/// What pressing a key does: the key as a meta key first, then the
/// character it types; `None` when neither is the transformer's concern.
pub open spec fn key_step(t: TfView, key: KeyCode) -> Option<TfView> {
    match step(t, meta_op(key)) {
        Some(items) => Some(outcome(t, items)),
        None => match printable_of(key) {
            Some(c) => match step(t, Op::Char(c)) {
                Some(items) => Some(outcome(t, items)),
                None => None,
            },
            None => None,
        },
    }
}

/// The transformer that the held keys switch to, among the allowed modes:
/// the mode made afresh in the same context.
pub open spec fn change_to(ctx: ContextView, allow: Set<TransformerTypes>, pressing: Set<KeyCode>) -> Option<TfView> {
    match change_spec(ctx.0.0.key_config, allow, pressing) {
        Some(ty) => if constructible(ty) {
            Some(make(ctx, ty))
        } else {
            None
        },
        None => None,
    }
}

pub open spec fn direct_allow() -> Seq<TransformerTypes> {
    seq![TransformerTypes::Hiragana]
}

pub open spec fn hiragana_allow() -> Seq<TransformerTypes> {
    seq![TransformerTypes::Direct, TransformerTypes::Katakana, TransformerTypes::EnKatakana, TransformerTypes::EmEisu]
}

pub open spec fn katakana_allow() -> Seq<TransformerTypes> {
    seq![TransformerTypes::Direct, TransformerTypes::Hiragana, TransformerTypes::EnKatakana, TransformerTypes::EmEisu]
}

/// Switching modes by held keys: the three text modes switch among
/// themselves; a continuous input switches as its child does.
pub open spec fn change_tf(t: TfView, pressing: Set<KeyCode>) -> Option<TfView>
    decreases t,
{
    match t {
        TfView::Direct { ctx, .. } => change_to(ctx, direct_allow().to_set(), pressing),
        TfView::Hiragana { ctx, .. } => change_to(ctx, hiragana_allow().to_set(), pressing),
        TfView::Katakana { ctx, .. } => change_to(ctx, katakana_allow().to_set(), pressing),
        TfView::Continuous { child, .. } => change_tf(*child, pressing),
        _ => None,
    }
}

/// Keys of one combination are held exactly when each of them is.
proof fn lemma_one_combination(k: KeyCombinations, s: Seq<KeyCode>, p: Set<KeyCode>)
    requires
        k.alternatives().len() == 1,
        k.alternatives()[0].keys() == key_set(s),
    ensures
        combos_fulfilled(k, p) <==> (forall|i: int| 0 <= i < s.len() ==> p.contains(#[trigger] s[i])),
{
    if forall|i: int| 0 <= i < s.len() ==> p.contains(#[trigger] s[i]) {
        assert forall|x: KeyCode| key_set(s).contains(x) implies p.contains(x) by {
            let j = choose|j: int| 0 <= j < s.len() && s[j] == x;
        }
        assert(k.alternatives()[0].keys().subset_of(p));
    }
    if combos_fulfilled(k, p) {
        assert forall|i: int| 0 <= i < s.len() implies p.contains(#[trigger] s[i]) by {
            assert(key_set(s).contains(s[i]));
        }
    }
}

/// With the default keys the text modes switch as their keys say, from any
/// state of the mode: ctrl-j goes to hiragana from direct input and from
/// katakana, q goes to katakana from hiragana, and l goes to direct input
/// from hiragana and from katakana; the mode switched to is made afresh in
/// the same context.
pub proof fn law_default_mode_keys(ctx: ContextView, buf: Seq<PairView>)
    requires
        is_default_key_config(ctx.0.0.key_config),
    ensures
        change_tf(TfView::Direct { ctx, buf }, set![KeyCode::Meta(MetaKey::Ctrl), KeyCode::Printable('j')])
            == Some(make(ctx, TransformerTypes::Hiragana)),
        change_tf(TfView::Katakana { ctx, buf }, set![KeyCode::Meta(MetaKey::Ctrl), KeyCode::Printable('j')])
            == Some(make(ctx, TransformerTypes::Hiragana)),
        change_tf(TfView::Hiragana { ctx, buf }, set![KeyCode::Printable('q')])
            == Some(make(ctx, TransformerTypes::Katakana)),
        change_tf(TfView::Hiragana { ctx, buf }, set![KeyCode::Printable('l')])
            == Some(make(ctx, TransformerTypes::Direct)),
        change_tf(TfView::Katakana { ctx, buf }, set![KeyCode::Printable('l')])
            == Some(make(ctx, TransformerTypes::Direct)),
{
    let k = ctx.0.0.key_config;
    let ctrl_j = set![KeyCode::Meta(MetaKey::Ctrl), KeyCode::Printable('j')];
    let q = set![KeyCode::Printable('q')];
    let l = set![KeyCode::Printable('l')];
    let hira = seq![KeyCode::Meta(MetaKey::Ctrl), KeyCode::Printable('j')];
    let kata = seq![KeyCode::Printable('q')];
    let en = seq![KeyCode::Meta(MetaKey::Ctrl), KeyCode::Printable('q')];
    let em = seq![KeyCode::Meta(MetaKey::Shift), KeyCode::Printable('l')];
    let direct = seq![KeyCode::Printable('l')];
    let sets = seq![ctrl_j, q, l];
    assert forall|n: int| 0 <= n < 3 implies {
        &&& (combos_fulfilled(k.enter_hiragana_transformer, #[trigger] sets[n]) <==> n == 0)
        &&& (combos_fulfilled(k.enter_katakana_transformer, sets[n]) <==> n == 1)
        &&& !combos_fulfilled(k.enter_en_katakana_transformer, sets[n])
        &&& !combos_fulfilled(k.enter_em_eisu_transformer, sets[n])
        &&& (combos_fulfilled(k.enter_direct_transformer, sets[n]) <==> n == 2)
    } by {
        let p = sets[n];
        lemma_one_combination(k.enter_hiragana_transformer, hira, p);
        lemma_one_combination(k.enter_katakana_transformer, kata, p);
        lemma_one_combination(k.enter_en_katakana_transformer, en, p);
        lemma_one_combination(k.enter_em_eisu_transformer, em, p);
        lemma_one_combination(k.enter_direct_transformer, direct, p);
        assert(hira[0] == KeyCode::Meta(MetaKey::Ctrl) && hira[1] == KeyCode::Printable('j'));
        assert(kata[0] == KeyCode::Printable('q'));
        assert(en[0] == KeyCode::Meta(MetaKey::Ctrl));
        assert(em[0] == KeyCode::Meta(MetaKey::Shift));
        assert(direct[0] == KeyCode::Printable('l'));
    }
    assert(sets[0] == ctrl_j && sets[1] == q && sets[2] == l);
    lemma_allowed(direct_allow());
    lemma_allowed(hiragana_allow());
    lemma_allowed(katakana_allow());
}

/// A mode is allowed exactly when the list of allowed modes names it.
proof fn lemma_allowed(s: Seq<TransformerTypes>)
    requires
        s.len() <= 4,
    ensures
        forall|t: TransformerTypes| #[trigger] s.to_set().contains(t) <==> (
            (s.len() > 0 && s[0] == t) || (s.len() > 1 && s[1] == t) || (s.len() > 2 && s[2] == t)
                || (s.len() > 3 && s[3] == t)),
{
    assert forall|t: TransformerTypes| #[trigger] s.to_set().contains(t) <==> (
        (s.len() > 0 && s[0] == t) || (s.len() > 1 && s[1] == t) || (s.len() > 2 && s[2] == t)
            || (s.len() > 3 && s[3] == t)) by {
        if s.contains(t) {
            let i = choose|i: int| 0 <= i < s.len() && s[i] == t;
        }
        if s.len() > 0 && s[0] == t {
            assert(s.contains(t));
        }
        if s.len() > 1 && s[1] == t {
            assert(s.contains(t));
        }
        if s.len() > 2 && s[2] == t {
            assert(s.contains(t));
        }
        if s.len() > 3 && s[3] == t {
            assert(s.contains(t));
        }
    }
}

/// What a mode switch makes is of a type that can be made.
pub proof fn lemma_change_tf_constructible(t: TfView, pressing: Set<KeyCode>)
    ensures
        change_tf(t, pressing) matches Some(n) ==> constructible(ttype(n)),
    decreases t,
{
    if let TfView::Continuous { child, .. } = t {
        lemma_change_tf_constructible(*child, pressing);
    }
}

/// Space then backspace, when there is a candidate after the one selected,
/// comes back to the candidate selected before.
pub proof fn law_space_then_backspace(t: TfView)
    requires
        t matches TfView::SelectCandidate { pos, cands, .. } && pos + 1 < cands.len(),
    ensures
        step(t, Op::Space) matches Some(s) && s.len() == 1 && step(s[0], Op::Backspace) == Some(seq![t]),
{
    if let TfView::SelectCandidate { ctx, entry, cands, pos, word } = t {
        let next = TfView::SelectCandidate { ctx, entry, cands, pos: pos + 1, word };
        assert(step(t, Op::Space) == Some(seq![next]));
        assert(((pos + 1 - 1) as nat) == pos);
        assert(step(next, Op::Backspace) == Some(seq![t]));
    }
}

/// Turning hiragana into katakana keeps the length of the text; each
/// character of the hiragana block (U+3041 to U+3096) becomes the katakana
/// character at the same place of the katakana block (U+30A1 to U+30F6),
/// 0x60 further on, and every other character is kept.
pub proof fn law_hira2kata_gives_katakana(s: Seq<char>)
    ensures
        hira2kata_spec(s).len() == s.len(),
        forall|i: int| 0 <= i < s.len() && 0x3041 <= (s[i] as int) <= 0x3096 ==> {
            &&& 0x30A1 <= (#[trigger] hira2kata_spec(s)[i] as int) <= 0x30F6
            &&& hira2kata_spec(s)[i] as int == s[i] as int + 0x60
        },
        forall|i: int| 0 <= i < s.len() && !(0x3041 <= (s[i] as int) <= 0x3096) ==> #[trigger] hira2kata_spec(s)[i] == s[i],
{
    assert forall|i: int| 0 <= i < s.len() && 0x3041 <= (s[i] as int) <= 0x3096 implies {
        &&& 0x30A1 <= (#[trigger] hira2kata_spec(s)[i] as int) <= 0x30F6
        &&& hira2kata_spec(s)[i] as int == s[i] as int + 0x60
    } by {
        let c = s[i];
        assert('\u{3041}' <= c && c <= '\u{3096}');
    }
}

/// Turning katakana into hiragana keeps the length of the text; each
/// character of the katakana block (U+30A1 to U+30F6) becomes the hiragana
/// character at the same place of the hiragana block (U+3041 to U+3096),
/// 0x60 before, and every other character is kept.
pub proof fn law_kata2hira_gives_hiragana(s: Seq<char>)
    ensures
        kata2hira_spec(s).len() == s.len(),
        forall|i: int| 0 <= i < s.len() && 0x30A1 <= (s[i] as int) <= 0x30F6 ==> {
            &&& 0x3041 <= (#[trigger] kata2hira_spec(s)[i] as int) <= 0x3096
            &&& kata2hira_spec(s)[i] as int == s[i] as int - 0x60
        },
        forall|i: int| 0 <= i < s.len() && !(0x30A1 <= (s[i] as int) <= 0x30F6) ==> #[trigger] kata2hira_spec(s)[i] == s[i],
{
    assert forall|i: int| 0 <= i < s.len() && 0x30A1 <= (s[i] as int) <= 0x30F6 implies {
        &&& 0x3041 <= (#[trigger] kata2hira_spec(s)[i] as int) <= 0x3096
        &&& kata2hira_spec(s)[i] as int == s[i] as int - 0x60
    } by {
        let c = s[i];
        assert('\u{30a1}' <= c && c <= '\u{30f6}');
    }
}

/// Hiragana turned into katakana turns back, for text with no katakana in it.
pub proof fn law_kata2hira_undoes_hira2kata(s: Seq<char>)
    requires
        forall|i: int| 0 <= i < s.len() ==> !('\u{30a1}' <= #[trigger] s[i] && s[i] <= '\u{30f6}'),
    ensures
        kata2hira_spec(hira2kata_spec(s)) == s,
{
    assert forall|i: int| 0 <= i < s.len() implies #[trigger] kata_to_hira(hira_to_kata(s[i])) == s[i] by {
        let c = s[i];
        if '\u{3041}' <= c && c <= '\u{3096}' {
            let d = ((c as u32) + 0x60) as char;
            assert(d as u32 == (c as u32) + 0x60);
            assert('\u{30a1}' <= d && d <= '\u{30f6}');
            assert(((d as u32) - 0x60) as char == c);
        }
    }
    assert(kata2hira_spec(hira2kata_spec(s)) =~= s);
}

/// Katakana turned into hiragana turns back, for text with no hiragana in it.
pub proof fn law_hira2kata_undoes_kata2hira(s: Seq<char>)
    requires
        forall|i: int| 0 <= i < s.len() ==> !('\u{3041}' <= #[trigger] s[i] && s[i] <= '\u{3096}'),
    ensures
        hira2kata_spec(kata2hira_spec(s)) == s,
{
    assert forall|i: int| 0 <= i < s.len() implies #[trigger] hira_to_kata(kata_to_hira(s[i])) == s[i] by {
        let c = s[i];
        if '\u{30a1}' <= c && c <= '\u{30f6}' {
            let d = ((c as u32) - 0x60) as char;
            assert(d as u32 == (c as u32) - 0x60);
            assert('\u{3041}' <= d && d <= '\u{3096}');
            assert(((d as u32) + 0x60) as char == c);
        }
    }
    assert(hira2kata_spec(kata2hira_spec(s)) =~= s);
}

// ---------------------------------------------------------------------
// The stack of transformers that hold others.

/// The transformers that a transformer holds, in order: the stack of a
/// conversion, a registration or an abbreviation; the child of a
/// continuous input.
pub open spec fn children(t: TfView) -> Seq<TfView> {
    match t {
        TfView::Henkan { stack, .. } => stack,
        TfView::UnknownWord { stack, .. } => stack,
        TfView::Abbr { stack, .. } => stack,
        TfView::Continuous { child, .. } => seq![*child],
        _ => Seq::<TfView>::empty(),
    }
}

/// The transformers that hold a stack.
pub open spec fn is_stackable(t: TfView) -> bool {
    t is Henkan || t is UnknownWord || t is Abbr
}

/// A transformer with another stack.
pub open spec fn with_stack(t: TfView, s: Seq<TfView>) -> TfView {
    match t {
        TfView::Henkan { ctx, ty, .. } => TfView::Henkan { ctx, ty, stack: s },
        TfView::UnknownWord { ctx, word, .. } => TfView::UnknownWord { ctx, word, stack: s },
        TfView::Abbr { ctx, .. } => TfView::Abbr { ctx, stack: s },
        _ => t,
    }
}

/// A transformer with one more element on its stack.
pub open spec fn push_tf(t: TfView, item: TfView) -> TfView {
    with_stack(t, children(t).push(item))
}

/// Taking the last element off a stack: the transformer left and the
/// element.  A conversion or an abbreviation left with nothing is
/// cancelled; a reading or a kana input loses its last piece, and is
/// cancelled when it has none.
pub open spec fn pop_tf(t: TfView) -> (TfView, Option<TfView>) {
    match t {
        TfView::Henkan { ctx, stack, .. } | TfView::Abbr { ctx, stack } => {
            let item = if stack.len() > 0 { Some(stack.last()) } else { None };
            if pop_last(stack).len() == 0 {
                (TfView::Stopped { ctx, reason: StoppedReason::Canceled }, item)
            } else {
                (with_stack(t, pop_last(stack)), item)
            }
        },
        TfView::UnknownWord { stack, .. } => (
            with_stack(t, pop_last(stack)),
            if stack.len() > 0 { Some(stack.last()) } else { None },
        ),
        TfView::Yomi { ctx, ty, word } => (yomi_pop(ctx, ty, word), None),
        TfView::Hiragana { ctx, buf } => if buf.len() == 0 {
            (TfView::Stopped { ctx, reason: StoppedReason::Canceled }, None)
        } else {
            (TfView::Hiragana { ctx, buf: remove_last_spec(buf, LetterType::Hiragana).1 }, None)
        },
        TfView::Katakana { ctx, buf } => if buf.len() == 0 {
            (TfView::Stopped { ctx, reason: StoppedReason::Canceled }, None)
        } else {
            (TfView::Katakana { ctx, buf: remove_last_spec(buf, LetterType::Katakana).1 }, None)
        },
        _ => (t, None),
    }
}

/// Taking off the last element undoes putting one on, for a stack that
/// keeps an element under it (a registration may be left empty).
pub proof fn law_pop_undoes_push(t: TfView, item: TfView)
    requires
        is_stackable(t),
        t is UnknownWord || children(t).len() > 0,
    ensures
        pop_tf(push_tf(t, item)) == (t, Some(item)),
{
    let s = children(t);
    assert(s.push(item).drop_last() =~= s);
    assert(with_stack(t, s) == t);
}

/// A transformer with its last element replaced by some transformers: the
/// stack of a conversion or an abbreviation (none when it is left empty)
/// or of a registration; the child of a continuous input; the others stay.
pub open spec fn replace_last_tf(t: TfView, items: Seq<TfView>) -> Seq<TfView> {
    match t {
        TfView::Henkan { ctx, ty, stack } => henkan_replace(ctx, ty, stack, items),
        TfView::UnknownWord { ctx, word, stack } => unknown_word_replace(ctx, word, stack, items),
        TfView::Abbr { ctx, stack } => abbr_replace(ctx, stack, items),
        TfView::Continuous { ctx, ty, buffer, .. } => seq![continuous_replace(ctx, ty, buffer, items)],
        _ => seq![t],
    }
}

/// The transformer that inputs go to: the last element of a stack (for a
/// registration with none, a fresh continuous hiragana input; for a
/// conversion or an abbreviation with none, the transformer completed),
/// the child of a continuous input, and otherwise the transformer itself.
pub open spec fn send_target_spec(t: TfView) -> TfView {
    match t {
        TfView::Henkan { ctx, stack, .. } | TfView::Abbr { ctx, stack } => if stack.len() > 0 {
            stack.last()
        } else {
            TfView::Stopped { ctx, reason: StoppedReason::Compleated }
        },
        TfView::UnknownWord { ctx, stack, .. } => if stack.len() > 0 {
            stack.last()
        } else {
            continuous_new(ctx, TransformerTypes::Hiragana)
        },
        TfView::Continuous { child, .. } => *child,
        _ => t,
    }
}

/// The name of a type, as `Debug` writes it.
pub open spec fn type_label(ty: TransformerTypes) -> Seq<char> {
    match ty {
        TransformerTypes::Direct => "Direct"@,
        TransformerTypes::Hiragana => "Hiragana"@,
        TransformerTypes::Katakana => "Katakana"@,
        TransformerTypes::Henkan => "Henkan"@,
        TransformerTypes::Okuri => "Okuri"@,
        TransformerTypes::Abbr => "Abbr"@,
        TransformerTypes::EmEisu => "EmEisu"@,
        TransformerTypes::EnKatakana => "EnKatakana"@,
        TransformerTypes::Yomi => "Yomi"@,
        TransformerTypes::Stopped(StoppedReason::Compleated) => "Stopped(Compleated)"@,
        TransformerTypes::Stopped(StoppedReason::Canceled) => "Stopped(Canceled)"@,
        TransformerTypes::SelectCandidate => "SelectCandidate"@,
        TransformerTypes::UnknownWord => "UnknownWord"@,
        TransformerTypes::Continuous => "Continuous"@,
        TransformerTypes::Letter(LetterType::Direct) => "Letter(Direct)"@,
        TransformerTypes::Letter(LetterType::Hiragana) => "Letter(Hiragana)"@,
        TransformerTypes::Letter(LetterType::Katakana) => "Letter(Katakana)"@,
        TransformerTypes::Letter(LetterType::EnKatakana) => "Letter(EnKatakana)"@,
        TransformerTypes::Letter(LetterType::EmEisu) => "Letter(EmEisu)"@,
    }
}

/// `depth` tabs.
pub open spec fn tabs(depth: nat) -> Seq<char> {
    Seq::new(depth, |i: int| '\t')
}

pub proof fn lemma_children_rank(t: TfView)
    ensures
        children(t).len() > 0 ==> ranks(children(t)) < rank(t),
{
    if let TfView::Continuous { child, .. } = t {
        let s = seq![*child];
        assert(s.subrange(0, 0) =~= Seq::<TfView>::empty());
        assert(ranks(Seq::<TfView>::empty()) == 0);
        assert(ranks(s) == ranks(s.subrange(0, 0)) + rank(s[0]));
        assert(rank(t) == 1 + rank(*child));
    }
}

/// A transformer and all it holds, one per line, indented by depth: the
/// type and the text, `(empty)` for no text, in brackets.
pub open spec fn stack_text(t: TfView, depth: nat) -> Seq<char>
    decreases rank(t), 1nat,
{
    let kids = children(t);
    let head = tabs(depth) + seq!['['] + type_label(ttype(t)) + seq![':', ' '];
    if kids.len() == 0 {
        head + (if buffer_of(t).len() == 0 { "(empty)"@ } else { buffer_of(t) }) + seq![']']
    } else {
        proof {
            lemma_children_rank(t);
        }
        head + buffer_of(t) + seq!['\n'] + stacks_text(kids, depth + 1) + tabs(depth) + seq![']']
    }
}

/// The texts of the elements of a stack, each followed by a line break.
pub open spec fn stacks_text(s: Seq<TfView>, depth: nat) -> Seq<char>
    decreases ranks(s), 2nat,
{
    if s.len() == 0 {
        Seq::<char>::empty()
    } else {
        proof {
            lemma_ranks_element(s, s.len() - 1);
            lemma_rank_positive(s[s.len() - 1]);
        }
        stacks_text(s.subrange(0, s.len() - 1), depth) + stack_text(s[s.len() - 1], depth) + seq!['\n']
    }
}

// ---------------------------------------------------------------------
// What every input keeps: the configuration and the dictionary.

/// Whether a transformer, and every transformer it holds, works with the
/// given configuration and dictionary.
pub open spec fn within_env(t: TfView, e: ContextEnv) -> bool
    decreases t,
{
    ctx_of(t).0 == e && match t {
        TfView::Henkan { stack, .. } => all_within(stack, e),
        TfView::UnknownWord { stack, .. } => all_within(stack, e),
        TfView::Continuous { child, .. } => within_env(*child, e),
        TfView::Abbr { stack, .. } => all_within(stack, e),
        _ => true,
    }
}

pub open spec fn all_within(s: Seq<TfView>, e: ContextEnv) -> bool
    decreases s,
{
    if s.len() == 0 {
        true
    } else {
        all_within(s.subrange(0, s.len() - 1), e) && within_env(s[s.len() - 1], e)
    }
}

pub proof fn lemma_all_within(s: Seq<TfView>, e: ContextEnv)
    ensures
        all_within(s, e) <==> forall|i: int| 0 <= i < s.len() ==> within_env(#[trigger] s[i], e),
    decreases s.len(),
{
    if s.len() > 0 {
        let p = s.subrange(0, s.len() - 1);
        lemma_all_within(p, e);
        assert forall|i: int| 0 <= i < p.len() implies p[i] == s[i] by {}
        if all_within(s, e) {
            assert forall|i: int| 0 <= i < s.len() implies within_env(#[trigger] s[i], e) by {
                if i < s.len() - 1 {
                    assert(p[i] == s[i]);
                }
            }
        }
        if forall|i: int| 0 <= i < s.len() ==> within_env(#[trigger] s[i], e) {
            assert forall|i: int| 0 <= i < p.len() implies within_env(#[trigger] p[i], e) by {
                assert(p[i] == s[i]);
            }
        }
    }
}

proof fn lemma_all_within_concat(a: Seq<TfView>, b: Seq<TfView>, e: ContextEnv)
    requires
        all_within(a, e),
        all_within(b, e),
    ensures
        all_within(a + b, e),
{
    lemma_all_within(a, e);
    lemma_all_within(b, e);
    lemma_all_within(a + b, e);
    assert forall|i: int| 0 <= i < (a + b).len() implies within_env(#[trigger] (a + b)[i], e) by {
        if i < a.len() {
            assert((a + b)[i] == a[i]);
        } else {
            assert((a + b)[i] == b[i - a.len()]);
        }
    }
}

proof fn lemma_all_within_pop(a: Seq<TfView>, e: ContextEnv)
    requires
        all_within(a, e),
    ensures
        all_within(pop_last(a), e),
{
    if a.len() > 0 {
        assert(a.drop_last() =~= a.subrange(0, a.len() - 1));
    }
}

proof fn lemma_all_within_one(t: TfView, e: ContextEnv)
    ensures
        all_within(seq![t], e) == within_env(t, e),
{
    assert(seq![t].subrange(0, 0) =~= Seq::<TfView>::empty());
    assert(all_within(seq![t].subrange(0, 0), e));
}

proof fn lemma_all_within_two(t: TfView, u: TfView, e: ContextEnv)
    requires
        within_env(t, e),
        within_env(u, e),
    ensures
        all_within(seq![t, u], e),
{
    assert(seq![t, u].subrange(0, 1) =~= seq![t]);
    lemma_all_within_one(t, e);
}

proof fn lemma_all_within_last(s: Seq<TfView>, e: ContextEnv)
    requires
        all_within(s, e),
        s.len() > 0,
    ensures
        within_env(s.last(), e),
        within_env(s[0], e),
{
    lemma_all_within(s, e);
}

/// A transformer with a context of the same configuration and dictionary
/// keeps within them.
pub proof fn lemma_with_ctx_within(t: TfView, c: ContextView, e: ContextEnv)
    requires
        within_env(t, e),
        c.0 == e,
    ensures
        within_env(with_ctx(t, c), e),
{
}

pub proof fn lemma_leaf_make_within(ctx: ContextView, ty: TransformerTypes)
    ensures
        within_env(leaf_make(ctx, ty), ctx.0),
{
}

/// Every fresh transformer keeps within the configuration and dictionary
/// of its context.
pub proof fn lemma_make_within(ctx: ContextView, ty: TransformerTypes)
    ensures
        within_env(text_continuous_new(ctx, ty), ctx.0),
        within_env(abbr_new(ctx), ctx.0),
        within_env(henkan_new(ctx, ty), ctx.0),
        within_env(make(ctx, ty), ctx.0),
{
    lemma_leaf_make_within(ctx_new_empty(ctx), ty);
    lemma_leaf_make_within(ctx_new_empty(ctx), TransformerTypes::Direct);
    lemma_leaf_make_within(ctx_new_empty(ctx), TransformerTypes::Hiragana);
    lemma_leaf_make_within(ctx, ty);
    assert(within_env(text_continuous_new(ctx, ty), ctx.0));
    assert(within_env(text_continuous_new(ctx, TransformerTypes::Direct), ctx.0));
    assert(within_env(text_continuous_new(ctx, TransformerTypes::Hiragana), ctx.0));
    lemma_all_within_one(text_continuous_new(ctx, TransformerTypes::Direct), ctx.0);
    lemma_all_within_one(yomi_new(ctx_new_empty(ctx), ty), ctx.0);
    lemma_all_within_one(yomi_new(ctx_new_empty(ctx), TransformerTypes::Hiragana), ctx.0);
}

pub proof fn lemma_new_within(ctx: ContextView, ty: TransformerTypes)
    ensures
        within_env(continuous_new(ctx, ty), ctx.0),
        within_env(abbr_new(ctx), ctx.0),
        within_env(henkan_new(ctx, ty), ctx.0),
        within_env(make(ctx, ty), ctx.0),
{
    lemma_make_within(ctx, ty);
    lemma_make_within(ctx_new_empty(ctx), ty);
}

proof fn lemma_compose_within(ctx: ContextView, word: WordView)
    ensures
        within_env(compose(ctx, word), ctx.0),
{
    assert(all_within(Seq::<TfView>::empty(), ctx.0));
}

proof fn lemma_yomi_step_within(ctx: ContextView, ty: TransformerTypes, word: WordView, op: Op)
    ensures
        yomi_step(ctx, ty, word, op) matches Some(items) ==> all_within(items, ctx.0),
{
    lemma_compose_within(ctx_new_empty(ctx), word);
    match op {
        Op::Char(c) => {
            let w = word_push(word, c);
            lemma_compose_within(ctx_new_empty(ctx), w);
            lemma_all_within_two(TfView::Yomi { ctx, ty, word: word_remove_okuri(w) }, compose(ctx_new_empty(ctx), w), ctx.0);
            lemma_all_within_one(TfView::Yomi { ctx, ty, word: w }, ctx.0);
        },
        Op::Space => {
            lemma_all_within_two(TfView::Yomi { ctx, ty, word: word_remove_okuri(word) }, compose(ctx_new_empty(ctx), word), ctx.0);
        },
        Op::Escape => {
            lemma_all_within_one(yomi_pop(ctx, ty, word), ctx.0);
        },
        Op::Backspace | Op::Delete => {
            lemma_all_within_one(TfView::Yomi { ctx, ty, word: word_pop(word) }, ctx.0);
        },
        Op::Enter => {
            lemma_all_within_one(TfView::Stopped {
                ctx: ctx_push(ctx, word_buffer(word_remove_okuri(word))),
                reason: StoppedReason::Compleated,
            }, ctx.0);
        },
        Op::Any(key) => {
            lemma_all_within_one(TfView::Stopped { ctx: ctx_push(ctx, hira2kata_spec(word_buffer(word))), reason: StoppedReason::Compleated }, ctx.0);
            lemma_all_within_one(TfView::Stopped { ctx: ctx_push(ctx, kata2hira_spec(word_buffer(word))), reason: StoppedReason::Compleated }, ctx.0);
        },
        _ => {},
    }
}

proof fn lemma_henkan_replace_within(ctx: ContextView, ty: TransformerTypes, stack: Seq<TfView>, items: Seq<TfView>)
    requires
        all_within(stack, ctx.0),
        all_within(items, ctx.0),
    ensures
        all_within(henkan_replace(ctx, ty, stack, items), ctx.0),
{
    lemma_all_within_pop(stack, ctx.0);
    lemma_all_within_concat(pop_last(stack), items, ctx.0);
    lemma_all_within_one(TfView::Henkan { ctx, ty, stack: pop_last(stack) + items }, ctx.0);
}

proof fn lemma_text_step_within(t: TfView, op: Op, e: ContextEnv)
    requires
        within_env(t, e),
    ensures
        kana_or_direct_step(t, op) matches Some(items) ==> all_within(items, e),
{
    match t {
        TfView::Direct { ctx, buf } => {
            if let Op::Char(c) = op {
                lemma_all_within_one(type_char(ctx, LetterType::Direct, buf, c), e);
            }
        },
        TfView::Hiragana { ctx, buf } => lemma_kana_step_within(ctx, TransformerTypes::Hiragana, buf, op),
        TfView::Katakana { ctx, buf } => lemma_kana_step_within(ctx, TransformerTypes::Katakana, buf, op),
        _ => {},
    }
}

proof fn lemma_kana_step_within(ctx: ContextView, ty: TransformerTypes, buf: Seq<PairView>, op: Op)
    ensures
        kana_step(ctx, ty, buf, op) matches Some(items) ==> all_within(items, ctx.0),
{
    let lt = kana_letter(ty);
    let start_ctx = if ty == TransformerTypes::Katakana { ctx_new_empty(ctx) } else { ctx };
    match op {
        Op::Char(c) => {
            lemma_new_within(start_ctx, ty);
            lemma_all_within_one(abbr_new(start_ctx), ctx.0);
            lemma_all_within_one(type_char(ctx_clear(ctx), lt, buf, c), ctx.0);
            lemma_all_within_one(type_char(ctx, lt, buf, c), ctx.0);
            let lc = spec_lowercase_first(c);
            let y = yomi_new(ctx_new_empty(start_ctx), ty);
            lemma_all_within_one(y, ctx.0);
            lemma_yomi_step_within(ctx_new_empty(start_ctx), ty, word_new(kana_letter(ty)), Op::Char(lc));
            if let Some(items) = yomi_step(ctx_new_empty(start_ctx), ty, word_new(kana_letter(ty)), Op::Char(lc)) {
                lemma_henkan_replace_within(start_ctx, ty, seq![y], items);
            }
        },
        Op::Backspace | Op::Delete => {
            let b = remove_last_spec(buf, lt).1;
            lemma_all_within_one(TfView::Stopped { ctx, reason: StoppedReason::Compleated }, ctx.0);
            lemma_all_within_one(text_tf(ctx, lt, b), ctx.0);
        },
        _ => {},
    }
}

proof fn lemma_select_candidate_step_within(t: TfView, op: Op, e: ContextEnv)
    requires
        within_env(t, e),
    ensures
        select_candidate_step(t, op) matches Some(items) ==> all_within(items, e),
{
    if let TfView::SelectCandidate { ctx, entry, cands, pos, word } = t {
        lemma_all_within_one(TfView::Stopped { ctx: ctx_push(ctx, sc_buffer(cands, pos, word)), reason: StoppedReason::Compleated }, e);
        lemma_all_within_one(TfView::SelectCandidate { ctx, entry, cands, pos: pos + 1, word }, e);
        lemma_all_within_one(TfView::SelectCandidate { ctx, entry, cands, pos: (pos - 1) as nat, word }, e);
        assert(all_within(Seq::<TfView>::empty(), e));
        lemma_all_within_two(t, unknown_word_new(ctx, word), e);
    }
}

proof fn lemma_henkan_step_within(t: TfView, op: Op, e: ContextEnv)
    requires
        within_env(t, e),
    ensures
        henkan_step(t, op) matches Some(items) ==> all_within(items, e),
    decreases rank(t), 0nat,
{
    if let TfView::Henkan { ctx, ty, stack } = t {
        if stack.len() > 0 {
            let last = stack[stack.len() - 1];
            lemma_ranks_element(stack, stack.len() - 1);
            lemma_all_within(stack, e);
            lemma_step_within(last, op, e);
            if let Some(items) = step(last, op) {
                lemma_henkan_replace_within(ctx, ty, stack, items);
                if items.len() > 0 {
                    lemma_all_within_last(items, e);
                    lemma_all_within_one(items[0], e);
                    if let Op::Any(key) = op {
                        let base = leaf_make(ctx_new_empty(ctx), ty);
                        lemma_leaf_make_within(ctx_new_empty(ctx), ty);
                        if let Some(c) = printable_of(key) {
                            lemma_text_step_within(base, Op::Char(c), e);
                            if let Some(r) = kana_or_direct_step(base, Op::Char(c)) {
                                if r.len() > 0 {
                                    lemma_all_within_last(r, e);
                                }
                            }
                        }
                        let tf = match printable_of(key) {
                            Some(c) => match kana_or_direct_step(base, Op::Char(c)) {
                                Some(r) => if r.len() > 0 { r.last() } else { base },
                                None => base,
                            },
                            None => base,
                        };
                        lemma_with_ctx_within(tf, ctx_push(ctx_of(items[0]), ctx_stopped(ctx_of(tf))), e);
                        lemma_all_within_one(henkan_after_stop(ctx, ty, items[0], key), e);
                    }
                }
                assert(all_within(Seq::<TfView>::empty(), e));
            }
        }
    }
}

proof fn lemma_unknown_word_step_within(t: TfView, op: Op, e: ContextEnv)
    requires
        within_env(t, e),
    ensures
        unknown_word_step(t, op) matches Some(items) ==> all_within(items, e),
    decreases rank(t), 0nat,
{
    if let TfView::UnknownWord { ctx, word, stack } = t {
        let target = if stack.len() > 0 {
            stack[stack.len() - 1]
        } else {
            continuous_new(ctx, TransformerTypes::Hiragana)
        };
        lemma_all_within(stack, e);
        if stack.len() > 0 {
            lemma_ranks_element(stack, stack.len() - 1);
        } else {
            assert(rank(leaf_make(ctx_new_empty(ctx), TransformerTypes::Hiragana)) == 1);
            lemma_new_within(ctx, TransformerTypes::Hiragana);
        }
        lemma_all_within_one(t, e);
        assert(all_within(Seq::<TfView>::empty(), e));
        let op2 = match op {
            Op::Backspace | Op::Delete => Op::Backspace,
            _ => op,
        };
        lemma_step_within(target, op2, e);
        if let Some(items) = step(target, op2) {
            lemma_all_within_pop(stack, e);
            lemma_all_within_concat(pop_last(stack), items, e);
            lemma_all_within_one(TfView::UnknownWord { ctx, word, stack: pop_last(stack) + items }, e);
            if items.len() > 0 {
                lemma_all_within_last(items, e);
                lemma_all_within_one(items.last(), e);
            }
        }
    }
}

proof fn lemma_continuous_replace_within(ctx: ContextView, ty: TransformerTypes, buffer: Seq<char>, items: Seq<TfView>)
    requires
        all_within(items, ctx.0),
    ensures
        within_env(continuous_replace(ctx, ty, buffer, items), ctx.0),
{
    lemma_make_within(ctx_new_empty(ctx), ty);
    if items.len() > 0 {
        lemma_all_within_last(items, ctx.0);
    }
}

proof fn lemma_continuous_step_within(t: TfView, op: Op, e: ContextEnv)
    requires
        within_env(t, e),
    ensures
        continuous_step(t, op) matches Some(items) ==> all_within(items, e),
    decreases rank(t), 0nat,
{
    if let TfView::Continuous { ctx, ty, child, buffer } = t {
        let op2 = match op {
            Op::Backspace | Op::Delete => Op::Backspace,
            _ => op,
        };
        lemma_step_within(*child, op2, e);
        lemma_make_within(ctx_new_empty(ctx), ty);
        assert(all_within(Seq::<TfView>::empty(), e));
        lemma_all_within_one(TfView::Stopped { ctx: ctx_push(ctx, buffer), reason: StoppedReason::Compleated }, e);
        lemma_all_within_one(TfView::Continuous { ctx, ty, child, buffer: buffer.drop_last() }, e);
        if let Some(items) = step(*child, op2) {
            lemma_continuous_replace_within(ctx, ty, buffer, items);
            lemma_all_within_one(continuous_replace(ctx, ty, buffer, items), e);
            lemma_all_within_one(TfView::Continuous {
                ctx,
                ty,
                child: Box::new(make(ctx_new_empty(ctx), ty)),
                buffer: buffer + stopped_texts(items),
            }, e);
            if items.len() > 0 {
                let last = items.last();
                lemma_all_within_last(items, e);
                lemma_with_ctx_within(last, ctx_clear(ctx_of(last)), e);
                let cleared = with_ctx(last, ctx_clear(ctx_of(last)));
                lemma_all_within_one(cleared, e);
                lemma_continuous_replace_within(ctx, ty, buffer + stopped_texts(items), seq![cleared]);
                lemma_all_within_one(continuous_replace(ctx, ty, buffer + stopped_texts(items), seq![cleared]), e);
            }
        }
    }
}

proof fn lemma_abbr_step_within(t: TfView, op: Op, e: ContextEnv)
    requires
        within_env(t, e),
    ensures
        abbr_step(t, op) matches Some(items) ==> all_within(items, e),
    decreases rank(t), 0nat,
{
    if let TfView::Abbr { ctx, stack } = t {
        assert(all_within(Seq::<TfView>::empty(), e));
        if stack.len() > 0 {
            let last = stack[stack.len() - 1];
            lemma_ranks_element(stack, stack.len() - 1);
            lemma_all_within(stack, e);
            let op2 = match op {
                Op::Backspace | Op::Delete => Op::Delete,
                _ => op,
            };
            lemma_step_within(last, op2, e);
            lemma_new_within(ctx, TransformerTypes::Direct);
            lemma_all_within_one(abbr_new(ctx), e);
            let looked_up = abbr_compose(ctx, buffer_of(last));
            lemma_compose_within(ctx, word_new_abbr(buffer_of(last)));
            lemma_all_within_one(looked_up, e);
            lemma_all_within_concat(stack, seq![looked_up], e);
            assert(stack.push(looked_up) =~= stack + seq![looked_up]);
            lemma_all_within_one(TfView::Abbr { ctx, stack: stack.push(looked_up) }, e);
            if let Some(items) = step(last, op2) {
                lemma_all_within_pop(stack, e);
                lemma_all_within_concat(pop_last(stack), items, e);
                lemma_all_within_one(TfView::Abbr { ctx, stack: pop_last(stack) + items }, e);
                if items.len() > 0 {
                    lemma_all_within_last(items, e);
                    lemma_all_within_one(items.last(), e);
                }
            }
        }
    }
}

/// Every input keeps a transformer, and all it makes, within the
/// configuration and dictionary it works with.
pub proof fn lemma_step_within(t: TfView, op: Op, e: ContextEnv)
    requires
        within_env(t, e),
    ensures
        step(t, op) matches Some(items) ==> all_within(items, e),
    decreases rank(t), 1nat,
{
    match t {
        TfView::Stopped { .. } => {},
        TfView::Direct { .. } | TfView::Hiragana { .. } | TfView::Katakana { .. } => lemma_text_step_within(t, op, e),
        TfView::Henkan { .. } => lemma_henkan_step_within(t, op, e),
        TfView::Yomi { ctx, ty, word } => lemma_yomi_step_within(ctx, ty, word, op),
        TfView::SelectCandidate { .. } => lemma_select_candidate_step_within(t, op, e),
        TfView::UnknownWord { .. } => lemma_unknown_word_step_within(t, op, e),
        TfView::Continuous { .. } => lemma_continuous_step_within(t, op, e),
        TfView::Abbr { .. } => lemma_abbr_step_within(t, op, e),
    }
}

/// A key keeps a transformer within its configuration and dictionary.
pub proof fn lemma_key_step_within(t: TfView, key: KeyCode, e: ContextEnv)
    requires
        within_env(t, e),
    ensures
        key_step(t, key) matches Some(n) ==> within_env(n, e),
{
    lemma_step_within(t, meta_op(key), e);
    if let Some(items) = step(t, meta_op(key)) {
        if items.len() > 0 {
            lemma_all_within_last(items, e);
        }
    }
    if let Some(c) = printable_of(key) {
        lemma_step_within(t, Op::Char(c), e);
        if let Some(items) = step(t, Op::Char(c)) {
            if items.len() > 0 {
                lemma_all_within_last(items, e);
            }
        }
    }
}

/// A mode switch keeps within the configuration and dictionary.
pub proof fn lemma_change_tf_within(t: TfView, pressing: Set<KeyCode>, e: ContextEnv)
    requires
        within_env(t, e),
    ensures
        change_tf(t, pressing) matches Some(n) ==> within_env(n, e),
    decreases t,
{
    match t {
        TfView::Direct { ctx, .. } | TfView::Hiragana { ctx, .. } | TfView::Katakana { ctx, .. } => {
            assert forall|ty: TransformerTypes| #[trigger] within_env(make(ctx, ty), ctx.0) by {
                lemma_new_within(ctx, ty);
            }
        },
        TfView::Continuous { child, .. } => lemma_change_tf_within(*child, pressing, e),
        _ => {},
    }
}

} // verus!
