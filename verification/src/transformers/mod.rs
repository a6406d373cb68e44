//! Transformers: the states of the input method and how keys move them.
pub mod abbr;
pub mod continuous;
pub mod direct;
pub mod henkan;
pub mod hiragana;
pub mod katakana;
pub mod select_candidate;
pub mod steps;
pub mod stopped;
pub mod tables;
pub mod traits;
pub mod unknown_word;
pub mod word;
pub mod yomi;

use vstd::prelude::*;

pub use abbr::AbbrTransformer;
pub use continuous::ContinuousTransformer;
pub use direct::DirectTransformer;
pub use henkan::HenkanTransformer;
pub use hiragana::HiraganaTransformer;
pub use katakana::KatakanaTransformer;
pub use select_candidate::{Candidates, SelectCandidateTransformer};
pub use steps::{Op, TfView};
pub use stopped::StoppedTransformer;
pub use tables::LetterType;
pub use unknown_word::UnknownWordTransformer;
pub use word::{Word, YomiPair};
pub use yomi::YomiTransformer;

use steps::{children, is_stackable, push_tf, pop_tf, replace_last_tf, send_target_spec, stack_text, stacks_text,
    type_label, tabs, lemma_children_rank, continuous_new, rank, ranks, lemma_ranks_element, step, ttype, buffer_of, display_of, ctx_of, with_ctx,
    is_stopped, is_completed, is_base_type, text_tf, type_char, typed, leaf_make, make, constructible,
    compose, meta_op, key_step, outcome, change_tf, kana_or_direct_step, child_type, has_child_type};
use tables::BufferPairs;
use tables::buffer_pairs::concat_pairs;
use crate::context::{Context, ctx_push, ctx_clear, ctx_new_empty};
use crate::keyboards::{KeyCode, Keyboard, MetaKey};
use crate::keyboards::keycodes::printable_of;
use crate::keyboards::us::US;
use crate::text::{concat, push_char, string_of_char};

verus! {

#[derive(PartialEq, Eq, Structural, Copy, Clone, Debug, Hash)]
pub enum BufferState {
    Continue,
    Stop,
}

#[derive(PartialEq, Eq, Structural, Copy, Clone, Debug, Hash)]
pub enum StoppedReason {
    Compleated,
    Canceled,
}

#[derive(PartialEq, Eq, Structural, Copy, Clone, Debug, Hash)]
pub enum TransformerTypes {
    Direct,
    Hiragana,
    Katakana,
    Henkan,
    Okuri,
    Abbr,
    EmEisu,
    EnKatakana,
    Yomi,
    Stopped(StoppedReason),
    SelectCandidate,
    UnknownWord,
    Continuous,
    Letter(LetterType),
}

/// A state of the input method.
#[derive(Debug)]
pub enum Transformer {
    Stopped(StoppedTransformer),
    Direct(DirectTransformer),
    Hiragana(HiraganaTransformer),
    Katakana(KatakanaTransformer),
    Henkan(HenkanTransformer),
    Yomi(YomiTransformer),
    SelectCandidate(SelectCandidateTransformer),
    UnknownWord(UnknownWordTransformer),
    Continuous(ContinuousTransformer),
    Abbr(AbbrTransformer),
}

/// The values of a list of transformers.
pub open spec fn tvs(s: Seq<Transformer>) -> Seq<TfView>
    decreases s,
{
    if s.len() == 0 {
        Seq::<TfView>::empty()
    } else {
        tvs(s.subrange(0, s.len() - 1)).push(s[s.len() - 1].tv())
    }
}

pub open spec fn opt_tvs(r: Option<Vec<Transformer>>) -> Option<Seq<TfView>> {
    match r {
        Some(v) => Some(tvs(v@)),
        None => None,
    }
}

pub open spec fn opt_tv(r: Option<Transformer>) -> Option<TfView> {
    match r {
        Some(t) => Some(t.tv()),
        None => None,
    }
}

pub proof fn lemma_tvs(s: Seq<Transformer>)
    ensures
        tvs(s).len() == s.len(),
        forall|i: int| 0 <= i < s.len() ==> #[trigger] tvs(s)[i] == s[i].tv(),
    decreases s.len(),
{
    if s.len() > 0 {
        lemma_tvs(s.subrange(0, s.len() - 1));
    }
}

pub proof fn lemma_tvs_concat(a: Seq<Transformer>, b: Seq<Transformer>)
    ensures
        tvs(a + b) == tvs(a) + tvs(b),
{
    lemma_tvs(a);
    lemma_tvs(b);
    lemma_tvs(a + b);
    assert(tvs(a + b) =~= tvs(a) + tvs(b));
}

pub proof fn lemma_tvs_drop_last(a: Seq<Transformer>)
    requires
        a.len() > 0,
    ensures
        tvs(a.drop_last()) == tvs(a).drop_last(),
{
    lemma_tvs(a);
    lemma_tvs(a.drop_last());
    assert(tvs(a.drop_last()) =~= tvs(a).drop_last());
}

/// One transformer as a list.
pub fn single(t: Transformer) -> (r: Vec<Transformer>)
    ensures
        tvs(r@) == seq![t.tv()],
{
    let ghost tv = t.tv();
    let r = vec![t];
    proof {
        lemma_tvs(r@);
        assert(tvs(r@) =~= seq![tv]);
    }
    r
}

/// Two transformers as a list.
pub fn pair(a: Transformer, b: Transformer) -> (r: Vec<Transformer>)
    ensures
        tvs(r@) == seq![a.tv(), b.tv()],
{
    let ghost (av, bv) = (a.tv(), b.tv());
    let r = vec![a, b];
    proof {
        lemma_tvs(r@);
        assert(tvs(r@) =~= seq![av, bv]);
    }
    r
}

/// No transformer.
pub fn none() -> (r: Vec<Transformer>)
    ensures
        tvs(r@) == Seq::<TfView>::empty(),
{
    let r: Vec<Transformer> = Vec::new();
    proof {
        lemma_tvs(r@);
        assert(tvs(r@) =~= Seq::<TfView>::empty());
    }
    r
}

/// A stack with its last element replaced by some transformers.
pub fn replace_last(stack: Vec<Transformer>, items: Vec<Transformer>) -> (r: Vec<Transformer>)
    ensures
        tvs(r@) == steps::pop_last(tvs(stack@)) + tvs(items@),
{
    let mut s = stack;
    let mut items = items;
    proof {
        lemma_tvs(s@);
    }
    if s.len() > 0 {
        let ghost before = s@;
        s.pop();
        proof {
            assert(s@ == before.drop_last());
            lemma_tvs_drop_last(before);
        }
    }
    let ghost (a, b) = (s@, items@);
    s.append(&mut items);
    proof {
        assert(s@ == a + b);
        lemma_tvs_concat(a, b);
    }
    s
}

/// The last of a list of transformers.
pub fn take_last(v: Vec<Transformer>) -> (r: Transformer)
    requires
        v@.len() > 0,
    ensures
        r.tv() == tvs(v@).last(),
{
    proof {
        lemma_tvs(v@);
    }
    let ghost before = v@;
    let mut v = v;
    let last = v.pop();
    match last {
        Some(t) => t,
        None => {
            proof {
                assert(before.len() > 0);
            }
            vstd::pervasive::unreached()
        },
    }
}

/// Copies a list of transformers.
pub fn clone_stack(v: &Vec<Transformer>) -> (r: Vec<Transformer>)
    ensures
        tvs(r@) == tvs(v@),
    decreases ranks(tvs(v@)), 2nat,
{
    let mut out: Vec<Transformer> = Vec::new();
    let mut i: usize = 0;
    proof {
        lemma_tvs(v@);
    }
    while i < v.len()
        invariant
            i <= v@.len(),
            tvs(v@).len() == v@.len(),
            forall|j: int| 0 <= j < v@.len() ==> #[trigger] tvs(v@)[j] == v@[j].tv(),
            tvs(out@) == tvs(v@).subrange(0, i as int),
        decreases v@.len() - i,
    {
        proof {
            lemma_ranks_element(tvs(v@), i as int);
        }
        let t = v[i].duplicate();
        let ghost before = out@;
        out.push(t);
        proof {
            assert(out@.subrange(0, out@.len() - 1) =~= before);
            assert(tvs(v@).subrange(0, i + 1) =~= tvs(v@).subrange(0, i as int).push(v@[i as int].tv()));
        }
        i = i + 1;
    }
    assert(tvs(v@).subrange(0, v@.len() as int) =~= tvs(v@));
    out
}

/// Types a character into pairs: the finished text goes to the context;
/// with nothing pending the result is done.
pub(crate) fn type_char_tf(ctx: &Context, buffer: &BufferPairs, c: char) -> (r: Transformer)
    requires
        buffer.kind() == LetterType::Direct || buffer.kind() == LetterType::Hiragana || buffer.kind()
            == LetterType::Katakana,
    ensures
        r.tv() == type_char(ctx@, buffer.kind(), buffer@, c),
{
    let mut b = buffer.clone();
    b.push(c);
    let (stopped, continued) = b.partition_by_state();
    let finished = stopped.to_string();
    let next_ctx = ctx.push_result_string(finished.as_str());
    let pending = continued.to_string();
    if pending.unicode_len() == 0 {
        Transformer::Stopped(StoppedTransformer::completed(next_ctx))
    } else {
        text_tf_exec(next_ctx, continued)
    }
}

/// A text-typing transformer of the buffer's letter type.
pub(crate) fn text_tf_exec(ctx: Context, buffer: BufferPairs) -> (r: Transformer)
    requires
        buffer.kind() == LetterType::Direct || buffer.kind() == LetterType::Hiragana || buffer.kind()
            == LetterType::Katakana,
    ensures
        r.tv() == text_tf(ctx@, buffer.kind(), buffer@),
{
    match buffer.letter_type() {
        LetterType::Direct => Transformer::Direct(DirectTransformer::with_buffer(ctx, buffer)),
        LetterType::Katakana => Transformer::Katakana(KatakanaTransformer::with_buffer(ctx, buffer)),
        _ => Transformer::Hiragana(HiraganaTransformer::with_buffer(ctx, buffer)),
    }
}

/// A fresh transformer of one of the three text modes.
pub fn leaf_make_exec(ctx: Context, ty: TransformerTypes) -> (r: Transformer)
    ensures
        r.tv() == leaf_make(ctx@, ty),
{
    if ty == TransformerTypes::Direct {
        Transformer::Direct(DirectTransformer::new(ctx))
    } else if ty == TransformerTypes::Katakana {
        Transformer::Katakana(KatakanaTransformer::new(ctx))
    } else {
        Transformer::Hiragana(HiraganaTransformer::new(ctx))
    }
}

/// A fresh transformer of a type.
pub fn make_exec(ctx: Context, ty: TransformerTypes) -> (r: Transformer)
    ensures
        r.tv() == make(ctx@, ty),
{
    match ty {
        TransformerTypes::Stopped(reason) => Transformer::Stopped(StoppedTransformer::new(ctx, reason)),
        TransformerTypes::Continuous => Transformer::Continuous(
            ContinuousTransformer::new_text(ctx, TransformerTypes::Hiragana),
        ),
        TransformerTypes::Abbr => Transformer::Abbr(AbbrTransformer::new(ctx)),
        TransformerTypes::Henkan => Transformer::Henkan(HenkanTransformer::new(ctx, TransformerTypes::Hiragana)),
        _ => leaf_make_exec(ctx, ty),
    }
}

/// Whether a type can be made.
pub fn is_constructible(ty: TransformerTypes) -> (r: bool)
    ensures
        r == constructible(ty),
{
    match ty {
        TransformerTypes::Stopped(_) | TransformerTypes::Direct | TransformerTypes::Hiragana
        | TransformerTypes::Katakana | TransformerTypes::Continuous | TransformerTypes::Abbr
        | TransformerTypes::Henkan => true,
        _ => false,
    }
}

/// The mode that the held keys switch to, among the allowed ones, made
/// afresh in a context.
pub(crate) fn change_to_exec(ctx: &Context, allow: &Vec<TransformerTypes>, keyboard: &US) -> (r: Option<Transformer>)
    ensures
        opt_tv(r) == steps::change_to(ctx@, allow@.to_set(), keyboard.pressing_set()),
{
    let ty = ctx.config().key_config().try_change_transformer(allow, keyboard.pressing_keys());
    match ty {
        Some(t) => {
            if is_constructible(t) {
                Some(make_exec(ctx.clone(), t))
            } else {
                None
            }
        },
        None => None,
    }
}

/// Looks a word up in the dictionary of a context.
pub fn compose_exec(ctx: Context, word: Word) -> (r: Transformer)
    ensures
        r.tv() == compose(ctx@, word@),
{
    match word.to_dic_read() {
        Some(read) => {
            let found = match ctx.lookup(read.as_str()) {
                Some(e) => Some(e.clone()),
                None => None,
            };
            match found {
                Some(e) => Transformer::SelectCandidate(SelectCandidateTransformer::new(ctx, &e, word)),
                None => Transformer::UnknownWord(UnknownWordTransformer::new(ctx, word)),
            }
        },
        None => Transformer::UnknownWord(UnknownWordTransformer::new(ctx, word)),
    }
}

/// The input that a key is, apart from the character it types.
pub fn meta_op_exec(key: &KeyCode) -> (r: Op)
    ensures
        r == meta_op(*key),
{
    match key {
        KeyCode::Meta(MetaKey::Escape) => Op::Escape,
        KeyCode::Meta(MetaKey::Enter) | KeyCode::PrintableMeta(MetaKey::Enter, _) => Op::Enter,
        KeyCode::Meta(MetaKey::Space) | KeyCode::PrintableMeta(MetaKey::Space, _) => Op::Space,
        KeyCode::Meta(MetaKey::Backspace) | KeyCode::PrintableMeta(MetaKey::Backspace, _) => Op::Backspace,
        KeyCode::Meta(MetaKey::Delete) | KeyCode::PrintableMeta(MetaKey::Delete, _) => Op::Delete,
        KeyCode::Meta(MetaKey::Tab) | KeyCode::PrintableMeta(MetaKey::Tab, _) => Op::Tab,
        KeyCode::Meta(MetaKey::ArrowRight) | KeyCode::Meta(MetaKey::ArrowDown)
        | KeyCode::Meta(MetaKey::ArrowLeft) | KeyCode::Meta(MetaKey::ArrowUp) => Op::Arrow,
        _ => Op::Any(*key),
    }
}

impl Transformer {
    /// The transformer as a value.
    pub open spec fn tv(&self) -> TfView
        decreases self,
    {
        match self {
            Transformer::Stopped(t) => t.tv(),
            Transformer::Direct(t) => t.tv(),
            Transformer::Hiragana(t) => t.tv(),
            Transformer::Katakana(t) => t.tv(),
            Transformer::Henkan(t) => t.tv(),
            Transformer::Yomi(t) => t.tv(),
            Transformer::SelectCandidate(t) => t.tv(),
            Transformer::UnknownWord(t) => t.tv(),
            Transformer::Continuous(t) => t.tv(),
            Transformer::Abbr(t) => t.tv(),
        }
    }

    /// A copy of the transformer.
    pub fn duplicate(&self) -> (r: Transformer)
        ensures
            r.tv() == self.tv(),
        decreases rank(self.tv()), 1nat,
    {
        match self {
            Transformer::Stopped(t) => Transformer::Stopped(t.clone()),
            Transformer::Direct(t) => Transformer::Direct(t.clone()),
            Transformer::Hiragana(t) => Transformer::Hiragana(t.clone()),
            Transformer::Katakana(t) => Transformer::Katakana(t.clone()),
            Transformer::Henkan(t) => Transformer::Henkan(t.duplicate()),
            Transformer::Yomi(t) => Transformer::Yomi(t.clone()),
            Transformer::SelectCandidate(t) => Transformer::SelectCandidate(t.clone()),
            Transformer::UnknownWord(t) => Transformer::UnknownWord(t.duplicate()),
            Transformer::Continuous(t) => Transformer::Continuous(t.duplicate()),
            Transformer::Abbr(t) => Transformer::Abbr(t.duplicate()),
        }
    }

    /// What an input does to the transformer.
    pub fn step(&self, op: Op) -> (r: Option<Vec<Transformer>>)
        ensures
            opt_tvs(r) == step(self.tv(), op),
        decreases rank(self.tv()), 2nat,
    {
        match self {
            Transformer::Stopped(t) => t.step(op),
            Transformer::Direct(t) => t.step(op),
            Transformer::Hiragana(t) => t.step(op),
            Transformer::Katakana(t) => t.step(op),
            Transformer::Henkan(t) => t.step(op),
            Transformer::Yomi(t) => t.step(op),
            Transformer::SelectCandidate(t) => t.step(op),
            Transformer::UnknownWord(t) => t.step(op),
            Transformer::Continuous(t) => t.step(op),
            Transformer::Abbr(t) => t.step(op),
        }
    }

    /// What an input does to one of the three text modes.
    pub fn text_step(&self, op: Op) -> (r: Option<Vec<Transformer>>)
        ensures
            opt_tvs(r) == kana_or_direct_step(self.tv(), op),
    {
        match self {
            Transformer::Direct(t) => {
                proof {
                    t.lemma_variant();
                }
                t.step(op)
            },
            Transformer::Hiragana(t) => {
                proof {
                    t.lemma_variant();
                }
                t.step(op)
            },
            Transformer::Katakana(t) => {
                proof {
                    t.lemma_variant();
                }
                t.step(op)
            },
            _ => {
                proof {
                    self.lemma_not_text();
                }
                None
            },
        }
    }

    proof fn lemma_not_text(&self)
        requires
            !(self is Direct || self is Hiragana || self is Katakana),
        ensures
            !(self.tv() is Direct || self.tv() is Hiragana || self.tv() is Katakana),
    {
        match self {
            Transformer::Stopped(t) => t.lemma_variant(),
            Transformer::Henkan(t) => t.lemma_variant(),
            Transformer::Yomi(t) => t.lemma_variant(),
            Transformer::SelectCandidate(t) => t.lemma_variant(),
            Transformer::UnknownWord(t) => t.lemma_variant(),
            Transformer::Continuous(t) => t.lemma_variant(),
            Transformer::Abbr(t) => t.lemma_variant(),
            _ => {},
        }
    }

    pub fn push_character(&self, character: char) -> (r: Option<Vec<Transformer>>)
        ensures
            opt_tvs(r) == step(self.tv(), Op::Char(character)),
    {
        self.step(Op::Char(character))
    }

    pub fn push_escape(&self) -> (r: Option<Vec<Transformer>>)
        ensures
            opt_tvs(r) == step(self.tv(), Op::Escape),
    {
        self.step(Op::Escape)
    }

    pub fn push_enter(&self) -> (r: Option<Vec<Transformer>>)
        ensures
            opt_tvs(r) == step(self.tv(), Op::Enter),
    {
        self.step(Op::Enter)
    }

    pub fn push_space(&self) -> (r: Option<Vec<Transformer>>)
        ensures
            opt_tvs(r) == step(self.tv(), Op::Space),
    {
        self.step(Op::Space)
    }

    pub fn push_backspace(&self) -> (r: Option<Vec<Transformer>>)
        ensures
            opt_tvs(r) == step(self.tv(), Op::Backspace),
    {
        self.step(Op::Backspace)
    }

    pub fn push_delete(&self) -> (r: Option<Vec<Transformer>>)
        ensures
            opt_tvs(r) == step(self.tv(), Op::Delete),
    {
        self.step(Op::Delete)
    }

    pub fn push_tab(&self) -> (r: Option<Vec<Transformer>>)
        ensures
            opt_tvs(r) == step(self.tv(), Op::Tab),
    {
        self.step(Op::Tab)
    }

    pub fn push_arrow_right(&self) -> (r: Option<Vec<Transformer>>)
        ensures
            opt_tvs(r) == step(self.tv(), Op::Arrow),
    {
        self.step(Op::Arrow)
    }

    pub fn push_arrow_down(&self) -> (r: Option<Vec<Transformer>>)
        ensures
            opt_tvs(r) == step(self.tv(), Op::Arrow),
    {
        self.step(Op::Arrow)
    }

    pub fn push_arrow_left(&self) -> (r: Option<Vec<Transformer>>)
        ensures
            opt_tvs(r) == step(self.tv(), Op::Arrow),
    {
        self.step(Op::Arrow)
    }

    pub fn push_arrow_up(&self) -> (r: Option<Vec<Transformer>>)
        ensures
            opt_tvs(r) == step(self.tv(), Op::Arrow),
    {
        self.step(Op::Arrow)
    }

    /// A key that is neither a character to type nor one of the meta keys
    /// with a meaning of their own.
    pub fn push_any_character(&self, key: &KeyCode) -> (r: Option<Vec<Transformer>>)
        ensures
            opt_tvs(r) == step(self.tv(), Op::Any(*key)),
    {
        self.step(Op::Any(*key))
    }

    /// A key taken as a meta key.
    pub fn push_meta_key(&self, key: &KeyCode) -> (r: Option<Vec<Transformer>>)
        ensures
            opt_tvs(r) == step(self.tv(), meta_op(*key)),
    {
        self.step(meta_op_exec(key))
    }

    /// The transformer that an answer leaves.
    fn outcome(&self, items: Vec<Transformer>) -> (r: Transformer)
        ensures
            r.tv() == outcome(self.tv(), tvs(items@)),
    {
        let mut items = items;
        proof {
            lemma_tvs(items@);
        }
        if items.len() == 0 {
            self.to_canceled()
        } else {
            items.pop().unwrap()
        }
    }

    /// A key pressed: taken as a meta key first, then as the character it
    /// types; `None` when neither concerns the transformer.
    pub fn push_key(&self, key: &KeyCode) -> (r: Option<Transformer>)
        ensures
            opt_tv(r) == key_step(self.tv(), *key),
    {
        match self.push_meta_key(key) {
            Some(items) => Some(self.outcome(items)),
            None => match key.printable_key() {
                Some(c) => match self.push_character(c) {
                    Some(items) => Some(self.outcome(items)),
                    None => None,
                },
                None => None,
            },
        }
    }

    pub fn to_canceled(&self) -> (r: Transformer)
        ensures
            r.tv() == (TfView::Stopped { ctx: ctx_of(self.tv()), reason: StoppedReason::Canceled }),
    {
        Transformer::Stopped(StoppedTransformer::canceled(self.clone_context()))
    }

    pub fn to_completed(&self) -> (r: Transformer)
        ensures
            r.tv() == (TfView::Stopped { ctx: ctx_of(self.tv()), reason: StoppedReason::Compleated }),
    {
        Transformer::Stopped(StoppedTransformer::completed(self.clone_context()))
    }

    /// Completed, with text appended to the finished text.
    pub fn to_completed_with_update_buffer(&self, buffer: &str) -> (r: Transformer)
        ensures
            r.tv() == (TfView::Stopped { ctx: ctx_push(ctx_of(self.tv()), buffer@), reason: StoppedReason::Compleated }),
    {
        Transformer::Stopped(StoppedTransformer::completed(self.push_stopped_buffer(buffer)))
    }

    pub fn clone_context(&self) -> (r: Context)
        ensures
            r@ == ctx_of(self.tv()),
    {
        self.context().clone()
    }

    /// A context of the same configuration and dictionary with nothing produced.
    pub fn new_context(&self) -> (r: Context)
        ensures
            r@ == ctx_new_empty(ctx_of(self.tv())),
    {
        self.context().new_empty()
    }

    /// The context with text appended to its finished text.
    pub fn push_stopped_buffer(&self, buffer: &str) -> (r: Context)
        ensures
            r@ == ctx_push(ctx_of(self.tv()), buffer@),
    {
        self.context().push_result_string(buffer)
    }

    /// The context with its finished text cleared.
    pub fn clear_stopped_buffer(&self) -> (r: Context)
        ensures
            r@ == ctx_clear(ctx_of(self.tv())),
    {
        self.context().clear_stopped_buffer()
    }

    /// Whether the transformer holds no text.
    pub fn is_empty(&self) -> (r: bool)
        ensures
            r == (buffer_of(self.tv()).len() == 0),
    {
        self.buffer_content().unicode_len() == 0
    }

    /// Whether the transformer is one of the modes a composition starts in.
    pub fn is_base_transformer(&self) -> (r: bool)
        ensures
            r == is_base_type(ttype(self.tv())),
    {
        match self.transformer_type() {
            TransformerTypes::Direct | TransformerTypes::Hiragana | TransformerTypes::Katakana
            | TransformerTypes::EnKatakana | TransformerTypes::EmEisu => true,
            _ => false,
        }
    }

    pub fn is_stopped(&self) -> (r: bool)
        ensures
            r == is_stopped(self.tv()),
    {
        match self.transformer_type() {
            TransformerTypes::Stopped(_) => true,
            _ => false,
        }
    }

    pub fn is_compleated(&self) -> (r: bool)
        ensures
            r == is_completed(self.tv()),
    {
        match self.transformer_type() {
            TransformerTypes::Stopped(StoppedReason::Compleated) => true,
            _ => false,
        }
    }

    pub fn is_canceled(&self) -> (r: bool)
        ensures
            r == (self.tv() matches TfView::Stopped { reason: StoppedReason::Canceled, .. }),
    {
        match self.transformer_type() {
            TransformerTypes::Stopped(StoppedReason::Canceled) => true,
            _ => false,
        }
    }

    pub fn transformer_type(&self) -> (r: TransformerTypes)
        ensures
            r == ttype(self.tv()),
    {
        match self {
            Transformer::Stopped(t) => t.transformer_type(),
            Transformer::Direct(t) => t.transformer_type(),
            Transformer::Hiragana(t) => t.transformer_type(),
            Transformer::Katakana(t) => t.transformer_type(),
            Transformer::Henkan(t) => t.transformer_type(),
            Transformer::Yomi(t) => t.transformer_type(),
            Transformer::SelectCandidate(t) => t.transformer_type(),
            Transformer::UnknownWord(t) => t.transformer_type(),
            Transformer::Continuous(t) => t.transformer_type(),
            Transformer::Abbr(t) => t.transformer_type(),
        }
    }

    /// The context of the transformer.
    pub fn context(&self) -> (r: &Context)
        ensures
            r@ == ctx_of(self.tv()),
    {
        match self {
            Transformer::Stopped(t) => t.context(),
            Transformer::Direct(t) => t.context(),
            Transformer::Hiragana(t) => t.context(),
            Transformer::Katakana(t) => t.context(),
            Transformer::Henkan(t) => t.context(),
            Transformer::Yomi(t) => t.context(),
            Transformer::SelectCandidate(t) => t.context(),
            Transformer::UnknownWord(t) => t.context(),
            Transformer::Continuous(t) => t.context(),
            Transformer::Abbr(t) => t.context(),
        }
    }

    /// Replaces the context of the transformer.
    pub fn set_context(&mut self, context: Context)
        ensures
            final(self).tv() == with_ctx(old(self).tv(), context@),
    {
        match self {
            Transformer::Stopped(t) => t.set_context(context),
            Transformer::Direct(t) => t.set_context(context),
            Transformer::Hiragana(t) => t.set_context(context),
            Transformer::Katakana(t) => t.set_context(context),
            Transformer::Henkan(t) => t.set_context(context),
            Transformer::Yomi(t) => t.set_context(context),
            Transformer::SelectCandidate(t) => t.set_context(context),
            Transformer::UnknownWord(t) => t.set_context(context),
            Transformer::Continuous(t) => t.set_context(context),
            Transformer::Abbr(t) => t.set_context(context),
        }
    }

    /// The text that the transformer holds.
    pub fn buffer_content(&self) -> (r: String)
        ensures
            r@ == buffer_of(self.tv()),
        decreases rank(self.tv()), 1nat,
    {
        match self {
            Transformer::Stopped(t) => t.buffer_content(),
            Transformer::Direct(t) => t.buffer_content(),
            Transformer::Hiragana(t) => t.buffer_content(),
            Transformer::Katakana(t) => t.buffer_content(),
            Transformer::Henkan(t) => t.buffer_content(),
            Transformer::Yomi(t) => t.buffer_content(),
            Transformer::SelectCandidate(t) => t.buffer_content(),
            Transformer::UnknownWord(t) => t.buffer_content(),
            Transformer::Continuous(t) => t.buffer_content(),
            Transformer::Abbr(t) => t.buffer_content(),
        }
    }

    /// What the transformer shows.
    pub fn display_string(&self) -> (r: String)
        ensures
            r@ == display_of(self.tv()),
        decreases rank(self.tv()), 1nat,
    {
        match self {
            Transformer::Stopped(t) => t.display_string(),
            Transformer::Direct(t) => t.display_string(),
            Transformer::Hiragana(t) => t.display_string(),
            Transformer::Katakana(t) => t.display_string(),
            Transformer::Henkan(t) => t.display_string(),
            Transformer::Yomi(t) => t.display_string(),
            Transformer::SelectCandidate(t) => t.display_string(),
            Transformer::UnknownWord(t) => t.display_string(),
            Transformer::Continuous(t) => t.display_string(),
            Transformer::Abbr(t) => t.display_string(),
        }
    }

    /// The type of the child of a continuous input (of the last element
    /// of a registration); the transformer's own type otherwise.
    pub fn child_transformer_type(&self) -> (r: TransformerTypes)
        requires
            has_child_type(self.tv()),
        ensures
            r == child_type(self.tv()),
        decreases rank(self.tv()), 1nat,
    {
        match self {
            Transformer::Continuous(t) => t.child_transformer_type(),
            Transformer::UnknownWord(t) => t.child_transformer_type(),
            _ => {
                proof {
                    self.lemma_not_continuous();
                }
                self.transformer_type()
            },
        }
    }

    proof fn lemma_not_continuous(&self)
        ensures
            (self is Continuous) == (self.tv() is Continuous),
            (self is UnknownWord) == (self.tv() is UnknownWord),
    {
        match self {
            Transformer::Stopped(t) => t.lemma_variant(),
            Transformer::Direct(t) => t.lemma_variant(),
            Transformer::Hiragana(t) => t.lemma_variant(),
            Transformer::Katakana(t) => t.lemma_variant(),
            Transformer::Henkan(t) => t.lemma_variant(),
            Transformer::Yomi(t) => t.lemma_variant(),
            Transformer::SelectCandidate(t) => t.lemma_variant(),
            Transformer::UnknownWord(t) => t.lemma_variant(),
            Transformer::Abbr(t) => t.lemma_variant(),
            Transformer::Continuous(t) => t.lemma_variant(),
        }
    }

    /// The mode that the held keys switch to, if any.
    pub fn try_change_transformer(&self, keyboard: &US, _key: &KeyCode) -> (r: Option<Transformer>)
        ensures
            opt_tv(r) == change_tf(self.tv(), keyboard.pressing_set()),
        decreases rank(self.tv()), 1nat,
    {
        match self {
            Transformer::Direct(t) => t.try_change_transformer(keyboard),
            Transformer::Hiragana(t) => t.try_change_transformer(keyboard),
            Transformer::Katakana(t) => t.try_change_transformer(keyboard),
            Transformer::Continuous(t) => t.try_change_transformer(keyboard),
            _ => {
                proof {
                    self.lemma_not_text();
                    self.lemma_not_continuous();
                }
                None
            },
        }
    }
}

/// The name of a type, as `Debug` writes it.
pub fn type_label_exec(ty: TransformerTypes) -> (r: &'static str)
    ensures
        r@ == type_label(ty),
{
    match ty {
        TransformerTypes::Direct => "Direct",
        TransformerTypes::Hiragana => "Hiragana",
        TransformerTypes::Katakana => "Katakana",
        TransformerTypes::Henkan => "Henkan",
        TransformerTypes::Okuri => "Okuri",
        TransformerTypes::Abbr => "Abbr",
        TransformerTypes::EmEisu => "EmEisu",
        TransformerTypes::EnKatakana => "EnKatakana",
        TransformerTypes::Yomi => "Yomi",
        TransformerTypes::Stopped(StoppedReason::Compleated) => "Stopped(Compleated)",
        TransformerTypes::Stopped(StoppedReason::Canceled) => "Stopped(Canceled)",
        TransformerTypes::SelectCandidate => "SelectCandidate",
        TransformerTypes::UnknownWord => "UnknownWord",
        TransformerTypes::Continuous => "Continuous",
        TransformerTypes::Letter(LetterType::Direct) => "Letter(Direct)",
        TransformerTypes::Letter(LetterType::Hiragana) => "Letter(Hiragana)",
        TransformerTypes::Letter(LetterType::Katakana) => "Letter(Katakana)",
        TransformerTypes::Letter(LetterType::EnKatakana) => "Letter(EnKatakana)",
        TransformerTypes::Letter(LetterType::EmEisu) => "Letter(EmEisu)",
    }
}

/// `depth` tabs.
fn tabs_exec(depth: usize) -> (r: String)
    ensures
        r@ == tabs(depth as nat),
{
    let mut out = String::new();
    let mut i: usize = 0;
    while i < depth
        invariant
            i <= depth,
            out@ == tabs(i as nat),
        decreases depth - i,
    {
        push_char(&mut out, '\t');
        assert(tabs((i + 1) as nat) =~= tabs(i as nat).push('\t'));
        i = i + 1;
    }
    out
}

impl Transformer {
    /// The transformers that this one holds, in order.
    pub fn stack(&self) -> (r: Vec<Transformer>)
        ensures
            tvs(r@) == children(self.tv()),
    {
        match self {
            Transformer::Henkan(t) => t.stack(),
            Transformer::UnknownWord(t) => t.stack(),
            Transformer::Abbr(t) => t.stack(),
            Transformer::Continuous(t) => t.stack(),
            _ => {
                proof {
                    self.lemma_leaf();
                }
                none()
            },
        }
    }

    proof fn lemma_leaf(&self)
        requires
            !(self is Henkan || self is UnknownWord || self is Abbr || self is Continuous),
        ensures
            children(self.tv()) == Seq::<TfView>::empty(),
            !is_stackable(self.tv()),
            send_target_spec(self.tv()) == self.tv(),
            replace_last_tf(self.tv(), Seq::<TfView>::empty()) == seq![self.tv()],
    {
        match self {
            Transformer::Stopped(t) => t.lemma_variant(),
            Transformer::Direct(t) => t.lemma_variant(),
            Transformer::Hiragana(t) => t.lemma_variant(),
            Transformer::Katakana(t) => t.lemma_variant(),
            Transformer::Yomi(t) => t.lemma_variant(),
            Transformer::SelectCandidate(t) => t.lemma_variant(),
            _ => {},
        }
    }

    /// This transformer with one more element on its stack.
    pub fn push(&self, item: Transformer) -> (r: Transformer)
        requires
            is_stackable(self.tv()),
        ensures
            r.tv() == push_tf(self.tv(), item.tv()),
    {
        match self {
            Transformer::Henkan(t) => Transformer::Henkan(t.push(item)),
            Transformer::UnknownWord(t) => Transformer::UnknownWord(t.push(item)),
            Transformer::Abbr(t) => Transformer::Abbr(t.push(item)),
            Transformer::Continuous(t) => {
                proof {
                    t.lemma_variant();
                }
                vstd::pervasive::unreached()
            },
            _ => {
                proof {
                    self.lemma_leaf();
                }
                vstd::pervasive::unreached()
            },
        }
    }

    /// Takes the last element off the stack (for a reading or a kana
    /// input, the last piece).
    #[verifier::spinoff_prover]
    pub fn pop(&self) -> (r: (Transformer, Option<Transformer>))
        requires
            self.tv() is Henkan || self.tv() is UnknownWord || self.tv() is Abbr || self.tv() is Yomi
                || self.tv() is Hiragana || self.tv() is Katakana,
        ensures
            r.0.tv() == pop_tf(self.tv()).0,
            opt_tv(r.1) == pop_tf(self.tv()).1,
    {
        match self {
            Transformer::Henkan(t) => t.pop(),
            Transformer::UnknownWord(t) => t.pop(),
            Transformer::Abbr(t) => t.pop(),
            Transformer::Yomi(t) => {
                proof {
                    t.lemma_variant();
                }
                (t.pop(), None)
            },
            Transformer::Hiragana(t) => {
                proof {
                    t.lemma_variant();
                }
                (t.pop(), None)
            },
            Transformer::Katakana(t) => {
                proof {
                    t.lemma_variant();
                }
                (t.pop(), None)
            },
            Transformer::Stopped(t) => {
                proof {
                    t.lemma_variant();
                }
                vstd::pervasive::unreached()
            },
            Transformer::Direct(t) => {
                proof {
                    t.lemma_variant();
                }
                vstd::pervasive::unreached()
            },
            Transformer::SelectCandidate(t) => {
                proof {
                    t.lemma_variant();
                }
                vstd::pervasive::unreached()
            },
            Transformer::Continuous(t) => {
                proof {
                    t.lemma_variant();
                }
                vstd::pervasive::unreached()
            },
        }
    }

    /// This transformer with its last element replaced by some
    /// transformers; a transformer that holds none stays as it is.
    pub fn replace_last_element(&self, items: Vec<Transformer>) -> (r: Vec<Transformer>)
        requires
            !(self.tv() is Yomi),
        ensures
            tvs(r@) == replace_last_tf(self.tv(), tvs(items@)),
    {
        match self {
            Transformer::Henkan(t) => t.replace_last_element(items),
            Transformer::UnknownWord(t) => t.replace_last_element(items),
            Transformer::Abbr(t) => t.replace_last_element(items),
            Transformer::Continuous(t) => t.replace_last_element(items),
            Transformer::Yomi(t) => {
                proof {
                    t.lemma_variant();
                }
                vstd::pervasive::unreached()
            },
            _ => {
                proof {
                    self.lemma_leaf();
                    match self {
                        Transformer::Stopped(t) => t.lemma_variant(),
                        Transformer::Direct(t) => t.lemma_variant(),
                        Transformer::Hiragana(t) => t.lemma_variant(),
                        Transformer::Katakana(t) => t.lemma_variant(),
                        Transformer::SelectCandidate(t) => t.lemma_variant(),
                        _ => {},
                    }
                }
                single(self.clone())
            },
        }
    }

    /// Whether every transformer this one holds is finished.
    pub fn is_all_stopped(&self) -> (r: bool)
        ensures
            r == forall|i: int| 0 <= i < children(self.tv()).len() ==> is_stopped(#[trigger] children(self.tv())[i]),
    {
        let kids = self.stack();
        proof {
            lemma_tvs(kids@);
        }
        let mut i: usize = 0;
        while i < kids.len()
            invariant
                i <= kids@.len(),
                tvs(kids@) == children(self.tv()),
                tvs(kids@).len() == kids@.len(),
                forall|j: int| 0 <= j < kids@.len() ==> #[trigger] tvs(kids@)[j] == kids@[j].tv(),
                forall|j: int| 0 <= j < i ==> is_stopped(#[trigger] children(self.tv())[j]),
            decreases kids@.len() - i,
        {
            if !kids[i].is_stopped() {
                assert(!is_stopped(children(self.tv())[i as int]));
                return false;
            }
            i = i + 1;
        }
        true
    }

    /// The transformer that inputs go to.
    #[verifier::spinoff_prover]
    pub fn send_target(&self) -> (r: Transformer)
        ensures
            r.tv() == send_target_spec(self.tv()),
    {
        match self {
            Transformer::Henkan(t) => {
                let kids = t.stack();
                proof {
                    t.lemma_variant();
                    lemma_tvs(kids@);
                }
                if kids.len() > 0 {
                    take_last(kids)
                } else {
                    self.to_completed()
                }
            },
            Transformer::Abbr(t) => {
                let kids = t.stack();
                proof {
                    t.lemma_variant();
                    lemma_tvs(kids@);
                }
                if kids.len() > 0 {
                    take_last(kids)
                } else {
                    self.to_completed()
                }
            },
            Transformer::UnknownWord(t) => {
                let kids = t.stack();
                proof {
                    t.lemma_variant();
                    lemma_tvs(kids@);
                }
                if kids.len() > 0 {
                    take_last(kids)
                } else {
                    Transformer::Continuous(ContinuousTransformer::new(self.clone_context(), TransformerTypes::Hiragana))
                }
            },
            Transformer::Continuous(t) => {
                let kids = t.stack();
                proof {
                    t.lemma_variant();
                    lemma_tvs(kids@);
                }
                take_last(kids)
            },
            _ => {
                proof {
                    self.lemma_leaf();
                }
                self.clone()
            },
        }
    }

    /// The transformer itself, as a transformer of any kind.
    pub fn as_trait(&self) -> (r: Transformer)
        ensures
            r.tv() == self.tv(),
    {
        self.clone()
    }

    /// The transformer and all it holds, one per line, indented by depth.
    pub fn print_stack(&self, depth: usize) -> (r: String)
        requires
            depth + rank(self.tv()) <= usize::MAX,
        ensures
            r@ == stack_text(self.tv(), depth as nat),
        decreases rank(self.tv()),
    {
        let kids = self.stack();
        proof {
            lemma_tvs(kids@);
            lemma_children_rank(self.tv());
        }
        let head = tabs_exec(depth);
        let head = concat(&head, string_of_char('[').as_str());
        let head = concat(&head, type_label_exec(self.transformer_type()));
        let head = concat(&head, ": ");
        proof {
            reveal_strlit(": ");
            assert(": "@ =~= seq![':', ' ']);
        }
        let text = self.buffer_content();
        if kids.len() == 0 {
            let shown = if text.unicode_len() == 0 { "(empty)".to_owned() } else { text };
            let out = concat(&head, shown.as_str());
            return concat(&out, string_of_char(']').as_str());
        }
        let mut out = concat(&head, text.as_str());
        out = concat(&out, string_of_char('\n').as_str());
        let ghost prefix = out@;
        let mut i: usize = 0;
        while i < kids.len()
            invariant
                i <= kids@.len(),
                kids@.len() > 0,
                tvs(kids@) == children(self.tv()),
                tvs(kids@).len() == kids@.len(),
                forall|j: int| 0 <= j < kids@.len() ==> #[trigger] tvs(kids@)[j] == kids@[j].tv(),
                ranks(children(self.tv())) < rank(self.tv()),
                depth + rank(self.tv()) <= usize::MAX,
                out@ == prefix + stacks_text(tvs(kids@).subrange(0, i as int), (depth + 1) as nat),
            decreases kids@.len() - i,
        {
            proof {
                lemma_ranks_element(tvs(kids@), i as int);
                let sub = tvs(kids@).subrange(0, i + 1);
                assert(sub.subrange(0, sub.len() - 1) =~= tvs(kids@).subrange(0, i as int));
                assert(sub[sub.len() - 1] == kids@[i as int].tv());
            }
            let piece = kids[i].print_stack(depth + 1);
            out = concat(&out, piece.as_str());
            out = concat(&out, string_of_char('\n').as_str());
            i = i + 1;
        }
        assert(tvs(kids@).subrange(0, kids@.len() as int) =~= tvs(kids@));
        out = concat(&out, tabs_exec(depth).as_str());
        concat(&out, string_of_char(']').as_str())
    }
}

impl Clone for Transformer {
    fn clone(&self) -> (r: Self)
        ensures
            r.tv() == self.tv(),
    {
        self.duplicate()
    }
}

impl View for Transformer {
    type V = TfView;

    open spec fn view(&self) -> TfView {
        self.tv()
    }
}

} // verus!
