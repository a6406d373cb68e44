//! The reading of a conversion, typed until it is looked up.
use vstd::prelude::*;
use super::{Transformer, TransformerTypes, Op, opt_tvs, single, pair, none, compose_exec, StoppedTransformer, Word};
use super::steps::{TfView, step, ttype, ctx_of, with_ctx, buffer_of, display_of, yomi_new, yomi_pop, compose,
    hira2kata_spec, kata2hira_spec, hira_to_kata, kata_to_hira};
use super::tables::LetterType;
use crate::context::{Context, ctx_new_empty};
use crate::text::{chars_of, char_from_u32, concat, push_char, string_of_char};

verus! {

/// Hiragana in a text turned into katakana.
pub fn hira2kata(s: &str) -> (r: String)
    ensures
        r@ == hira2kata_spec(s@),
{
    let chars = chars_of(s);
    let mut out = String::new();
    let mut i: usize = 0;
    while i < chars.len()
        invariant
            i <= chars@.len(),
            chars@ == s@,
            out@ == hira2kata_spec(chars@.subrange(0, i as int)),
        decreases chars@.len() - i,
    {
        let c = chars[i];
        let d = if '\u{3041}' <= c && c <= '\u{3096}' {
            match char_from_u32((c as u32) + 0x60) {
                Some(x) => x,
                None => c,
            }
        } else {
            c
        };
        assert(d == hira_to_kata(c));
        push_char(&mut out, d);
        assert(chars@.subrange(0, i + 1) =~= chars@.subrange(0, i as int).push(c));
        assert(hira2kata_spec(chars@.subrange(0, i + 1)) =~= hira2kata_spec(chars@.subrange(0, i as int)).push(d));
        i = i + 1;
    }
    assert(chars@.subrange(0, chars@.len() as int) =~= chars@);
    out
}

/// Katakana in a text turned into hiragana.
pub fn kata2hira(s: &str) -> (r: String)
    ensures
        r@ == kata2hira_spec(s@),
{
    let chars = chars_of(s);
    let mut out = String::new();
    let mut i: usize = 0;
    while i < chars.len()
        invariant
            i <= chars@.len(),
            chars@ == s@,
            out@ == kata2hira_spec(chars@.subrange(0, i as int)),
        decreases chars@.len() - i,
    {
        let c = chars[i];
        let d = if '\u{30a1}' <= c && c <= '\u{30f6}' {
            match char_from_u32((c as u32) - 0x60) {
                Some(x) => x,
                None => c,
            }
        } else {
            c
        };
        assert(d == kata_to_hira(c));
        push_char(&mut out, d);
        assert(chars@.subrange(0, i + 1) =~= chars@.subrange(0, i as int).push(c));
        assert(kata2hira_spec(chars@.subrange(0, i + 1)) =~= kata2hira_spec(chars@.subrange(0, i as int)).push(d));
        i = i + 1;
    }
    assert(chars@.subrange(0, chars@.len() as int) =~= chars@);
    out
}

#[derive(Debug)]
pub struct YomiTransformer {
    context: Context,
    current_transformer_type: TransformerTypes,
    word: Word,
}

impl Clone for YomiTransformer {
    fn clone(&self) -> (r: Self)
        ensures
            r.tv() == self.tv(),
    {
        YomiTransformer {
            context: self.context.clone(),
            current_transformer_type: self.current_transformer_type,
            word: self.word.clone(),
        }
    }
}

impl YomiTransformer {
    pub closed spec fn tv(&self) -> TfView {
        TfView::Yomi { ctx: self.context@, ty: self.current_transformer_type, word: self.word@ }
    }

    pub proof fn lemma_variant(&self)
        ensures
            self.tv() is Yomi,
    {
    }

    /// A reading in hiragana or in katakana.
    pub fn new(context: Context, transformer_type: TransformerTypes) -> (r: Self)
        requires
            transformer_type == TransformerTypes::Hiragana || transformer_type == TransformerTypes::Katakana,
        ensures
            r.tv() == yomi_new(context@, transformer_type),
    {
        let letter = if transformer_type == TransformerTypes::Katakana {
            LetterType::Katakana
        } else {
            LetterType::Hiragana
        };
        YomiTransformer { context, current_transformer_type: transformer_type, word: Word::new(letter) }
    }

    fn with_word(&self, word: Word) -> (r: Transformer)
        ensures
            r.tv() == (TfView::Yomi { ctx: self.context@, ty: self.current_transformer_type, word: word@ }),
    {
        Transformer::Yomi(YomiTransformer {
            context: self.context.clone(),
            current_transformer_type: self.current_transformer_type,
            word,
        })
    }

    fn compose(&self, word: &Word) -> (r: Transformer)
        ensures
            r.tv() == compose(ctx_new_empty(self.context@), word@),
    {
        compose_exec(self.context.new_empty(), word.clone())
    }

    fn finish(&self, text: &str) -> (r: Transformer)
        ensures
            r.tv() == (TfView::Stopped {
                ctx: crate::context::ctx_push(self.context@, text@),
                reason: super::StoppedReason::Compleated,
            }),
    {
        Transformer::Stopped(StoppedTransformer::completed(self.context.push_result_string(text)))
    }

    /// Deletes from the reading; with nothing left, cancels.
    pub fn pop(&self) -> (r: Transformer)
        ensures
            r.tv() == super::steps::pop_tf(self.tv()).0,
    {
        let mut w = self.word.clone();
        w.pop();
        if w.is_empty() {
            Transformer::Stopped(StoppedTransformer::canceled(self.context.clone()))
        } else {
            self.with_word(w)
        }
    }

    pub fn step(&self, op: Op) -> (r: Option<Vec<Transformer>>)
        ensures
            opt_tvs(r) == step(self.tv(), op),
    {
        match op {
            Op::Char(c) => {
                let mut w = self.word.clone();
                w.push(c);
                if w.is_stopped() {
                    let mut reading = w.clone();
                    reading.remove_okuri();
                    let looked_up = self.compose(&w);
                    Some(pair(self.with_word(reading), looked_up))
                } else {
                    Some(single(self.with_word(w)))
                }
            },
            Op::Escape => {
                if self.word.has_okuri() {
                    Some(single(self.pop()))
                } else {
                    Some(none())
                }
            },
            Op::Space => {
                let mut reading = self.word.clone();
                reading.remove_okuri();
                let looked_up = self.compose(&self.word);
                Some(pair(self.with_word(reading), looked_up))
            },
            Op::Enter => {
                let mut reading = self.word.clone();
                reading.remove_okuri();
                let text = reading.buffer_content();
                Some(single(self.finish(text.as_str())))
            },
            Op::Backspace | Op::Delete => {
                if self.word.is_empty() {
                    Some(none())
                } else {
                    let mut w = self.word.clone();
                    w.pop();
                    Some(single(self.with_word(w)))
                }
            },
            Op::Any(key) => match key.printable_key() {
                Some(ch) => {
                    if ch == 'q' {
                        let text = self.word.buffer_content();
                        if self.current_transformer_type == TransformerTypes::Hiragana {
                            Some(single(self.finish(hira2kata(text.as_str()).as_str())))
                        } else if self.current_transformer_type == TransformerTypes::Katakana {
                            Some(single(self.finish(kata2hira(text.as_str()).as_str())))
                        } else {
                            None
                        }
                    } else {
                        None
                    }
                },
                None => None,
            },
            _ => None,
        }
    }

    pub fn transformer_type(&self) -> (r: TransformerTypes)
        ensures
            r == ttype(self.tv()),
    {
        TransformerTypes::Yomi
    }

    pub fn context(&self) -> (r: &Context)
        ensures
            r@ == ctx_of(self.tv()),
    {
        &self.context
    }

    pub fn set_context(&mut self, context: Context)
        ensures
            final(self).tv() == with_ctx(old(self).tv(), context@),
    {
        self.context = context;
    }

    pub fn buffer_content(&self) -> (r: String)
        ensures
            r@ == buffer_of(self.tv()),
    {
        self.word.buffer_content()
    }

    /// The reading after a `▽`.
    pub fn display_string(&self) -> (r: String)
        ensures
            r@ == display_of(self.tv()),
    {
        let mark = string_of_char('▽');
        concat(&mark, self.word.display_string().as_str())
    }
}

} // verus!
