//! Hiragana input: romaji typed are turned into hiragana.
use vstd::prelude::*;
use super::{Transformer, TransformerTypes, Op, opt_tvs, opt_tv, single, none, type_char_tf, text_tf_exec,
    change_to_exec, AbbrTransformer, HenkanTransformer, StoppedTransformer};
use super::steps::{TfView, step, ttype, ctx_of, with_ctx, buffer_of, display_of, leaf_make, change_tf,
    hiragana_allow, kana_step, kana_letter};
use super::tables::{BufferPairs, LetterType};
use crate::context::Context;
use crate::keyboards::Keyboard;
use crate::keyboards::us::US;
use crate::text::{is_uppercase, lowercase_first};

verus! {

/// What an input does to hiragana or katakana input.
pub(crate) fn kana_input_step(ctx: &Context, ty: TransformerTypes, buffer: &BufferPairs, op: Op) -> (r: Option<Vec<Transformer>>)
    requires
        ty == TransformerTypes::Hiragana || ty == TransformerTypes::Katakana,
        buffer.kind() == kana_letter(ty),
    ensures
        opt_tvs(r) == kana_step(ctx@, ty, buffer@, op),
{
    match op {
        Op::Char(c) => {
            if c == '/' {
                let start = if ty == TransformerTypes::Katakana { ctx.new_empty() } else { ctx.clone() };
                Some(single(Transformer::Abbr(AbbrTransformer::new(start))))
            } else if is_uppercase(c) {
                let start = if ty == TransformerTypes::Katakana { ctx.new_empty() } else { ctx.clone() };
                HenkanTransformer::start(start, ty, lowercase_first(c))
            } else if ty == TransformerTypes::Katakana {
                let cleared = ctx.clear_stopped_buffer();
                Some(single(type_char_tf(&cleared, buffer, c)))
            } else {
                Some(single(type_char_tf(ctx, buffer, c)))
            }
        },
        Op::Escape => {
            if buffer.is_empty() {
                None
            } else {
                Some(none())
            }
        },
        Op::Backspace | Op::Delete => {
            if buffer.is_empty() {
                None
            } else {
                let mut b = buffer.clone();
                b.remove_last();
                if b.is_empty() {
                    if ty == TransformerTypes::Hiragana && ctx.result().stopped_buffer().is_some() {
                        Some(single(Transformer::Stopped(StoppedTransformer::completed(ctx.clone()))))
                    } else {
                        Some(none())
                    }
                } else if b.is_stopped() {
                    Some(single(Transformer::Stopped(StoppedTransformer::completed(ctx.clone()))))
                } else {
                    Some(single(text_tf_exec(ctx.clone(), b)))
                }
            }
        },
        _ => None,
    }
}

#[derive(Debug)]
pub struct HiraganaTransformer {
    context: Context,
    buffer: BufferPairs,
}

impl Clone for HiraganaTransformer {
    fn clone(&self) -> (r: Self)
        ensures
            r.tv() == self.tv(),
    {
        proof {
            use_type_invariant(self);
        }
        HiraganaTransformer { context: self.context.clone(), buffer: self.buffer.clone() }
    }
}

impl HiraganaTransformer {
    #[verifier::type_invariant]
    spec fn inv(&self) -> bool {
        self.buffer.kind() == LetterType::Hiragana
    }

    pub closed spec fn tv(&self) -> TfView {
        TfView::Hiragana { ctx: self.context@, buf: self.buffer@ }
    }

    pub proof fn lemma_variant(&self)
        ensures
            self.tv() is Hiragana,
    {
    }

    pub fn new(context: Context) -> (r: Self)
        ensures
            r.tv() == leaf_make(context@, TransformerTypes::Hiragana),
    {
        HiraganaTransformer { context, buffer: BufferPairs::new(LetterType::Hiragana) }
    }

    pub(crate) fn with_buffer(context: Context, buffer: BufferPairs) -> (r: Self)
        requires
            buffer.kind() == LetterType::Hiragana,
        ensures
            r.tv() == (TfView::Hiragana { ctx: context@, buf: buffer@ }),
    {
        HiraganaTransformer { context, buffer }
    }

    fn allow_transformers() -> (r: Vec<TransformerTypes>)
        ensures
            r@ == hiragana_allow(),
    {
        let r = vec![
            TransformerTypes::Direct,
            TransformerTypes::Katakana,
            TransformerTypes::EnKatakana,
            TransformerTypes::EmEisu,
        ];
        assert(r@ =~= hiragana_allow());
        r
    }

    /// Switches to another mode when its keys are held.
    pub fn try_change_transformer(&self, keyboard: &US) -> (r: Option<Transformer>)
        ensures
            opt_tv(r) == change_tf(self.tv(), keyboard.pressing_set()),
    {
        change_to_exec(&self.context, &Self::allow_transformers(), keyboard)
    }

    pub fn step(&self, op: Op) -> (r: Option<Vec<Transformer>>)
        ensures
            opt_tvs(r) == step(self.tv(), op),
    {
        proof {
            use_type_invariant(self);
        }
        kana_input_step(&self.context, TransformerTypes::Hiragana, &self.buffer, op)
    }

    /// Deletes the last piece; with nothing to delete, cancels.
    pub fn pop(&self) -> (r: Transformer)
        ensures
            match self.tv() {
                TfView::Hiragana { ctx, buf } => if buf.len() == 0 {
                    r.tv() == (TfView::Stopped { ctx, reason: super::StoppedReason::Canceled })
                } else {
                    r.tv() == (TfView::Hiragana {
                        ctx,
                        buf: super::tables::buffer_pairs::remove_last_spec(buf, LetterType::Hiragana).1,
                    })
                },
                _ => false,
            },
    {
        proof {
            use_type_invariant(self);
        }
        if self.buffer.is_empty() {
            Transformer::Stopped(StoppedTransformer::canceled(self.context.clone()))
        } else {
            let mut b = self.buffer.clone();
            b.remove_last();
            Transformer::Hiragana(HiraganaTransformer { context: self.context.clone(), buffer: b })
        }
    }

    pub fn transformer_type(&self) -> (r: TransformerTypes)
        ensures
            r == ttype(self.tv()),
    {
        TransformerTypes::Hiragana
    }

    pub fn context(&self) -> (r: &Context)
        ensures
            r@ == ctx_of(self.tv()),
    {
        &self.context
    }

    pub fn set_context(&mut self, context: Context)
        ensures
            final(self).tv() == with_ctx(old(self).tv(), context@),
    {
        proof {
            use_type_invariant(&*self);
        }
        self.context = context;
    }

    pub fn buffer_content(&self) -> (r: String)
        ensures
            r@ == buffer_of(self.tv()),
    {
        self.buffer.to_string()
    }

    pub fn display_string(&self) -> (r: String)
        ensures
            r@ == display_of(self.tv()),
    {
        self.buffer.to_string()
    }
}

} // verus!
