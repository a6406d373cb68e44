//! Katakana input: romaji typed are turned into katakana.
use vstd::prelude::*;
use super::{Transformer, TransformerTypes, Op, opt_tvs, opt_tv, change_to_exec, StoppedTransformer};
use super::hiragana::kana_input_step;
use super::steps::{TfView, step, ttype, ctx_of, with_ctx, buffer_of, display_of, leaf_make, change_tf,
    katakana_allow};
use super::tables::{BufferPairs, LetterType};
use crate::context::Context;
use crate::keyboards::Keyboard;
use crate::keyboards::us::US;

verus! {

#[derive(Debug)]
pub struct KatakanaTransformer {
    context: Context,
    buffer: BufferPairs,
}

impl Clone for KatakanaTransformer {
    fn clone(&self) -> (r: Self)
        ensures
            r.tv() == self.tv(),
    {
        proof {
            use_type_invariant(self);
        }
        KatakanaTransformer { context: self.context.clone(), buffer: self.buffer.clone() }
    }
}

impl KatakanaTransformer {
    #[verifier::type_invariant]
    spec fn inv(&self) -> bool {
        self.buffer.kind() == LetterType::Katakana
    }

    pub closed spec fn tv(&self) -> TfView {
        TfView::Katakana { ctx: self.context@, buf: self.buffer@ }
    }

    pub proof fn lemma_variant(&self)
        ensures
            self.tv() is Katakana,
    {
    }

    pub fn new(context: Context) -> (r: Self)
        ensures
            r.tv() == leaf_make(context@, TransformerTypes::Katakana),
    {
        KatakanaTransformer { context, buffer: BufferPairs::new(LetterType::Katakana) }
    }

    pub(crate) fn with_buffer(context: Context, buffer: BufferPairs) -> (r: Self)
        requires
            buffer.kind() == LetterType::Katakana,
        ensures
            r.tv() == (TfView::Katakana { ctx: context@, buf: buffer@ }),
    {
        KatakanaTransformer { context, buffer }
    }

    fn allow_transformers() -> (r: Vec<TransformerTypes>)
        ensures
            r@ == katakana_allow(),
    {
        let r = vec![
            TransformerTypes::Direct,
            TransformerTypes::Hiragana,
            TransformerTypes::EnKatakana,
            TransformerTypes::EmEisu,
        ];
        assert(r@ =~= katakana_allow());
        r
    }

    /// Switches to another mode when its keys are held.
    pub fn try_change_transformer(&self, keyboard: &US) -> (r: Option<Transformer>)
        ensures
            opt_tv(r) == change_tf(self.tv(), keyboard.pressing_set()),
    {
        change_to_exec(&self.context, &Self::allow_transformers(), keyboard)
    }

    pub fn step(&self, op: Op) -> (r: Option<Vec<Transformer>>)
        ensures
            opt_tvs(r) == step(self.tv(), op),
    {
        proof {
            use_type_invariant(self);
        }
        kana_input_step(&self.context, TransformerTypes::Katakana, &self.buffer, op)
    }

    /// Deletes the last piece; with nothing to delete, cancels.
    pub fn pop(&self) -> (r: Transformer)
        ensures
            match self.tv() {
                TfView::Katakana { ctx, buf } => if buf.len() == 0 {
                    r.tv() == (TfView::Stopped { ctx, reason: super::StoppedReason::Canceled })
                } else {
                    r.tv() == (TfView::Katakana {
                        ctx,
                        buf: super::tables::buffer_pairs::remove_last_spec(buf, LetterType::Katakana).1,
                    })
                },
                _ => false,
            },
    {
        proof {
            use_type_invariant(self);
        }
        if self.buffer.is_empty() {
            Transformer::Stopped(StoppedTransformer::canceled(self.context.clone()))
        } else {
            let mut b = self.buffer.clone();
            b.remove_last();
            Transformer::Katakana(KatakanaTransformer { context: self.context.clone(), buffer: b })
        }
    }

    pub fn transformer_type(&self) -> (r: TransformerTypes)
        ensures
            r == ttype(self.tv()),
    {
        TransformerTypes::Katakana
    }

    pub fn context(&self) -> (r: &Context)
        ensures
            r@ == ctx_of(self.tv()),
    {
        &self.context
    }

    pub fn set_context(&mut self, context: Context)
        ensures
            final(self).tv() == with_ctx(old(self).tv(), context@),
    {
        proof {
            use_type_invariant(&*self);
        }
        self.context = context;
    }

    pub fn buffer_content(&self) -> (r: String)
        ensures
            r@ == buffer_of(self.tv()),
    {
        self.buffer.to_string()
    }

    pub fn display_string(&self) -> (r: String)
        ensures
            r@ == display_of(self.tv()),
    {
        self.buffer.to_string()
    }
}

} // verus!
