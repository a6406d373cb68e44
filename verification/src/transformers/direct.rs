//! Direct input: characters are taken as they are typed.
use vstd::prelude::*;
use super::{Transformer, TransformerTypes, Op, opt_tvs, opt_tv, single, type_char_tf, change_to_exec};
use super::steps::{TfView, step, ttype, ctx_of, with_ctx, buffer_of, display_of, leaf_make, change_tf, direct_allow};
use super::tables::{BufferPairs, LetterType};
use crate::context::Context;
use crate::keyboards::Keyboard;
use crate::keyboards::us::US;

verus! {

#[derive(Debug)]
pub struct DirectTransformer {
    context: Context,
    buffer: BufferPairs,
}

impl Clone for DirectTransformer {
    fn clone(&self) -> (r: Self)
        ensures
            r.tv() == self.tv(),
    {
        proof {
            use_type_invariant(self);
        }
        DirectTransformer { context: self.context.clone(), buffer: self.buffer.clone() }
    }
}

impl DirectTransformer {
    #[verifier::type_invariant]
    spec fn inv(&self) -> bool {
        self.buffer.kind() == LetterType::Direct
    }

    pub closed spec fn tv(&self) -> TfView {
        TfView::Direct { ctx: self.context@, buf: self.buffer@ }
    }

    pub proof fn lemma_variant(&self)
        ensures
            self.tv() is Direct,
    {
    }

    pub fn new(context: Context) -> (r: Self)
        ensures
            r.tv() == leaf_make(context@, TransformerTypes::Direct),
    {
        DirectTransformer { context, buffer: BufferPairs::new(LetterType::Direct) }
    }

    pub(crate) fn with_buffer(context: Context, buffer: BufferPairs) -> (r: Self)
        requires
            buffer.kind() == LetterType::Direct,
        ensures
            r.tv() == (TfView::Direct { ctx: context@, buf: buffer@ }),
    {
        DirectTransformer { context, buffer }
    }

    fn allow_transformers() -> (r: Vec<TransformerTypes>)
        ensures
            r@ == direct_allow(),
    {
        let r = vec![TransformerTypes::Hiragana];
        assert(r@ =~= direct_allow());
        r
    }

    /// Switches to hiragana when its keys are held.
    pub fn try_change_transformer(&self, keyboard: &US) -> (r: Option<Transformer>)
        ensures
            opt_tv(r) == change_tf(self.tv(), keyboard.pressing_set()),
    {
        change_to_exec(&self.context, &Self::allow_transformers(), keyboard)
    }

    /// Each character typed is finished at once.
    pub fn step(&self, op: Op) -> (r: Option<Vec<Transformer>>)
        ensures
            opt_tvs(r) == step(self.tv(), op),
    {
        proof {
            use_type_invariant(self);
        }
        match op {
            Op::Char(c) => Some(single(type_char_tf(&self.context, &self.buffer, c))),
            _ => None,
        }
    }

    pub fn transformer_type(&self) -> (r: TransformerTypes)
        ensures
            r == ttype(self.tv()),
    {
        TransformerTypes::Direct
    }

    pub fn context(&self) -> (r: &Context)
        ensures
            r@ == ctx_of(self.tv()),
    {
        &self.context
    }

    pub fn set_context(&mut self, context: Context)
        ensures
            final(self).tv() == with_ctx(old(self).tv(), context@),
    {
        proof {
            use_type_invariant(&*self);
        }
        self.context = context;
    }

    pub fn buffer_content(&self) -> (r: String)
        ensures
            r@ == buffer_of(self.tv()),
    {
        self.buffer.to_string()
    }

    pub fn display_string(&self) -> (r: String)
        ensures
            r@ == display_of(self.tv()),
    {
        self.buffer.to_string()
    }
}

} // verus!
