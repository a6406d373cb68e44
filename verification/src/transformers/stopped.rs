//! A finished transformer: completed, or cancelled.
use vstd::prelude::*;
use super::{StoppedReason, Transformer, TransformerTypes, Op, opt_tvs};
use super::steps::{TfView, step, ttype, ctx_of, with_ctx, buffer_of, display_of};
use crate::context::Context;

verus! {

#[derive(Debug)]
pub struct StoppedTransformer {
    context: Context,
    reason: StoppedReason,
}

impl Clone for StoppedTransformer {
    fn clone(&self) -> (r: Self)
        ensures
            r.tv() == self.tv(),
    {
        StoppedTransformer { context: self.context.clone(), reason: self.reason }
    }
}

impl StoppedTransformer {
    pub closed spec fn tv(&self) -> TfView {
        TfView::Stopped { ctx: self.context@, reason: self.reason }
    }

    pub proof fn lemma_variant(&self)
        ensures
            self.tv() is Stopped,
    {
    }

    pub fn new(context: Context, reason: StoppedReason) -> (r: Self)
        ensures
            r.tv() == (TfView::Stopped { ctx: context@, reason }),
    {
        StoppedTransformer { context, reason }
    }

    pub fn completed(context: Context) -> (r: Self)
        ensures
            r.tv() == (TfView::Stopped { ctx: context@, reason: StoppedReason::Compleated }),
    {
        Self::new(context, StoppedReason::Compleated)
    }

    pub fn canceled(context: Context) -> (r: Self)
        ensures
            r.tv() == (TfView::Stopped { ctx: context@, reason: StoppedReason::Canceled }),
    {
        Self::new(context, StoppedReason::Canceled)
    }

    /// A finished transformer takes no input.
    pub fn step(&self, op: Op) -> (r: Option<Vec<Transformer>>)
        ensures
            opt_tvs(r) == step(self.tv(), op),
    {
        None
    }

    pub fn transformer_type(&self) -> (r: TransformerTypes)
        ensures
            r == ttype(self.tv()),
    {
        TransformerTypes::Stopped(self.reason)
    }

    pub fn context(&self) -> (r: &Context)
        ensures
            r@ == ctx_of(self.tv()),
    {
        &self.context
    }

    pub fn set_context(&mut self, context: Context)
        ensures
            final(self).tv() == with_ctx(old(self).tv(), context@),
    {
        self.context = context;
    }

    pub fn buffer_content(&self) -> (r: String)
        ensures
            r@ == buffer_of(self.tv()),
    {
        String::new()
    }

    pub fn display_string(&self) -> (r: String)
        ensures
            r@ == display_of(self.tv()),
    {
        String::new()
    }
}

} // verus!
