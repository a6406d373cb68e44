//! Abbreviations: text typed as it is, then looked up on space.
use vstd::prelude::*;
use super::{Transformer, TransformerTypes, Op, opt_tvs, opt_tv, tvs, lemma_tvs, lemma_tvs_drop_last, single, none,
    replace_last, clone_stack, compose_exec, ContinuousTransformer, StoppedTransformer, Word};
use super::steps::{replace_last_tf, TfView, step, ttype, ctx_of, with_ctx, buffer_of, display_of, rank, ranks,
    lemma_ranks_element, abbr_new, abbr_replace, abbr_compose, children, push_tf, pop_tf};
use crate::context::Context;
use crate::text::{concat, string_of_char};

verus! {

#[derive(Debug)]
pub struct AbbrTransformer {
    context: Context,
    stack: Vec<Transformer>,
}

impl AbbrTransformer {
    pub closed spec fn tv(&self) -> TfView
        decreases self,
    {
        TfView::Abbr { ctx: self.context@, stack: tvs(self.stack@) }
    }

    pub proof fn lemma_variant(&self)
        ensures
            self.tv() is Abbr,
    {
    }

    /// An abbreviation typed in a continuous direct input.
    pub fn new(context: Context) -> (r: Self)
        ensures
            r.tv() == abbr_new(context@),
    {
        let input = ContinuousTransformer::new_text(context.clone(), TransformerTypes::Direct);
        AbbrTransformer { context, stack: single(Transformer::Continuous(input)) }
    }

    pub fn replace_last_element(&self, items: Vec<Transformer>) -> (r: Vec<Transformer>)
        ensures
            tvs(r@) == replace_last_tf(self.tv(), tvs(items@)),
    {
        let s = replace_last(clone_stack(&self.stack), items);
        proof {
            lemma_tvs(s@);
        }
        if s.len() == 0 {
            none()
        } else {
            single(Transformer::Abbr(AbbrTransformer { context: self.context.clone(), stack: s }))
        }
    }

    /// The elements of the stack, in order.
    pub fn stack(&self) -> (r: Vec<Transformer>)
        ensures
            tvs(r@) == children(self.tv()),
    {
        clone_stack(&self.stack)
    }

    /// This transformer with one more element on its stack.
    pub fn push(&self, item: Transformer) -> (r: Self)
        ensures
            r.tv() == push_tf(self.tv(), item.tv()),
    {
        let ghost added = item.tv();
        let mut s = clone_stack(&self.stack);
        let ghost before = s@;
        s.push(item);
        proof {
            lemma_tvs(s@);
            lemma_tvs(before);
            assert(tvs(s@) =~= tvs(before).push(added));
        }
        AbbrTransformer { context: self.context.clone(), stack: s }
    }

    /// Takes the last element off the stack.
    pub fn pop(&self) -> (r: (Transformer, Option<Transformer>))
        ensures
            r.0.tv() == pop_tf(self.tv()).0,
            opt_tv(r.1) == pop_tf(self.tv()).1,
    {
        let mut s = clone_stack(&self.stack);
        proof {
            lemma_tvs(s@);
        }
        let ghost before = s@;
        let item = s.pop();
        proof {
            if before.len() > 0 {
                lemma_tvs_drop_last(before);
            }
            lemma_tvs(s@);
        }
        if s.len() == 0 {
            (Transformer::Stopped(StoppedTransformer::canceled(self.context.clone())), item)
        } else {
            (Transformer::Abbr(AbbrTransformer { context: self.context.clone(), stack: s }), item)
        }
    }

    pub fn duplicate(&self) -> (r: Self)
        ensures
            r.tv() == self.tv(),
        decreases rank(self.tv()), 0nat,
    {
        AbbrTransformer { context: self.context.clone(), stack: clone_stack(&self.stack) }
    }

    pub fn step(&self, op: Op) -> (r: Option<Vec<Transformer>>)
        ensures
            opt_tvs(r) == step(self.tv(), op),
        decreases rank(self.tv()), 1nat,
    {
        let n: usize = self.stack.len();
        proof {
            lemma_tvs(self.stack@);
        }
        if n == 0 {
            return match op {
                Op::Space => Some(none()),
                _ => None,
            };
        }
        proof {
            lemma_ranks_element(tvs(self.stack@), n - 1);
        }
        let last = &self.stack[n - 1];
        match op {
            Op::Tab | Op::Arrow => None,
            Op::Char(_) => match last.step(op) {
                Some(items) => Some(self.replace_last_element(items)),
                None => None,
            },
            Op::Escape => match last.step(op) {
                Some(items) => Some(self.replace_last_element(items)),
                None => {
                    if n == 1 && last.transformer_type() == TransformerTypes::Continuous {
                        Some(none())
                    } else {
                        None
                    }
                },
            },
            Op::Enter => match last.step(op) {
                Some(items) => {
                    proof {
                        lemma_tvs(items@);
                    }
                    if items.len() == 0 {
                        Some(none())
                    } else if items.len() == 1 && items[0].is_stopped() {
                        Some(items)
                    } else {
                        Some(self.replace_last_element(items))
                    }
                },
                None => None,
            },
            Op::Space => {
                if n == 1 && last.transformer_type() == TransformerTypes::Continuous {
                    let text = last.buffer_content();
                    if text.unicode_len() == 0 {
                        Some(none())
                    } else {
                        let looked_up = compose_exec(self.context.clone(), Word::new_abbr(text.as_str()));
                        let mut s = clone_stack(&self.stack);
                        let ghost before = s@;
                        proof {
                            lemma_tvs(before);
                        }
                        s.push(looked_up);
                        proof {
                            lemma_tvs(s@);
                            assert(tvs(s@) =~= tvs(before).push(abbr_compose(self.context@, buffer_of(tvs(self.stack@)[n - 1]))));
                        }
                        Some(single(Transformer::Abbr(AbbrTransformer { context: self.context.clone(), stack: s })))
                    }
                } else {
                    match last.step(op) {
                        Some(items) => Some(self.replace_last_element(items)),
                        None => None,
                    }
                }
            },
            Op::Backspace | Op::Delete => {
                if n == 1 && last.buffer_content().unicode_len() == 0 {
                    Some(none())
                } else {
                    match last.step(Op::Delete) {
                        Some(items) => {
                            let r = self.replace_last_element(items);
                            proof {
                                lemma_tvs(r@);
                            }
                            if r.len() > 0 {
                                Some(r)
                            } else {
                                Some(single(Transformer::Abbr(AbbrTransformer::new(self.context.clone()))))
                            }
                        },
                        None => None,
                    }
                }
            },
            Op::Any(_) => match last.step(op) {
                Some(items) => {
                    proof {
                        lemma_tvs(items@);
                    }
                    if items.len() == 0 {
                        Some(none())
                    } else if items[items.len() - 1].is_stopped() {
                        let mut items = items;
                        Some(single(items.pop().unwrap()))
                    } else {
                        Some(self.replace_last_element(items))
                    }
                },
                None => None,
            },
        }
    }

    pub fn transformer_type(&self) -> (r: TransformerTypes)
        ensures
            r == ttype(self.tv()),
    {
        TransformerTypes::Abbr
    }

    pub fn context(&self) -> (r: &Context)
        ensures
            r@ == ctx_of(self.tv()),
    {
        &self.context
    }

    pub fn set_context(&mut self, context: Context)
        ensures
            final(self).tv() == with_ctx(old(self).tv(), context@),
    {
        self.context = context;
    }

    /// The text of the last element.
    pub fn buffer_content(&self) -> (r: String)
        ensures
            r@ == buffer_of(self.tv()),
        decreases rank(self.tv()), 0nat,
    {
        let n: usize = self.stack.len();
        proof {
            lemma_tvs(self.stack@);
        }
        if n == 0 {
            return String::new();
        }
        proof {
            lemma_ranks_element(tvs(self.stack@), n - 1);
        }
        self.stack[n - 1].buffer_content()
    }

    /// While the abbreviation is typed, its text after a `▽`; afterwards
    /// what the last element shows.
    pub fn display_string(&self) -> (r: String)
        ensures
            r@ == display_of(self.tv()),
        decreases rank(self.tv()), 0nat,
    {
        let n: usize = self.stack.len();
        proof {
            lemma_tvs(self.stack@);
        }
        if n == 0 {
            return String::new();
        }
        proof {
            lemma_ranks_element(tvs(self.stack@), n - 1);
        }
        if n == 1 && self.stack[0].transformer_type() == TransformerTypes::Continuous {
            let mark = string_of_char('▽');
            concat(&mark, self.stack[0].display_string().as_str())
        } else {
            self.stack[n - 1].display_string()
        }
    }
}

} // verus!
