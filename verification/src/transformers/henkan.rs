//! A conversion: the reading, then what looking it up gave.
use vstd::prelude::*;
use super::{Transformer, TransformerTypes, Op, opt_tvs, opt_tv, tvs, lemma_tvs, lemma_tvs_drop_last, single, none, replace_last,
    clone_stack, leaf_make_exec, StoppedTransformer, YomiTransformer};
use super::steps::{replace_last_tf, TfView, step, ttype, ctx_of, with_ctx, buffer_of, display_of, rank, ranks,
    lemma_ranks_element, henkan_new, henkan_start, henkan_replace, henkan_after_stop, children, push_tf, pop_tf};
use crate::context::Context;
use crate::keyboards::KeyCode;

verus! {

#[derive(Debug)]
pub struct HenkanTransformer {
    context: Context,
    current_transformer_type: TransformerTypes,
    stack: Vec<Transformer>,
}

impl HenkanTransformer {
    pub closed spec fn tv(&self) -> TfView
        decreases self,
    {
        TfView::Henkan { ctx: self.context@, ty: self.current_transformer_type, stack: tvs(self.stack@) }
    }

    pub proof fn lemma_variant(&self)
        ensures
            self.tv() is Henkan,
    {
    }

    /// A conversion in hiragana or katakana, with an empty reading.
    pub fn new(context: Context, transformer_type: TransformerTypes) -> (r: Self)
        requires
            transformer_type == TransformerTypes::Hiragana || transformer_type == TransformerTypes::Katakana,
        ensures
            r.tv() == henkan_new(context@, transformer_type),
    {
        let yomi = YomiTransformer::new(context.new_empty(), transformer_type);
        HenkanTransformer {
            context,
            current_transformer_type: transformer_type,
            stack: single(Transformer::Yomi(yomi)),
        }
    }

    /// A conversion begun with its first character.
    pub(crate) fn start(context: Context, transformer_type: TransformerTypes, character: char) -> (r: Option<Vec<Transformer>>)
        requires
            transformer_type == TransformerTypes::Hiragana || transformer_type == TransformerTypes::Katakana,
        ensures
            opt_tvs(r) == henkan_start(context@, transformer_type, character),
    {
        let yomi = YomiTransformer::new(context.new_empty(), transformer_type);
        match yomi.step(Op::Char(character)) {
            Some(items) => Some(Self::replaced(context, transformer_type, single(Transformer::Yomi(yomi)), items)),
            None => None,
        }
    }

    fn replaced(context: Context, ty: TransformerTypes, stack: Vec<Transformer>, items: Vec<Transformer>) -> (r: Vec<Transformer>)
        ensures
            tvs(r@) == henkan_replace(context@, ty, tvs(stack@), tvs(items@)),
    {
        let s = replace_last(stack, items);
        proof {
            lemma_tvs(s@);
        }
        if s.len() == 0 {
            none()
        } else {
            single(Transformer::Henkan(HenkanTransformer { context, current_transformer_type: ty, stack: s }))
        }
    }

    pub fn replace_last_element(&self, items: Vec<Transformer>) -> (r: Vec<Transformer>)
        ensures
            tvs(r@) == replace_last_tf(self.tv(), tvs(items@)),
    {
        Self::replaced(self.context.clone(), self.current_transformer_type, clone_stack(&self.stack), items)
    }

    /// After a key finished the conversion: a fresh transformer of the mode
    /// types the key and goes on after the finished text.
    fn after_stop(&self, done: &Transformer, key: KeyCode) -> (r: Transformer)
        ensures
            r.tv() == henkan_after_stop(self.context@, self.current_transformer_type, done.tv(), key),
    {
        let base = leaf_make_exec(self.context.new_empty(), self.current_transformer_type);
        let tf = match key.printable_key() {
            Some(c) => match base.text_step(Op::Char(c)) {
                Some(items) => {
                    let mut items = items;
                    proof {
                        lemma_tvs(items@);
                    }
                    if items.len() > 0 {
                        items.pop().unwrap()
                    } else {
                        base
                    }
                },
                None => base,
            },
            None => base,
        };
        let text = match tf.context().result().stopped_buffer() {
            Some(b) => b,
            None => String::new(),
        };
        let next = done.context().push_result_string(text.as_str());
        let mut tf = tf;
        tf.set_context(next);
        tf
    }

    /// The elements of the stack, in order.
    pub fn stack(&self) -> (r: Vec<Transformer>)
        ensures
            tvs(r@) == children(self.tv()),
    {
        clone_stack(&self.stack)
    }

    /// This transformer with one more element on its stack.
    pub fn push(&self, item: Transformer) -> (r: Self)
        ensures
            r.tv() == push_tf(self.tv(), item.tv()),
    {
        let ghost added = item.tv();
        let mut s = clone_stack(&self.stack);
        let ghost before = s@;
        s.push(item);
        proof {
            lemma_tvs(s@);
            lemma_tvs(before);
            assert(tvs(s@) =~= tvs(before).push(added));
        }
        HenkanTransformer { context: self.context.clone(), current_transformer_type: self.current_transformer_type, stack: s }
    }

    /// Takes the last element off the stack.
    pub fn pop(&self) -> (r: (Transformer, Option<Transformer>))
        ensures
            r.0.tv() == pop_tf(self.tv()).0,
            opt_tv(r.1) == pop_tf(self.tv()).1,
    {
        let mut s = clone_stack(&self.stack);
        proof {
            lemma_tvs(s@);
        }
        let ghost before = s@;
        let item = s.pop();
        proof {
            if before.len() > 0 {
                lemma_tvs_drop_last(before);
            }
            lemma_tvs(s@);
        }
        if s.len() == 0 {
            (Transformer::Stopped(StoppedTransformer::canceled(self.context.clone())), item)
        } else {
            (Transformer::Henkan(HenkanTransformer {
                context: self.context.clone(),
                current_transformer_type: self.current_transformer_type,
                stack: s,
            }), item)
        }
    }

    pub fn duplicate(&self) -> (r: Self)
        ensures
            r.tv() == self.tv(),
        decreases rank(self.tv()), 0nat,
    {
        HenkanTransformer {
            context: self.context.clone(),
            current_transformer_type: self.current_transformer_type,
            stack: clone_stack(&self.stack),
        }
    }

    /// Each input goes to the last element.
    pub fn step(&self, op: Op) -> (r: Option<Vec<Transformer>>)
        ensures
            opt_tvs(r) == step(self.tv(), op),
        decreases rank(self.tv()), 1nat,
    {
        let n: usize = self.stack.len();
        if n == 0 {
            return None;
        }
        proof {
            lemma_tvs(self.stack@);
            lemma_ranks_element(tvs(self.stack@), n - 1);
        }
        let last = &self.stack[n - 1];
        match op {
            Op::Tab | Op::Arrow => None,
            Op::Enter => match last.step(op) {
                Some(items) => {
                    proof {
                        lemma_tvs(items@);
                    }
                    if items.len() == 0 {
                        Some(none())
                    } else if items.len() == 1 && items[0].is_stopped() {
                        Some(items)
                    } else {
                        Some(self.replace_last_element(items))
                    }
                },
                None => None,
            },
            Op::Any(key) => match last.step(op) {
                Some(items) => {
                    proof {
                        lemma_tvs(items@);
                    }
                    if items.len() == 0 {
                        Some(none())
                    } else if items.len() == 1 && items[0].is_stopped() {
                        Some(single(self.after_stop(&items[0], key)))
                    } else {
                        Some(self.replace_last_element(items))
                    }
                },
                None => None,
            },
            _ => match last.step(op) {
                Some(items) => Some(self.replace_last_element(items)),
                None => None,
            },
        }
    }

    pub fn transformer_type(&self) -> (r: TransformerTypes)
        ensures
            r == ttype(self.tv()),
    {
        TransformerTypes::Henkan
    }

    pub fn context(&self) -> (r: &Context)
        ensures
            r@ == ctx_of(self.tv()),
    {
        &self.context
    }

    pub fn set_context(&mut self, context: Context)
        ensures
            final(self).tv() == with_ctx(old(self).tv(), context@),
    {
        self.context = context;
    }

    /// The text of the last element.
    pub fn buffer_content(&self) -> (r: String)
        ensures
            r@ == buffer_of(self.tv()),
        decreases rank(self.tv()), 0nat,
    {
        let n: usize = self.stack.len();
        proof {
            lemma_tvs(self.stack@);
        }
        if n == 0 {
            return String::new();
        }
        proof {
            lemma_ranks_element(tvs(self.stack@), n - 1);
        }
        self.stack[n - 1].buffer_content()
    }

    /// What the last element shows.
    pub fn display_string(&self) -> (r: String)
        ensures
            r@ == display_of(self.tv()),
        decreases rank(self.tv()), 0nat,
    {
        let n: usize = self.stack.len();
        proof {
            lemma_tvs(self.stack@);
        }
        if n == 0 {
            return String::new();
        }
        proof {
            lemma_ranks_element(tvs(self.stack@), n - 1);
        }
        self.stack[n - 1].display_string()
    }
}

} // verus!
