//! Continuous input: text typed piece by piece, each finished piece kept,
//! until enter finishes the whole.
use vstd::prelude::*;
use super::{Transformer, TransformerTypes, Op, opt_tvs, opt_tv, tvs, lemma_tvs, single, none, leaf_make_exec,
    make_exec, StoppedTransformer};
use super::steps::{replace_last_tf, TfView, step, ttype, ctx_of, with_ctx, buffer_of, display_of, rank, continuous_new,
    text_continuous_new, continuous_replace, stopped_texts, change_tf, make, constructible, children, child_type};
use crate::context::{Context, ctx_new_empty, ctx_stopped};
use crate::keyboards::KeyCode;
use crate::keyboards::Keyboard;
use crate::keyboards::us::US;
use crate::text::{concat, pop_char};

verus! {

/// The finished texts of the contexts of some transformers, joined.
fn collect_stopped_buffer(items: &Vec<Transformer>) -> (r: String)
    ensures
        r@ == stopped_texts(tvs(items@)),
{
    let mut acc = String::new();
    let mut i: usize = 0;
    proof {
        lemma_tvs(items@);
    }
    while i < items.len()
        invariant
            i <= items@.len(),
            tvs(items@).len() == items@.len(),
            forall|j: int| 0 <= j < items@.len() ==> #[trigger] tvs(items@)[j] == items@[j].tv(),
            acc@ == stopped_texts(tvs(items@).subrange(0, i as int)),
        decreases items@.len() - i,
    {
        let ghost before = acc@;
        proof {
            let s = tvs(items@).subrange(0, i + 1);
            assert(s.drop_last() =~= tvs(items@).subrange(0, i as int));
            assert(s.last() == items@[i as int].tv());
        }
        acc = match items[i].context().result().stopped_buffer() {
            Some(b) => concat(&acc, b.as_str()),
            None => {
                assert(acc@ =~= acc@ + Seq::<char>::empty());
                acc
            },
        };
        assert(acc@ == before + ctx_stopped(ctx_of(items@[i as int].tv())));
        i = i + 1;
    }
    assert(tvs(items@).subrange(0, items@.len() as int) =~= tvs(items@));
    acc
}

#[derive(Debug)]
pub struct ContinuousTransformer {
    context: Context,
    current_transformer_type: TransformerTypes,
    child: Box<Transformer>,
    buffer: String,
}

impl ContinuousTransformer {
    pub closed spec fn tv(&self) -> TfView
        decreases self,
    {
        TfView::Continuous {
            ctx: self.context@,
            ty: self.current_transformer_type,
            child: Box::new((*self.child).tv()),
            buffer: self.buffer@,
        }
    }

    pub proof fn lemma_variant(&self)
        ensures
            self.tv() is Continuous,
    {
    }

    /// Continuous input whose child is a fresh transformer of a type that
    /// can be made.
    pub fn new(context: Context, transformer_type: TransformerTypes) -> (r: Self)
        requires
            constructible(transformer_type),
        ensures
            r.tv() == continuous_new(context@, transformer_type),
    {
        let child = make_exec(context.new_empty(), transformer_type);
        ContinuousTransformer {
            context,
            current_transformer_type: transformer_type,
            child: Box::new(child),
            buffer: String::new(),
        }
    }

    /// Continuous input in one of the three text modes.
    pub(crate) fn new_text(context: Context, transformer_type: TransformerTypes) -> (r: Self)
        requires
            transformer_type == TransformerTypes::Direct || transformer_type == TransformerTypes::Hiragana
                || transformer_type == TransformerTypes::Katakana,
        ensures
            r.tv() == text_continuous_new(context@, transformer_type),
    {
        let child = leaf_make_exec(context.new_empty(), transformer_type);
        ContinuousTransformer {
            context,
            current_transformer_type: transformer_type,
            child: Box::new(child),
            buffer: String::new(),
        }
    }

    fn new_child_transformer(&self) -> (r: Transformer)
        ensures
            r.tv() == make(ctx_new_empty(self.context@), self.current_transformer_type),
    {
        make_exec(self.context.new_empty(), self.current_transformer_type)
    }

    /// This input with the child replaced by the last of some transformers
    /// (a fresh child when there is none or it is done), and a text kept.
    fn replaced(&self, buffer: String, items: Vec<Transformer>) -> (r: Transformer)
        ensures
            r.tv() == continuous_replace(self.context@, self.current_transformer_type, buffer@, tvs(items@)),
    {
        let mut items = items;
        proof {
            lemma_tvs(items@);
        }
        let child = if items.len() == 0 {
            self.new_child_transformer()
        } else {
            let last = items.pop().unwrap();
            if last.is_stopped() {
                self.new_child_transformer()
            } else {
                last
            }
        };
        Transformer::Continuous(ContinuousTransformer {
            context: self.context.clone(),
            current_transformer_type: self.current_transformer_type,
            child: Box::new(child),
            buffer,
        })
    }

    /// The child, as a stack of one.
    pub fn stack(&self) -> (r: Vec<Transformer>)
        ensures
            tvs(r@) == children(self.tv()),
    {
        single((*self.child).duplicate())
    }

    /// The child replaced by the last of some transformers.
    pub fn replace_last_element(&self, items: Vec<Transformer>) -> (r: Vec<Transformer>)
        ensures
            tvs(r@) == replace_last_tf(self.tv(), tvs(items@)),
    {
        single(self.replaced(self.buffer.clone(), items))
    }

    pub fn duplicate(&self) -> (r: Self)
        ensures
            r.tv() == self.tv(),
        decreases rank(self.tv()), 0nat,
    {
        ContinuousTransformer {
            context: self.context.clone(),
            current_transformer_type: self.current_transformer_type,
            child: Box::new((*self.child).duplicate()),
            buffer: self.buffer.clone(),
        }
    }

    /// Switches modes as the child does.
    pub fn try_change_transformer(&self, keyboard: &US) -> (r: Option<Transformer>)
        ensures
            opt_tv(r) == change_tf(self.tv(), keyboard.pressing_set()),
        decreases rank(self.tv()), 0nat,
    {
        (*self.child).try_change_transformer(keyboard, &KeyCode::Null)
    }

    pub fn step(&self, op: Op) -> (r: Option<Vec<Transformer>>)
        ensures
            opt_tvs(r) == step(self.tv(), op),
        decreases rank(self.tv()), 1nat,
    {
        match op {
            Op::Char(_) => match (*self.child).step(op) {
                Some(items) => {
                    proof {
                        lemma_tvs(items@);
                    }
                    if items.len() == 0 {
                        None
                    } else {
                        let texts = collect_stopped_buffer(&items);
                        let kept = concat(&self.buffer, texts.as_str());
                        let mut items = items;
                        let mut last = items.pop().unwrap();
                        let cleared = last.context().clear_stopped_buffer();
                        last.set_context(cleared);
                        Some(single(self.replaced(kept, single(last))))
                    }
                },
                None => None,
            },
            Op::Escape => match (*self.child).step(op) {
                Some(items) => {
                    proof {
                        lemma_tvs(items@);
                    }
                    if items.len() == 0 {
                        Some(none())
                    } else {
                        Some(single(self.replaced(self.buffer.clone(), items)))
                    }
                },
                None => None,
            },
            Op::Enter => {
                if (*self.child).buffer_content().unicode_len() == 0 {
                    let done = self.context.push_result_string(self.buffer.as_str());
                    Some(single(Transformer::Stopped(StoppedTransformer::completed(done))))
                } else {
                    match (*self.child).step(op) {
                        Some(items) => {
                            let texts = collect_stopped_buffer(&items);
                            let kept = concat(&self.buffer, texts.as_str());
                            Some(single(Transformer::Continuous(ContinuousTransformer {
                                context: self.context.clone(),
                                current_transformer_type: self.current_transformer_type,
                                child: Box::new(self.new_child_transformer()),
                                buffer: kept,
                            })))
                        },
                        None => None,
                    }
                }
            },
            Op::Backspace | Op::Delete => {
                if (*self.child).buffer_content().unicode_len() == 0 {
                    if self.buffer.unicode_len() == 0 {
                        Some(none())
                    } else {
                        let mut kept = self.buffer.clone();
                        pop_char(&mut kept);
                        Some(single(Transformer::Continuous(ContinuousTransformer {
                            context: self.context.clone(),
                            current_transformer_type: self.current_transformer_type,
                            child: Box::new((*self.child).duplicate()),
                            buffer: kept,
                        })))
                    }
                } else {
                    match (*self.child).step(Op::Backspace) {
                        Some(items) => Some(single(self.replaced(self.buffer.clone(), items))),
                        None => None,
                    }
                }
            },
            Op::Space => match (*self.child).step(op) {
                Some(items) => Some(single(self.replaced(self.buffer.clone(), items))),
                None => None,
            },
            _ => None,
        }
    }

    pub fn transformer_type(&self) -> (r: TransformerTypes)
        ensures
            r == ttype(self.tv()),
    {
        TransformerTypes::Continuous
    }

    /// The type of the child.
    pub fn child_transformer_type(&self) -> (r: TransformerTypes)
        ensures
            r == child_type(self.tv()),
    {
        (*self.child).transformer_type()
    }

    pub fn context(&self) -> (r: &Context)
        ensures
            r@ == ctx_of(self.tv()),
    {
        &self.context
    }

    pub fn set_context(&mut self, context: Context)
        ensures
            final(self).tv() == with_ctx(old(self).tv(), context@),
    {
        self.context = context;
    }

    /// The kept text, then the child's.
    pub fn buffer_content(&self) -> (r: String)
        ensures
            r@ == buffer_of(self.tv()),
        decreases rank(self.tv()), 0nat,
    {
        concat(&self.buffer, (*self.child).buffer_content().as_str())
    }

    /// The kept text, then what the child shows.
    pub fn display_string(&self) -> (r: String)
        ensures
            r@ == display_of(self.tv()),
        decreases rank(self.tv()), 0nat,
    {
        concat(&self.buffer, (*self.child).display_string().as_str())
    }
}

} // verus!
