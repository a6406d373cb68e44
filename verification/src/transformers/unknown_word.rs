//! Registering a word that the dictionary lacks: the word is typed in a
//! continuous hiragana input.
use vstd::prelude::*;
use super::{Transformer, TransformerTypes, Op, opt_tvs, opt_tv, tvs, lemma_tvs, lemma_tvs_drop_last, single, none,
    replace_last, clone_stack, ContinuousTransformer, Word};
use super::steps::{replace_last_tf, TfView, step, ttype, ctx_of, with_ctx, buffer_of, display_of, rank, ranks, buffers, displays,
    lemma_ranks_element, unknown_word_new, unknown_word_replace, unknown_word_prefix, continuous_new, leaf_make,
    children, push_tf, pop_tf, child_type, has_child_type};
use crate::context::{Context, ctx_new_empty};
use crate::text::concat;

verus! {

#[derive(Debug)]
pub struct UnknownWordTransformer {
    context: Context,
    word: Word,
    stack: Vec<Transformer>,
}

impl UnknownWordTransformer {
    pub closed spec fn tv(&self) -> TfView
        decreases self,
    {
        TfView::UnknownWord { ctx: self.context@, word: self.word@, stack: tvs(self.stack@) }
    }

    pub proof fn lemma_variant(&self)
        ensures
            self.tv() is UnknownWord,
    {
    }

    pub fn new(context: Context, word: Word) -> (r: Self)
        ensures
            r.tv() == unknown_word_new(context@, word@),
    {
        let r = UnknownWordTransformer { context, word, stack: Vec::new() };
        assert(tvs(r.stack@) =~= Seq::<TfView>::empty());
        r
    }

    pub fn replace_last_element(&self, items: Vec<Transformer>) -> (r: Vec<Transformer>)
        ensures
            tvs(r@) == replace_last_tf(self.tv(), tvs(items@)),
    {
        single(Transformer::UnknownWord(UnknownWordTransformer {
            context: self.context.clone(),
            word: self.word.clone(),
            stack: replace_last(clone_stack(&self.stack), items),
        }))
    }

    /// The elements of the stack, in order.
    pub fn stack(&self) -> (r: Vec<Transformer>)
        ensures
            tvs(r@) == children(self.tv()),
    {
        clone_stack(&self.stack)
    }

    /// The type that typing goes to: that of the last element.
    pub fn child_transformer_type(&self) -> (r: TransformerTypes)
        requires
            has_child_type(self.tv()),
        ensures
            r == child_type(self.tv()),
        decreases rank(self.tv()), 0nat,
    {
        proof {
            lemma_tvs(self.stack@);
        }
        let n: usize = self.stack.len();
        proof {
            lemma_ranks_element(tvs(self.stack@), n - 1);
        }
        self.stack[n - 1].child_transformer_type()
    }

    /// This transformer with one more element on its stack.
    pub fn push(&self, item: Transformer) -> (r: Self)
        ensures
            r.tv() == push_tf(self.tv(), item.tv()),
    {
        let ghost added = item.tv();
        let mut s = clone_stack(&self.stack);
        let ghost before = s@;
        s.push(item);
        proof {
            lemma_tvs(s@);
            lemma_tvs(before);
            assert(tvs(s@) =~= tvs(before).push(added));
        }
        UnknownWordTransformer { context: self.context.clone(), word: self.word.clone(), stack: s }
    }

    /// Takes the last element off the stack.
    pub fn pop(&self) -> (r: (Transformer, Option<Transformer>))
        ensures
            r.0.tv() == pop_tf(self.tv()).0,
            opt_tv(r.1) == pop_tf(self.tv()).1,
    {
        let mut s = clone_stack(&self.stack);
        proof {
            lemma_tvs(s@);
        }
        let ghost before = s@;
        let item = s.pop();
        proof {
            if before.len() > 0 {
                lemma_tvs_drop_last(before);
            }
            lemma_tvs(s@);
        }
        (Transformer::UnknownWord(UnknownWordTransformer {
            context: self.context.clone(),
            word: self.word.clone(),
            stack: s,
        }), item)
    }

    pub fn duplicate(&self) -> (r: Self)
        ensures
            r.tv() == self.tv(),
        decreases rank(self.tv()), 0nat,
    {
        UnknownWordTransformer { context: self.context.clone(), word: self.word.clone(), stack: clone_stack(&self.stack) }
    }

    /// Hands an input to the last element, or to a fresh continuous input
    /// when there is none.
    fn target_step(&self, op: Op) -> (r: Option<Vec<Transformer>>)
        ensures
            opt_tvs(r) == step(
                if self.stack@.len() > 0 {
                    tvs(self.stack@)[self.stack@.len() - 1]
                } else {
                    continuous_new(self.context@, TransformerTypes::Hiragana)
                },
                op,
            ),
        decreases rank(self.tv()), 0nat,
    {
        let n: usize = self.stack.len();
        proof {
            lemma_tvs(self.stack@);
        }
        if n > 0 {
            proof {
                lemma_ranks_element(tvs(self.stack@), n - 1);
            }
            self.stack[n - 1].step(op)
        } else {
            let fresh = Transformer::Continuous(ContinuousTransformer::new(self.context.clone(), TransformerTypes::Hiragana));
            proof {
                assert(rank(leaf_make(ctx_new_empty(self.context@), TransformerTypes::Hiragana)) == 1);
            }
            fresh.step(op)
        }
    }

    pub fn step(&self, op: Op) -> (r: Option<Vec<Transformer>>)
        ensures
            opt_tvs(r) == step(self.tv(), op),
        decreases rank(self.tv()), 1nat,
    {
        let n: usize = self.stack.len();
        proof {
            lemma_tvs(self.stack@);
        }
        match op {
            Op::Char(_) | Op::Space => match self.target_step(op) {
                Some(items) => Some(self.replace_last_element(items)),
                None => None,
            },
            Op::Enter => match self.target_step(op) {
                Some(items) => {
                    proof {
                        lemma_tvs(items@);
                    }
                    if items.len() == 0 {
                        None
                    } else if items[items.len() - 1].is_compleated() {
                        let mut items = items;
                        Some(single(items.pop().unwrap()))
                    } else {
                        Some(self.replace_last_element(items))
                    }
                },
                None => None,
            },
            Op::Backspace | Op::Delete => {
                if self.buffer_content().unicode_len() == 0 {
                    Some(single(Transformer::UnknownWord(self.duplicate())))
                } else if n == 0 {
                    None
                } else {
                    match self.target_step(Op::Backspace) {
                        Some(items) => Some(self.replace_last_element(items)),
                        None => None,
                    }
                }
            },
            Op::Escape => {
                if n == 0 {
                    Some(none())
                } else {
                    let last = &self.stack[n - 1];
                    if last.transformer_type() == TransformerTypes::Continuous && last.child_transformer_type()
                        != TransformerTypes::Henkan && last.buffer_content().unicode_len() == 0 {
                        Some(none())
                    } else {
                        match self.target_step(op) {
                            Some(items) => Some(self.replace_last_element(items)),
                            None => None,
                        }
                    }
                }
            },
            _ => None,
        }
    }

    pub fn transformer_type(&self) -> (r: TransformerTypes)
        ensures
            r == ttype(self.tv()),
    {
        TransformerTypes::UnknownWord
    }

    pub fn context(&self) -> (r: &Context)
        ensures
            r@ == ctx_of(self.tv()),
    {
        &self.context
    }

    pub fn set_context(&mut self, context: Context)
        ensures
            final(self).tv() == with_ctx(old(self).tv(), context@),
    {
        self.context = context;
    }

    /// The texts of the elements, joined.
    pub fn buffer_content(&self) -> (r: String)
        ensures
            r@ == buffer_of(self.tv()),
        decreases rank(self.tv()), 0nat,
    {
        let mut acc = String::new();
        let mut i: usize = 0;
        proof {
            lemma_tvs(self.stack@);
        }
        while i < self.stack.len()
            invariant
                i <= self.stack@.len(),
                tvs(self.stack@).len() == self.stack@.len(),
                forall|j: int| 0 <= j < self.stack@.len() ==> #[trigger] tvs(self.stack@)[j] == self.stack@[j].tv(),
                acc@ == buffers(tvs(self.stack@).subrange(0, i as int)),
            decreases self.stack@.len() - i,
        {
            proof {
                lemma_ranks_element(tvs(self.stack@), i as int);
                let s = tvs(self.stack@).subrange(0, i + 1);
                assert(s.subrange(0, s.len() - 1) =~= tvs(self.stack@).subrange(0, i as int));
                assert(s[s.len() - 1] == self.stack@[i as int].tv());
            }
            let piece = self.stack[i].buffer_content();
            acc = concat(&acc, piece.as_str());
            i = i + 1;
        }
        assert(tvs(self.stack@).subrange(0, self.stack@.len() as int) =~= tvs(self.stack@));
        acc
    }

    /// The word being registered, then what the elements show.
    pub fn display_string(&self) -> (r: String)
        ensures
            r@ == display_of(self.tv()),
        decreases rank(self.tv()), 0nat,
    {
        let mut acc = String::new();
        let mut i: usize = 0;
        proof {
            lemma_tvs(self.stack@);
        }
        while i < self.stack.len()
            invariant
                i <= self.stack@.len(),
                tvs(self.stack@).len() == self.stack@.len(),
                forall|j: int| 0 <= j < self.stack@.len() ==> #[trigger] tvs(self.stack@)[j] == self.stack@[j].tv(),
                acc@ == displays(tvs(self.stack@).subrange(0, i as int)),
            decreases self.stack@.len() - i,
        {
            proof {
                lemma_ranks_element(tvs(self.stack@), i as int);
                let s = tvs(self.stack@).subrange(0, i + 1);
                assert(s.subrange(0, s.len() - 1) =~= tvs(self.stack@).subrange(0, i as int));
                assert(s[s.len() - 1] == self.stack@[i as int].tv());
            }
            let piece = self.stack[i].display_string();
            acc = concat(&acc, piece.as_str());
            i = i + 1;
        }
        assert(tvs(self.stack@).subrange(0, self.stack@.len() as int) =~= tvs(self.stack@));
        let open = "[登録: ";
        proof {
            reveal_strlit("[登録: ");
        }
        let prefix = concat(&open.to_owned(), self.word.display_string().as_str());
        let close = "]";
        proof {
            reveal_strlit("]");
        }
        let prefix = concat(&prefix, close);
        assert(prefix@ == unknown_word_prefix(self.word@));
        concat(&prefix, acc.as_str())
    }
}

} // verus!
