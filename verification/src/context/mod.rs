//! The context a transformer works in: configuration, dictionary and the
//! result produced so far.
use vstd::prelude::*;
use std::rc::Rc;
use crate::composition_result::{CompositionResult, ResultView, push_buffer_spec, pop_stopped_buffer_spec, merge_spec, entries_view};
use crate::dictionary::{Dictionary, DictionaryEntry, EntryView};
use crate::rskk_config::{KeyConfig, RSKKConfig};
use crate::transformers::{Transformer, tvs, lemma_tvs};
use crate::transformers::steps::ctx_of;

verus! {

/// Another handle to a shared value; `Rc::clone`, which makes a pointer to
/// the same allocation, so the value seen through it is the same.
#[verifier::external_body]
pub(crate) fn share<T>(r: &Rc<T>) -> (s: Rc<T>)
    ensures
        s == *r,
{
    Rc::clone(r)
}

/// The configuration and dictionary that a context works with.
pub type ContextEnv = (Rc<RSKKConfig>, Rc<Dictionary>);

/// A context as a value: what it works with and what it produced.
pub type ContextView = (ContextEnv, ResultView);

/// A context of the same configuration and dictionary with nothing produced.
pub open spec fn ctx_new_empty(c: ContextView) -> ContextView {
    (c.0, (Seq::<EntryView>::empty(), None))
}

/// A context with text appended to its finished text.
pub open spec fn ctx_push(c: ContextView, s: Seq<char>) -> ContextView {
    (c.0, push_buffer_spec(c.1, s))
}

/// A context with its finished text cleared.
pub open spec fn ctx_clear(c: ContextView) -> ContextView {
    (c.0, (c.1.0, None))
}

/// The finished text of a context, empty when there is none.
pub open spec fn ctx_stopped(c: ContextView) -> Seq<char> {
    match c.1.1 {
        Some(b) => b,
        None => Seq::<char>::empty(),
    }
}

/// What looking a reading up in the dictionary of a context finds.
pub open spec fn env_lookup(e: ContextEnv, read: Seq<char>) -> Option<EntryView> {
    e.1.lookup(read)
}

#[derive(Debug)]
pub struct Context {
    config: Rc<RSKKConfig>,
    dictionary: Rc<Dictionary>,
    result: CompositionResult,
}

impl View for Context {
    type V = ContextView;

    closed spec fn view(&self) -> ContextView {
        ((self.config, self.dictionary), self.result@)
    }
}

impl Context {
    /// The result produced so far.
    pub closed spec fn result_view(&self) -> ResultView {
        self.result@
    }

    /// The entries of the dictionary.
    pub closed spec fn dictionary_view(&self) -> Set<EntryView> {
        self.dictionary@
    }

    /// The key configuration.
    pub closed spec fn key_config_view(&self) -> KeyConfig {
        self.config.key_config
    }

    /// Whether two contexts work with the same configuration and dictionary.
    pub closed spec fn same_env(&self, other: Context) -> bool {
        self.config == other.config && self.dictionary == other.dictionary
    }

    pub proof fn lemma_same_env_equiv(a: Context, b: Context, c: Context)
        ensures
            a.same_env(a),
            a.same_env(b) ==> b.same_env(a),
            a.same_env(b) && b.same_env(c) ==> a.same_env(c),
            a.same_env(b) ==> a.dictionary_view() == b.dictionary_view() && a.key_config_view()
                == b.key_config_view(),
    {
    }

    pub fn new(config: Rc<RSKKConfig>, dictionary: Rc<Dictionary>) -> (r: Self)
        ensures
            r.result_view() == (Seq::<EntryView>::empty(), None::<Seq<char>>),
            r.dictionary_view() == dictionary@,
            r.key_config_view() == config.key_config,
            r@ == ((config, dictionary), (Seq::<EntryView>::empty(), None::<Seq<char>>)),
    {
        Self { config, dictionary, result: CompositionResult::new() }
    }

    /// A context of the same configuration and dictionary with nothing produced.
    pub fn new_empty(&self) -> (r: Self)
        ensures
            r.same_env(*self),
            r.result_view() == (Seq::<EntryView>::empty(), None::<Seq<char>>),
            r@ == ctx_new_empty(self@),
    {
        Self { config: share(&self.config), dictionary: share(&self.dictionary), result: CompositionResult::new() }
    }

    pub fn config(&self) -> (r: &RSKKConfig)
        ensures
            r.key_config == self.key_config_view(),
            r.key_config == self@.0.0.key_config,
            *r == *self@.0.0,
    {
        &self.config
    }

    pub fn dictionary(&self) -> (r: &Dictionary)
        ensures
            r@ == self.dictionary_view(),
    {
        &self.dictionary
    }

    /// Looks a reading up in the dictionary.
    pub fn lookup(&self, read: &str) -> (r: Option<&DictionaryEntry>)
        ensures
            match r {
                Some(e) => env_lookup(self@.0, read@) == Some(e@),
                None => env_lookup(self@.0, read@) is None,
            },
    {
        self.dictionary.transform(read)
    }

    pub fn result(&self) -> (r: &CompositionResult)
        ensures
            r@ == self.result_view(),
            r@ == self@.1,
    {
        &self.result
    }

    fn with_result(&self, result: CompositionResult) -> (r: Self)
        ensures
            r.same_env(*self),
            r.result_view() == result@,
            r@ == (self@.0, result@),
    {
        Self { config: share(&self.config), dictionary: share(&self.dictionary), result }
    }

    /// This context with text appended to the finished text.
    pub fn push_result_string(&self, buffer: &str) -> (r: Self)
        ensures
            r.same_env(*self),
            r.result_view() == push_buffer_spec(self.result_view(), buffer@),
            r@ == ctx_push(self@, buffer@),
    {
        self.with_result(self.result.push_buffer(buffer))
    }

    pub fn push_dictionary_updates(&self, updates: &Vec<DictionaryEntry>) -> (r: Self)
        ensures
            r.same_env(*self),
            r.result_view() == (self.result_view().0 + entries_view(updates@), self.result_view().1),
            r@ == (self@.0, (self@.1.0 + entries_view(updates@), self@.1.1)),
    {
        self.with_result(self.result.push_dictionary_updates(updates))
    }

    pub fn pop_stopped_buffer(&self) -> (r: Self)
        ensures
            r.same_env(*self),
            r.result_view() == pop_stopped_buffer_spec(self.result_view()),
    {
        self.with_result(self.result.pop_stopped_buffer())
    }

    pub fn merge_result(&self, result: &CompositionResult) -> (r: Self)
        ensures
            r.same_env(*self),
            r.result_view() == merge_spec(self.result_view(), result@),
    {
        self.with_result(self.result.merge_result(result))
    }

    pub fn clear_stopped_buffer(&self) -> (r: Self)
        ensures
            r.same_env(*self),
            r.result_view() == (self.result_view().0, None::<Seq<char>>),
            r@ == ctx_clear(self@),
    {
        self.with_result(self.result.clear_stopped_buffer())
    }
}

impl Clone for Context {
    fn clone(&self) -> (r: Self)
        ensures
            r.same_env(*self),
            r.result_view() == self.result_view(),
            r@ == self@,
    {
        self.with_result(self.result.clone())
    }
}

/// The finished text of a list of results: the texts that are there,
/// joined; none when none is there.
pub open spec fn joined_stopped(results: Seq<ResultView>) -> Option<Seq<char>>
    decreases results.len(),
{
    if results.len() == 0 {
        None
    } else {
        let rest = joined_stopped(results.drop_last());
        match (rest, results.last().1) {
            (None, b) => b,
            (Some(a), None) => Some(a),
            (Some(a), Some(b)) => Some(a + b),
        }
    }
}

/// The dictionary updates of a list of results, joined in order.
pub open spec fn joined_updates(results: Seq<ResultView>) -> Seq<EntryView>
    decreases results.len(),
{
    if results.len() == 0 {
        Seq::<EntryView>::empty()
    } else {
        joined_updates(results.drop_last()) + results.last().0
    }
}

#[derive(Debug)]
pub struct Contexts(Vec<Context>);

impl Contexts {
    /// The results of the contexts, in order.
    pub closed spec fn results(&self) -> Seq<ResultView> {
        self.0@.map_values(|c: Context| c.result_view())
    }

    pub fn from_contexts(items: &Vec<Context>) -> (r: Contexts)
        ensures
            r.results() == items@.map_values(|c: Context| c.result_view()),
    {
        let mut v: Vec<Context> = Vec::new();
        let mut i: usize = 0;
        while i < items.len()
            invariant
                i <= items@.len(),
                v@.len() == i,
                forall|j: int| 0 <= j < i ==> (#[trigger] v@[j]).result_view() == items@[j].result_view(),
            decreases items@.len() - i,
        {
            v.push(items[i].clone());
            i = i + 1;
        }
        let r = Contexts(v);
        assert(r.results() =~= items@.map_values(|c: Context| c.result_view()));
        r
    }

    /// The contexts of some transformers.
    pub fn from_transformers(items: &Vec<Transformer>) -> (r: Contexts)
        ensures
            r.results() == tvs(items@).map_values(|t: crate::transformers::TfView| ctx_of(t).1),
    {
        proof {
            lemma_tvs(items@);
        }
        let mut v: Vec<Context> = Vec::new();
        let mut i: usize = 0;
        while i < items.len()
            invariant
                i <= items@.len(),
                v@.len() == i,
                tvs(items@).len() == items@.len(),
                forall|j: int| 0 <= j < items@.len() ==> #[trigger] tvs(items@)[j] == items@[j].tv(),
                forall|j: int| 0 <= j < i ==> (#[trigger] v@[j]).result_view() == ctx_of(tvs(items@)[j]).1,
            decreases items@.len() - i,
        {
            v.push(items[i].clone_context());
            i = i + 1;
        }
        let r = Contexts(v);
        assert(r.results() =~= tvs(items@).map_values(|t: crate::transformers::TfView| ctx_of(t).1));
        r
    }

    pub fn stopped_buffer(&self) -> (r: Option<String>)
        ensures
            crate::dictionary::candidate::option_string_view(r) == joined_stopped(self.results()),
    {
        let mut acc: Option<String> = None;
        let mut i: usize = 0;
        while i < self.0.len()
            invariant
                i <= self.0@.len(),
                crate::dictionary::candidate::option_string_view(acc) == joined_stopped(self.results().subrange(0, i as int)),
            decreases self.0@.len() - i,
        {
            assert(self.results().subrange(0, i + 1).drop_last() =~= self.results().subrange(0, i as int));
            let b = self.0[i].result().stopped_buffer();
            acc = match (acc, b) {
                (None, b) => b,
                (Some(a), None) => Some(a),
                (Some(a), Some(b)) => Some(crate::text::concat(&a, b.as_str())),
            };
            i = i + 1;
        }
        assert(self.results().subrange(0, self.results().len() as int) =~= self.results());
        acc
    }

    pub fn dictionary_updates(&self) -> (r: Vec<DictionaryEntry>)
        ensures
            entries_view(r@) == joined_updates(self.results()),
    {
        let mut acc: Vec<DictionaryEntry> = Vec::new();
        let mut i: usize = 0;
        assert(entries_view(acc@) =~= Seq::<EntryView>::empty());
        while i < self.0.len()
            invariant
                i <= self.0@.len(),
                entries_view(acc@) == joined_updates(self.results().subrange(0, i as int)),
            decreases self.0@.len() - i,
        {
            assert(self.results().subrange(0, i + 1).drop_last() =~= self.results().subrange(0, i as int));
            let updates = self.0[i].result().dictionary_updates();
            let ghost start = entries_view(acc@);
            let mut k: usize = 0;
            while k < updates.len()
                invariant
                    k <= updates@.len(),
                    entries_view(acc@) == start + entries_view(updates@).subrange(0, k as int),
                decreases updates@.len() - k,
            {
                let ghost prev = entries_view(acc@);
                acc.push(updates[k].clone());
                assert(entries_view(acc@) =~= prev.push(updates@[k as int]@));
                assert(entries_view(updates@).subrange(0, k + 1) =~= entries_view(updates@).subrange(0, k as int).push(updates@[k as int]@));
                k = k + 1;
            }
            assert(entries_view(updates@).subrange(0, updates@.len() as int) =~= entries_view(updates@));
            i = i + 1;
        }
        assert(self.results().subrange(0, self.results().len() as int) =~= self.results());
        acc
    }
}

} // verus!
