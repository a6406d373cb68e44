//! The interfaces of transformers: what they show, the context they work
//! in, the stack they hold, and the inputs they take.
use vstd::prelude::*;
use super::{Transformer, TransformerTypes, Op, opt_tvs, opt_tv, tvs, Word, StoppedReason};
use super::steps::{TfView, step, ttype, ctx_of, buffer_of, display_of, meta_op, key_step, change_tf, children,
    is_stackable, push_tf, pop_tf, replace_last_tf, send_target_spec, is_stopped, is_completed, is_base_type, with_ctx};
use super::word::{word_buffer, word_display};
use crate::composition_result::entries_view;
use crate::context::{Context, ContextView, ctx_push, ctx_clear, ctx_new_empty};
use crate::dictionary::DictionaryEntry;
use crate::keyboards::{KeyCode, Keyboard};
use crate::keyboards::us::US;

verus! {

/// What something holds as text and what it shows.
pub trait Displayable {
    spec fn buffer_view(&self) -> Seq<char>;

    spec fn display_view(&self) -> Seq<char>;

    fn buffer_content(&self) -> (r: String)
        ensures
            r@ == self.buffer_view(),
    ;

    fn display_string(&self) -> (r: String)
        ensures
            r@ == self.display_view(),
    ;

    fn is_empty(&self) -> (r: bool)
        ensures
            r == (self.buffer_view().len() == 0),
    {
        self.buffer_content().unicode_len() == 0
    }
}

impl Displayable for Transformer {
    open spec fn buffer_view(&self) -> Seq<char> {
        buffer_of(self.tv())
    }

    open spec fn display_view(&self) -> Seq<char> {
        display_of(self.tv())
    }

    fn buffer_content(&self) -> (r: String) {
        Transformer::buffer_content(self)
    }

    fn display_string(&self) -> (r: String) {
        Transformer::display_string(self)
    }
}

impl Displayable for Word {
    open spec fn buffer_view(&self) -> Seq<char> {
        word_buffer(self@)
    }

    open spec fn display_view(&self) -> Seq<char> {
        word_display(self@)
    }

    fn buffer_content(&self) -> (r: String) {
        Word::buffer_content(self)
    }

    fn display_string(&self) -> (r: String) {
        Word::display_string(self)
    }
}

/// Something that works in a context.
pub trait WithContext {
    spec fn context_view(&self) -> ContextView;

    fn clone_context(&self) -> (r: Context)
        ensures
            r@ == self.context_view(),
    ;

    fn context(&self) -> (r: &Context)
        ensures
            r@ == self.context_view(),
    ;

    fn set_context(&mut self, context: Context)
        ensures
            final(self).context_view() == context@,
    ;

    /// The context with text appended to its finished text.
    fn push_stopped_buffer(&self, buffer: &str) -> (r: Context)
        ensures
            r@ == ctx_push(self.context_view(), buffer@),
    {
        self.context().push_result_string(buffer)
    }

    /// The context with its finished text cleared.
    fn clear_stopped_buffer(&self) -> (r: Context)
        ensures
            r@ == ctx_clear(self.context_view()),
    {
        self.context().clear_stopped_buffer()
    }

    /// The context with dictionary updates appended.
    fn push_dictionary_updates(&self, updates: &Vec<DictionaryEntry>) -> (r: Context)
        ensures
            r@ == (self.context_view().0, (self.context_view().1.0 + entries_view(updates@), self.context_view().1.1)),
    {
        self.context().push_dictionary_updates(updates)
    }

    /// A context of the same configuration and dictionary with nothing produced.
    fn new_context(&self) -> (r: Context)
        ensures
            r@ == ctx_new_empty(self.context_view()),
    {
        self.context().new_empty()
    }
}

impl WithContext for Transformer {
    open spec fn context_view(&self) -> ContextView {
        ctx_of(self.tv())
    }

    fn clone_context(&self) -> (r: Context) {
        Transformer::clone_context(self)
    }

    fn context(&self) -> (r: &Context) {
        Transformer::context(self)
    }

    fn set_context(&mut self, context: Context)
        ensures
            final(self).tv() == with_ctx(old(self).tv(), context@),
    {
        Transformer::set_context(self, context)
    }
}

/// Transformers that hold others.
pub trait Stackable {
    spec fn stack_view(&self) -> TfView;

    fn push(&self, item: Transformer) -> (r: Transformer)
        requires
            is_stackable(self.stack_view()),
        ensures
            r.tv() == push_tf(self.stack_view(), item.tv()),
    ;

    fn pop(&self) -> (r: (Transformer, Option<Transformer>))
        requires
            self.stack_view() is Henkan || self.stack_view() is UnknownWord || self.stack_view() is Abbr
                || self.stack_view() is Yomi || self.stack_view() is Hiragana || self.stack_view() is Katakana,
        ensures
            r.0.tv() == pop_tf(self.stack_view()).0,
            opt_tv(r.1) == pop_tf(self.stack_view()).1,
    ;

    fn replace_last_element(&self, items: Vec<Transformer>) -> (r: Vec<Transformer>)
        requires
            !(self.stack_view() is Yomi),
        ensures
            tvs(r@) == replace_last_tf(self.stack_view(), tvs(items@)),
    ;

    fn stack(&self) -> (r: Vec<Transformer>)
        ensures
            tvs(r@) == children(self.stack_view()),
    ;

    fn is_all_stopped(&self) -> (r: bool)
        ensures
            r == forall|i: int| 0 <= i < children(self.stack_view()).len() ==> is_stopped(
                #[trigger] children(self.stack_view())[i],
            ),
    ;
}

impl Stackable for Transformer {
    open spec fn stack_view(&self) -> TfView {
        self.tv()
    }

    fn push(&self, item: Transformer) -> (r: Transformer) {
        Transformer::push(self, item)
    }

    fn pop(&self) -> (r: (Transformer, Option<Transformer>)) {
        Transformer::pop(self)
    }

    fn replace_last_element(&self, items: Vec<Transformer>) -> (r: Vec<Transformer>) {
        Transformer::replace_last_element(self, items)
    }

    fn stack(&self) -> (r: Vec<Transformer>) {
        Transformer::stack(self)
    }

    fn is_all_stopped(&self) -> (r: bool) {
        let r = Transformer::is_all_stopped(self);
        assert(self.stack_view() == self.tv());
        r
    }
}

/// A transformer as a transformer of any kind, and where its inputs go.
pub trait AsTransformerTrait {
    spec fn as_view(&self) -> TfView;

    fn as_trait(&self) -> (r: Transformer)
        ensures
            r.tv() == self.as_view(),
    ;

    fn send_target(&self) -> (r: Transformer)
        ensures
            r.tv() == send_target_spec(self.as_view()),
    ;
}

impl AsTransformerTrait for Transformer {
    open spec fn as_view(&self) -> TfView {
        self.tv()
    }

    fn as_trait(&self) -> (r: Transformer) {
        Transformer::as_trait(self)
    }

    fn send_target(&self) -> (r: Transformer) {
        Transformer::send_target(self)
    }
}

/// A state of the input method and the inputs it takes.
pub trait Transformable {
    spec fn view_tf(&self) -> TfView;

    fn transformer_type(&self) -> (r: TransformerTypes)
        ensures
            r == ttype(self.view_tf()),
    ;

    fn is_base_transformer(&self) -> (r: bool)
        ensures
            r == is_base_type(ttype(self.view_tf())),
    ;

    fn is_stopped(&self) -> (r: bool)
        ensures
            r == is_stopped(self.view_tf()),
    ;

    fn is_compleated(&self) -> (r: bool)
        ensures
            r == is_completed(self.view_tf()),
    ;

    fn is_canceled(&self) -> (r: bool)
        ensures
            r == (self.view_tf() matches TfView::Stopped { reason: StoppedReason::Canceled, .. }),
    ;

    fn to_completed(&self) -> (r: Transformer)
        ensures
            r.tv() == (TfView::Stopped { ctx: ctx_of(self.view_tf()), reason: StoppedReason::Compleated }),
    ;

    fn to_completed_with_update_buffer(&self, buffer: &str) -> (r: Transformer)
        ensures
            r.tv() == (TfView::Stopped {
                ctx: ctx_push(ctx_of(self.view_tf()), buffer@),
                reason: StoppedReason::Compleated,
            }),
    ;

    fn to_canceled(&self) -> (r: Transformer)
        ensures
            r.tv() == (TfView::Stopped { ctx: ctx_of(self.view_tf()), reason: StoppedReason::Canceled }),
    ;

    fn push_key(&self, key: &KeyCode) -> (r: Option<Transformer>)
        ensures
            opt_tv(r) == key_step(self.view_tf(), *key),
    ;

    fn try_change_transformer(&self, keyboard: &US, key: &KeyCode) -> (r: Option<Transformer>)
        ensures
            opt_tv(r) == change_tf(self.view_tf(), keyboard.pressing_set()),
    ;

    fn push_meta_key(&self, key: &KeyCode) -> (r: Option<Vec<Transformer>>)
        ensures
            opt_tvs(r) == step(self.view_tf(), meta_op(*key)),
    ;

    fn push_character(&self, character: char) -> (r: Option<Vec<Transformer>>)
        ensures
            opt_tvs(r) == step(self.view_tf(), Op::Char(character)),
    ;

    fn push_any_character(&self, key: &KeyCode) -> (r: Option<Vec<Transformer>>)
        ensures
            opt_tvs(r) == step(self.view_tf(), Op::Any(*key)),
    ;
}

impl Transformable for Transformer {
    open spec fn view_tf(&self) -> TfView {
        self.tv()
    }

    fn transformer_type(&self) -> (r: TransformerTypes) {
        Transformer::transformer_type(self)
    }

    fn is_base_transformer(&self) -> (r: bool) {
        Transformer::is_base_transformer(self)
    }

    fn is_stopped(&self) -> (r: bool) {
        Transformer::is_stopped(self)
    }

    fn is_compleated(&self) -> (r: bool) {
        Transformer::is_compleated(self)
    }

    fn is_canceled(&self) -> (r: bool) {
        Transformer::is_canceled(self)
    }

    fn to_completed(&self) -> (r: Transformer) {
        Transformer::to_completed(self)
    }

    fn to_completed_with_update_buffer(&self, buffer: &str) -> (r: Transformer) {
        Transformer::to_completed_with_update_buffer(self, buffer)
    }

    fn to_canceled(&self) -> (r: Transformer) {
        Transformer::to_canceled(self)
    }

    fn push_key(&self, key: &KeyCode) -> (r: Option<Transformer>) {
        Transformer::push_key(self, key)
    }

    fn try_change_transformer(&self, keyboard: &US, key: &KeyCode) -> (r: Option<Transformer>) {
        Transformer::try_change_transformer(self, keyboard, key)
    }

    fn push_meta_key(&self, key: &KeyCode) -> (r: Option<Vec<Transformer>>) {
        Transformer::push_meta_key(self, key)
    }

    fn push_character(&self, character: char) -> (r: Option<Vec<Transformer>>) {
        Transformer::push_character(self, character)
    }

    fn push_any_character(&self, key: &KeyCode) -> (r: Option<Vec<Transformer>>) {
        Transformer::push_any_character(self, key)
    }
}

} // verus!
