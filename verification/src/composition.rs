//! A composition: the input of one piece of text, key event by key event.
use vstd::prelude::*;
use crate::context::{Context, ContextView, ctx_stopped};
use crate::keyboards::{KeyCode, KeyEvents, Keyboard, MetaKey, pressing_after};
use crate::keyboards::us::{US, us_reported_key};
use crate::transformers::{Transformer, TransformerTypes, opt_tv, make_exec};
use crate::transformers::steps::{TfView, child_type, has_child_type, buffer_of, display_of, ttype, is_base_type, change_tf, key_step, make,
    constructible, is_stopped, ctx_of, lemma_change_tf_constructible, within_env, lemma_key_step_within,
    lemma_change_tf_within, lemma_new_within};

verus! {

/// What processing a key event gave: the transformer after the key, or a
/// transformer of another mode that held keys switched to.
pub enum ProcessView {
    KeyProcessed(TfView),
    TransformerChanged(TfView),
}

/// The key of a key-down; other events carry no key to process.
pub open spec fn next_key_code(event: KeyEvents) -> Option<KeyCode> {
    match event {
        KeyEvents::KeyDown(k) => Some(k),
        _ => None,
    }
}

/// Whether a key is handed to the transformer.  A mode that a composition
/// starts in leaves, while it holds no text, delete, backspace, the arrows,
/// and space, enter, tab, shift, ctrl and super as typed keys to the
/// application.
pub open spec fn is_process_key(key: KeyCode, t: TfView) -> bool {
    !(buffer_of(t).len() == 0 && is_base_type(ttype(t)) && match key {
        KeyCode::Meta(MetaKey::Delete) | KeyCode::Meta(MetaKey::Backspace) | KeyCode::Meta(MetaKey::ArrowRight)
        | KeyCode::Meta(MetaKey::ArrowDown) | KeyCode::Meta(MetaKey::ArrowLeft)
        | KeyCode::Meta(MetaKey::ArrowUp) => true,
        KeyCode::PrintableMeta(MetaKey::Space, _) | KeyCode::PrintableMeta(MetaKey::Enter, _)
        | KeyCode::PrintableMeta(MetaKey::Tab, _) | KeyCode::PrintableMeta(MetaKey::Shift, _)
        | KeyCode::PrintableMeta(MetaKey::Ctrl, _) | KeyCode::PrintableMeta(MetaKey::Super, _) => true,
        _ => false,
    })
}

/// Processing a key event: on a key-down that the transformer takes, the
/// key last typed either switches modes (when the held keys say so) or
/// goes to the transformer.
pub open spec fn process_spec(t: TfView, pressing: Set<KeyCode>, last: Option<KeyCode>, event: KeyEvents) -> Option<ProcessView> {
    match next_key_code(event) {
        Some(key) => if is_process_key(key, t) {
            match last {
                Some(k) => match change_tf(t, pressing) {
                    Some(n) => Some(ProcessView::TransformerChanged(n)),
                    None => match key_step(t, k) {
                        Some(n) => Some(ProcessView::KeyProcessed(n)),
                        None => None,
                    },
                },
                None => None,
            }
        } else {
            None
        },
        None => None,
    }
}

/// A composition as a value.
pub struct CompositionView {
    pub tf: TfView,
    /// The mode the next composition starts in.
    pub base: TransformerTypes,
    /// The keys held.
    pub pressing: Set<KeyCode>,
    /// The key last pressed, as the layout reports it.
    pub last: Option<KeyCode>,
    pub ctx: ContextView,
}

/// The key last pressed after an event, on the US layout.
pub open spec fn last_after(last: Option<KeyCode>, pressing: Set<KeyCode>, event: KeyEvents) -> Option<KeyCode> {
    match event {
        KeyEvents::KeyDown(k) => Some(us_reported_key(k, pressing.insert(k).contains(KeyCode::Meta(MetaKey::Shift)))),
        _ => last,
    }
}

/// A key event: the keyboard takes it, then it is processed; whether it
/// was handled.
pub open spec fn composition_step(c: CompositionView, event: KeyEvents) -> (CompositionView, bool) {
    let pressing = pressing_after(c.pressing, seq![event]);
    let last = last_after(c.last, c.pressing, event);
    let c1 = CompositionView { pressing, last, ..c };
    match process_spec(c.tf, pressing, last, event) {
        Some(ProcessView::KeyProcessed(n)) => (CompositionView { tf: n, ..c1 }, true),
        Some(ProcessView::TransformerChanged(n)) => (CompositionView { tf: n, base: ttype(n), ..c1 }, true),
        None => (c1, false),
    }
}

/// Key events, one after the other.
pub open spec fn composition_run(c: CompositionView, events: Seq<KeyEvents>) -> CompositionView
    decreases events.len(),
{
    if events.len() == 0 {
        c
    } else {
        composition_step(composition_run(c, events.drop_last()), events.last()).0
    }
}

pub enum KeyEventProcessorResult {
    KeyProcessed(Transformer),
    TransformerChanged(Transformer),
}

pub open spec fn result_view(r: Option<KeyEventProcessorResult>) -> Option<ProcessView> {
    match r {
        Some(KeyEventProcessorResult::KeyProcessed(t)) => Some(ProcessView::KeyProcessed(t.tv())),
        Some(KeyEventProcessorResult::TransformerChanged(t)) => Some(ProcessView::TransformerChanged(t.tv())),
        None => None,
    }
}

/// A key event, the keyboard that took it and the transformer it goes to.
pub struct KeyEventProcessor<'a> {
    event: &'a KeyEvents,
    keyboard: &'a US,
    transformer: &'a Transformer,
}

impl<'a> KeyEventProcessor<'a> {
    pub closed spec fn event(&self) -> KeyEvents {
        *self.event
    }

    pub closed spec fn keyboard(&self) -> US {
        *self.keyboard
    }

    pub closed spec fn transformer(&self) -> TfView {
        self.transformer.tv()
    }

    pub fn new(event: &'a KeyEvents, keyboard: &'a US, transformer: &'a Transformer) -> (r: Self)
        ensures
            r.event() == *event,
            r.keyboard() == *keyboard,
            r.transformer() == transformer.tv(),
    {
        Self { event, keyboard, transformer }
    }

    /// Processes the event.
    pub fn next(&self) -> (r: Option<KeyEventProcessorResult>)
        ensures
            result_view(r) == process_spec(
                self.transformer(),
                self.keyboard().pressing_set(),
                self.keyboard().last_key(),
                self.event(),
            ),
    {
        let key = match Self::next_key_code(self.event) {
            Some(k) => k,
            None => return None,
        };
        if !Self::is_process_key(&key, self.transformer) {
            return None;
        }
        let last = match self.keyboard.last_character() {
            Some(k) => k,
            None => return None,
        };
        match self.transformer.try_change_transformer(self.keyboard, &last) {
            Some(tf) => Some(KeyEventProcessorResult::TransformerChanged(tf)),
            None => match self.transformer.push_key(&last) {
                Some(tf) => Some(KeyEventProcessorResult::KeyProcessed(tf)),
                None => None,
            },
        }
    }

    fn next_key_code(event: &KeyEvents) -> (r: Option<KeyCode>)
        ensures
            r == next_key_code(*event),
    {
        match event {
            KeyEvents::KeyDown(key) => Some(*key),
            _ => None,
        }
    }

    fn is_process_key(key: &KeyCode, transformer: &Transformer) -> (r: bool)
        ensures
            r == is_process_key(*key, transformer.tv()),
    {
        if !(transformer.is_empty() && transformer.is_base_transformer()) {
            return true;
        }
        match key {
            KeyCode::Meta(MetaKey::Delete) | KeyCode::Meta(MetaKey::Backspace) | KeyCode::Meta(MetaKey::ArrowRight)
            | KeyCode::Meta(MetaKey::ArrowDown) | KeyCode::Meta(MetaKey::ArrowLeft)
            | KeyCode::Meta(MetaKey::ArrowUp) => false,
            KeyCode::PrintableMeta(MetaKey::Space, _) | KeyCode::PrintableMeta(MetaKey::Enter, _)
            | KeyCode::PrintableMeta(MetaKey::Tab, _) | KeyCode::PrintableMeta(MetaKey::Shift, _)
            | KeyCode::PrintableMeta(MetaKey::Ctrl, _) | KeyCode::PrintableMeta(MetaKey::Super, _) => false,
            _ => true,
        }
    }
}

#[derive(Debug)]
pub struct Composition {
    transformer: Transformer,
    base_transformer_type: TransformerTypes,
    context: Context,
    keyboard: US,
}

impl View for Composition {
    type V = CompositionView;

    closed spec fn view(&self) -> CompositionView {
        CompositionView {
            tf: self.transformer.tv(),
            base: self.base_transformer_type,
            pressing: self.keyboard.pressing_set(),
            last: self.keyboard.last_key(),
            ctx: self.context@,
        }
    }
}

impl Composition {
    #[verifier::type_invariant]
    spec fn inv(&self) -> bool {
        constructible(self.base_transformer_type)
    }

    /// A composition that starts in a mode, with no key held.
    pub fn new(context: Context, transformer_type: TransformerTypes) -> (r: Self)
        requires
            constructible(transformer_type),
        ensures
            r@ == (CompositionView {
                tf: make(context@, transformer_type),
                base: transformer_type,
                pressing: Set::<KeyCode>::empty(),
                last: None,
                ctx: context@,
            }),
    {
        let keyboard = context.config().keyboard_type.to_keyboard();
        Composition {
            transformer: make_exec(context.clone(), transformer_type),
            base_transformer_type: transformer_type,
            context,
            keyboard,
        }
    }

    /// A composition that goes on from a transformer; the next one starts
    /// in direct input.
    pub fn new_from_transformer(context: Context, transformer: Transformer) -> (r: Self)
        ensures
            r@ == (CompositionView {
                tf: transformer.tv(),
                base: TransformerTypes::Direct,
                pressing: Set::<KeyCode>::empty(),
                last: None,
                ctx: context@,
            }),
    {
        let keyboard = context.config().keyboard_type.to_keyboard();
        Composition { transformer, base_transformer_type: TransformerTypes::Direct, context, keyboard }
    }

    pub fn is_stopped(&self) -> (r: bool)
        ensures
            r == is_stopped(self@.tf),
    {
        self.transformer.is_stopped()
    }

    pub fn is_empty(&self) -> (r: bool)
        ensures
            r == (buffer_of(self@.tf).len() == 0),
    {
        self.transformer.is_empty()
    }

    /// Key events, one after the other.
    pub fn push_key_events(&mut self, events: &Vec<KeyEvents>)
        requires
            forall|i: int| 0 <= i < events@.len() ==> !(#[trigger] events@[i] is KeyRepeat),
        ensures
            final(self)@ == composition_run(old(self)@, events@),
    {
        let mut i: usize = 0;
        while i < events.len()
            invariant
                i <= events@.len(),
                forall|j: int| 0 <= j < events@.len() ==> !(#[trigger] events@[j] is KeyRepeat),
                self@ == composition_run(old(self)@, events@.subrange(0, i as int)),
            decreases events@.len() - i,
        {
            self.push_key_event(&events[i]);
            proof {
                let s = events@.subrange(0, i + 1);
                assert(s.drop_last() =~= events@.subrange(0, i as int));
                assert(s.last() == events@[i as int]);
            }
            i = i + 1;
        }
        assert(events@.subrange(0, events@.len() as int) =~= events@);
    }

    /// A key event: the keyboard takes it, then the transformer or a mode
    /// switch; whether it was handled.
    pub fn push_key_event(&mut self, event: &KeyEvents) -> (r: bool)
        requires
            !(event is KeyRepeat),
        ensures
            (final(self)@, r) == composition_step(old(self)@, *event),
    {
        proof {
            use_type_invariant(&*self);
        }
        let ghost before = self@;
        let mut keyboard = US::new();
        std::mem::swap(&mut keyboard, &mut self.keyboard);
        match event {
            KeyEvents::KeyDown(key) => keyboard.key_down(key),
            KeyEvents::KeyUp(key) => keyboard.key_up(key),
            KeyEvents::KeyRepeat(_) => {},
        }
        self.keyboard = keyboard;
        proof {
            assert(seq![*event].drop_last() =~= Seq::<KeyEvents>::empty());
            reveal_with_fuel(pressing_after, 2);
            assert(self.keyboard.pressing_set() == pressing_after(before.pressing, seq![*event]));
        }
        let result = KeyEventProcessor::new(event, &self.keyboard, &self.transformer).next();
        match result {
            Some(KeyEventProcessorResult::KeyProcessed(tf)) => {
                self.transformer = tf;
                true
            },
            Some(KeyEventProcessorResult::TransformerChanged(tf)) => {
                let ty = tf.transformer_type();
                proof {
                    lemma_change_tf_constructible(before.tf, self.keyboard.pressing_set());
                }
                self.base_transformer_type = ty;
                self.transformer = tf;
                true
            },
            None => false,
        }
    }

    /// The next composition: same context, starting in the mode this one
    /// ended in.
    pub fn next_composition(&self) -> (r: Composition)
        ensures
            r@ == (CompositionView {
                tf: make(self@.ctx, self@.base),
                base: self@.base,
                pressing: Set::<KeyCode>::empty(),
                last: None,
                ctx: self@.ctx,
            }),
    {
        proof {
            use_type_invariant(self);
        }
        Composition::new(self.context.clone(), self.base_transformer_type)
    }

    pub fn buffer_content(&self) -> (r: String)
        ensures
            r@ == buffer_of(self@.tf),
    {
        self.transformer.buffer_content()
    }

    pub fn display_string(&self) -> (r: String)
        ensures
            r@ == display_of(self@.tf),
    {
        self.transformer.display_string()
    }

    /// The finished text of the transformer, empty when there is none.
    pub fn stopped_buffer(&self) -> (r: String)
        ensures
            r@ == ctx_stopped(ctx_of(self@.tf)),
    {
        match self.transformer.context().result().stopped_buffer() {
            Some(b) => b,
            None => String::new(),
        }
    }

    pub fn transformer_type(&self) -> (r: TransformerTypes)
        ensures
            r == ttype(self@.tf),
    {
        self.transformer.transformer_type()
    }

    pub fn child_transformer_type(&self) -> (r: TransformerTypes)
        requires
            has_child_type(self@.tf),
        ensures
            r == child_type(self@.tf),
    {
        self.transformer.child_transformer_type()
    }

    pub fn transformer(&self) -> (r: Transformer)
        ensures
            r.tv() == self@.tf,
    {
        self.transformer.clone()
    }

    pub fn base_transformer_type(&self) -> (r: TransformerTypes)
        ensures
            r == self@.base,
    {
        self.base_transformer_type
    }
}

/// Key events in two runs are the same key events in one.
pub proof fn law_run_concat(c: CompositionView, a: Seq<KeyEvents>, b: Seq<KeyEvents>)
    ensures
        composition_run(c, a + b) == composition_run(composition_run(c, a), b),
    decreases b.len(),
{
    if b.len() == 0 {
        assert(a + b =~= a);
    } else {
        assert((a + b).drop_last() =~= a + b.drop_last());
        assert((a + b).last() == b.last());
        law_run_concat(c, a, b.drop_last());
    }
}

/// Once a composition has stopped (completed or cancelled), no key event
/// changes its transformer or the mode the next composition starts in.
pub proof fn law_stopped_is_final(c: CompositionView, events: Seq<KeyEvents>)
    requires
        is_stopped(c.tf),
    ensures
        composition_run(c, events).tf == c.tf,
        composition_run(c, events).base == c.base,
        composition_run(c, events).ctx == c.ctx,
    decreases events.len(),
{
    if events.len() > 0 {
        law_stopped_is_final(c, events.drop_last());
    }
}

/// Releasing a key is never handed to the transformer: only the keyboard
/// changes.
pub proof fn law_key_up_is_not_processed(c: CompositionView, k: KeyCode)
    ensures
        composition_step(c, KeyEvents::KeyUp(k)).0.tf == c.tf,
        !composition_step(c, KeyEvents::KeyUp(k)).1,
{
}

/// Whatever keys are pressed, a composition keeps working with the
/// configuration and dictionary it was started with: its context stays,
/// and every transformer it holds, however deep, uses them.
pub proof fn law_composition_keeps_env(c: CompositionView, events: Seq<KeyEvents>)
    requires
        within_env(c.tf, c.ctx.0),
    ensures
        composition_run(c, events).ctx == c.ctx,
        within_env(composition_run(c, events).tf, c.ctx.0),
    decreases events.len(),
{
    if events.len() > 0 {
        law_composition_keeps_env(c, events.drop_last());
        let prev = composition_run(c, events.drop_last());
        let e = events.last();
        let pressing = pressing_after(prev.pressing, seq![e]);
        let last = last_after(prev.last, prev.pressing, e);
        lemma_change_tf_within(prev.tf, pressing, c.ctx.0);
        if let Some(k) = last {
            lemma_key_step_within(prev.tf, k, c.ctx.0);
        }
    }
}

/// A composition starts within the configuration and dictionary of its
/// context.
pub proof fn law_started_within(ctx: ContextView, ty: TransformerTypes)
    ensures
        within_env(make(ctx, ty), ctx.0),
{
    lemma_new_within(ctx, ty);
}

} // verus!
