//! An SKK-style Japanese input method engine.
use vstd::prelude::*;

pub mod composition;
pub mod composition_result;
pub mod context;
pub mod dictionary;
pub mod keyboards;
pub mod rskk_config;
pub mod text;
pub mod transformers;

use std::rc::Rc;
use composition::{Composition, CompositionView, composition_run, law_composition_keeps_env, law_started_within};
use keyboards::KeyEvents;
use context::{Context, ContextEnv};
use dictionary::{Dictionary, EntryView, parse_dictionary_spec};
use keyboards::KeyCode;
use rskk_config::RSKKConfig;
use transformers::TransformerTypes;
use transformers::steps::{constructible, make, within_env};

verus! {

/// A composition just started in a mode, with a fresh context of a
/// configuration and dictionary.
pub open spec fn started(e: ContextEnv, t: TransformerTypes) -> CompositionView {
    CompositionView {
        tf: make((e, (Seq::<EntryView>::empty(), None)), t),
        base: t,
        pressing: Set::<KeyCode>::empty(),
        last: None,
        ctx: (e, (Seq::<EntryView>::empty(), None)),
    }
}

/// After a dictionary text is read, every composition started afterwards
/// works with the dictionary that the text denotes (the old one is
/// replaced, not merged) and with the configuration that was there, in
/// every transformer it holds, whatever keys follow; a composition started
/// before keeps the dictionary it started with.
pub proof fn law_parsed_dictionary_reaches_compositions(
    before: RSKK,
    after: RSKK,
    dic: Seq<char>,
    t0: TransformerTypes,
    t: TransformerTypes,
    events: Seq<KeyEvents>,
)
    requires
        after.env().1@ == parse_dictionary_spec(dic),
        after.env().0 == before.env().0,
        after.default_type() == before.default_type(),
    ensures
        composition_run(started(after.env(), t), events).ctx.0.1@ == parse_dictionary_spec(dic),
        composition_run(started(after.env(), t), events).ctx.0.0 == before.env().0,
        within_env(composition_run(started(after.env(), t), events).tf, after.env()),
        composition_run(started(before.env(), t0), events).ctx.0 == before.env(),
{
    let e = (Seq::<EntryView>::empty(), None::<Seq<char>>);
    law_started_within((after.env(), e), t);
    law_started_within((before.env(), e), t0);
    law_composition_keeps_env(started(after.env(), t), events);
    law_composition_keeps_env(started(before.env(), t0), events);
}

/// The input method: a configuration, a dictionary, and the mode that
/// compositions start in.
pub struct RSKK {
    config: Rc<RSKKConfig>,
    dictionary: Rc<Dictionary>,
    default_composition_type: TransformerTypes,
}

impl RSKK {
    /// The configuration and dictionary that compositions work with.
    pub closed spec fn env(&self) -> ContextEnv {
        (self.config, self.dictionary)
    }

    pub closed spec fn default_type(&self) -> TransformerTypes {
        self.default_composition_type
    }

    /// The default configuration, an empty dictionary.
    pub fn new(default_composition_type: TransformerTypes) -> (r: Self)
        ensures
            r.default_type() == default_composition_type,
            r.env().1@ == Set::<EntryView>::empty(),
            r.env().0.keyboard_type == keyboards::Keyboards::US,
            !r.env().0.is_enable_sticky_shift,
            rskk_config::is_default_key_config(r.env().0.key_config),
    {
        let entries: Vec<dictionary::DictionaryEntry> = Vec::new();
        let dictionary = Dictionary::new(entries);
        assert(entries@.map_values(|e: dictionary::DictionaryEntry| e@).to_set() =~= Set::<EntryView>::empty());
        RSKK {
            config: Rc::new(RSKKConfig::default_config()),
            dictionary: Rc::new(dictionary),
            default_composition_type,
        }
    }

    /// Replaces the dictionary by the one a dictionary text denotes.
    pub fn parse_dictionary(&mut self, dic: &str)
        ensures
            final(self).env().1@ == parse_dictionary_spec(dic@),
            final(self).env().0 == old(self).env().0,
            final(self).default_type() == old(self).default_type(),
    {
        self.dictionary = Rc::new(Dictionary::parse(dic));
    }

    /// Replaces the configuration.
    pub fn set_config(&mut self, config: RSKKConfig)
        ensures
            final(self).env().0 == config,
            final(self).env().1 == old(self).env().1,
            final(self).default_type() == old(self).default_type(),
    {
        self.config = Rc::new(config);
    }

    /// A composition in the default mode.
    pub fn start_composition(&self) -> (r: Composition)
        requires
            constructible(self.default_type()),
        ensures
            r@ == started(self.env(), self.default_type()),
    {
        self.start_composition_as(self.default_composition_type)
    }

    /// A composition in a given mode, with a fresh context.
    pub fn start_composition_as(&self, composition_type: TransformerTypes) -> (r: Composition)
        requires
            constructible(composition_type),
        ensures
            r@ == started(self.env(), composition_type),
    {
        let context = Context::new(context::share(&self.config), context::share(&self.dictionary));
        Composition::new(context, composition_type)
    }
}

} // verus!
