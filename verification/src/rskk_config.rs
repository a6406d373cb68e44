//! The configuration: keyboard layout and the keys that switch modes.
use vstd::prelude::*;
use crate::keyboards::{KeyCode, KeyCombination, KeyCombinations, Keyboards, MetaKey, key_set};
use crate::transformers::TransformerTypes;

verus! {

#[derive(Debug)]
pub struct RSKKConfig {
    pub keyboard_type: Keyboards,
    pub key_config: KeyConfig,
    pub is_enable_sticky_shift: bool,
}

#[derive(Debug)]
pub struct KeyConfig {
    pub enter: KeyCombinations,
    pub enter_henkan_transformer: KeyCombinations,
    pub enter_okuri_transformer: KeyCombinations,
    pub enter_hiragana_transformer: KeyCombinations,
    pub enter_katakana_transformer: KeyCombinations,
    pub enter_en_katakana_transformer: KeyCombinations,
    pub enter_em_eisu_transformer: KeyCombinations,
    pub enter_abbr_transformer: KeyCombinations,
    pub enter_direct_transformer: KeyCombinations,
    pub sticky_key: KeyCombinations,
}

/// Whether some alternative of a set of key combinations is held.
pub open spec fn combos_fulfilled(c: KeyCombinations, pressing: Set<KeyCode>) -> bool {
    exists|i: int| 0 <= i < c.alternatives().len() && #[trigger] c.alternatives()[i].keys().subset_of(pressing)
}

/// The mode that held keys switch to: the first, in a fixed order, of the
/// allowed modes whose keys are held; katakana comes last, after direct
/// input.
pub open spec fn change_spec(k: KeyConfig, allow: Set<TransformerTypes>, pressing: Set<KeyCode>) -> Option<TransformerTypes> {
    if allow.contains(TransformerTypes::Henkan) && combos_fulfilled(k.enter_henkan_transformer, pressing) {
        Some(TransformerTypes::Henkan)
    } else if allow.contains(TransformerTypes::Okuri) && combos_fulfilled(k.enter_okuri_transformer, pressing) {
        Some(TransformerTypes::Okuri)
    } else if allow.contains(TransformerTypes::Hiragana) && combos_fulfilled(k.enter_hiragana_transformer, pressing) {
        Some(TransformerTypes::Hiragana)
    } else if allow.contains(TransformerTypes::EnKatakana) && combos_fulfilled(k.enter_en_katakana_transformer, pressing) {
        Some(TransformerTypes::EnKatakana)
    } else if allow.contains(TransformerTypes::EmEisu) && combos_fulfilled(k.enter_em_eisu_transformer, pressing) {
        Some(TransformerTypes::EmEisu)
    } else if allow.contains(TransformerTypes::Abbr) && combos_fulfilled(k.enter_abbr_transformer, pressing) {
        Some(TransformerTypes::Abbr)
    } else if allow.contains(TransformerTypes::Direct) && combos_fulfilled(k.enter_direct_transformer, pressing) {
        Some(TransformerTypes::Direct)
    } else if allow.contains(TransformerTypes::Katakana) && combos_fulfilled(k.enter_katakana_transformer, pressing) {
        Some(TransformerTypes::Katakana)
    } else {
        None
    }
}

/// Whether a list of modes holds a mode.
pub fn contains_type(v: &Vec<TransformerTypes>, t: TransformerTypes) -> (r: bool)
    ensures
        r == v@.contains(t),
{
    let mut i: usize = 0;
    while i < v.len()
        invariant
            i <= v@.len(),
            forall|j: int| 0 <= j < i ==> v@[j] != t,
        decreases v@.len() - i,
    {
        if v[i] == t {
            assert(v@[i as int] == t);
            return true;
        }
        i = i + 1;
    }
    false
}

/// A set of single-key combinations (with shift when asked) for each
/// character of a text.
fn letter_combos(letters: &str, with_shift: bool) -> (r: KeyCombinations)
    ensures
        r.alternatives().len() == letters@.len(),
        forall|i: int|
            0 <= i < letters@.len() ==> (#[trigger] r.alternatives()[i]).keys() == (if with_shift {
                key_set(seq![KeyCode::Meta(MetaKey::Shift), KeyCode::Printable(letters@[i])])
            } else {
                key_set(seq![KeyCode::Printable(letters@[i])])
            }),
{
    let n: usize = letters.unicode_len();
    let mut v: Vec<KeyCombination> = Vec::new();
    let mut i: usize = 0;
    while i < n
        invariant
            n == letters@.len(),
            i <= n,
            v@.len() == i,
            forall|j: int|
                0 <= j < i ==> (#[trigger] v@[j]).keys() == (if with_shift {
                    key_set(seq![KeyCode::Meta(MetaKey::Shift), KeyCode::Printable(letters@[j])])
                } else {
                    key_set(seq![KeyCode::Printable(letters@[j])])
                }),
        decreases n - i,
    {
        let c = letters.get_char(i);
        let combo = if with_shift {
            let keys = vec![KeyCode::Meta(MetaKey::Shift), KeyCode::Printable(c)];
            assert(keys@ =~= seq![KeyCode::Meta(MetaKey::Shift), KeyCode::Printable(c)]);
            KeyCombination::new(keys)
        } else {
            let keys = vec![KeyCode::Printable(c)];
            assert(keys@ =~= seq![KeyCode::Printable(c)]);
            KeyCombination::new(keys)
        };
        v.push(combo);
        i = i + 1;
    }
    KeyCombinations::new(v)
}

/// One combination of one key.
fn one_key(a: KeyCode) -> (r: KeyCombinations)
    ensures
        r.alternatives().len() == 1,
        r.alternatives()[0].keys() == key_set(seq![a]),
{
    let keys = vec![a];
    assert(keys@ =~= seq![a]);
    let combos = vec![KeyCombination::new(keys)];
    KeyCombinations::new(combos)
}

/// One combination of two keys.
fn two_keys(a: KeyCode, b: KeyCode) -> (r: KeyCombinations)
    ensures
        r.alternatives().len() == 1,
        r.alternatives()[0].keys() == key_set(seq![a, b]),
{
    let keys = vec![a, b];
    assert(keys@ =~= seq![a, b]);
    let combos = vec![KeyCombination::new(keys)];
    KeyCombinations::new(combos)
}

/// Whether a key configuration has the default keys: enter; shift with a
/// letter (all but `v`) for a conversion and for its okurigana; ctrl-j
/// hiragana; q katakana; ctrl-q half-width katakana; shift-l full-width
/// alphanumerics; `/` the abbreviation mode; l direct input; `;` the sticky
/// key.
pub open spec fn is_default_key_config(r: KeyConfig) -> bool {
    &&& r.enter.alternatives().len() == 1
    &&& r.enter.alternatives()[0].keys() == key_set(seq![KeyCode::PrintableMeta(MetaKey::Enter, '\n')])
    &&& r.enter_henkan_transformer.alternatives().len() == "abcdefghijklmnopqrstuwxyz"@.len()
    &&& forall|i: int| 0 <= i < "abcdefghijklmnopqrstuwxyz"@.len()
        ==> (#[trigger] r.enter_henkan_transformer.alternatives()[i]).keys() == key_set(
            seq![KeyCode::Meta(MetaKey::Shift), KeyCode::Printable("abcdefghijklmnopqrstuwxyz"@[i])],
        )
    &&& r.enter_okuri_transformer.alternatives().len() == "abcdefghijklmnopqrstuwxyz"@.len()
    &&& forall|i: int| 0 <= i < "abcdefghijklmnopqrstuwxyz"@.len()
        ==> (#[trigger] r.enter_okuri_transformer.alternatives()[i]).keys() == key_set(
            seq![KeyCode::Meta(MetaKey::Shift), KeyCode::Printable("abcdefghijklmnopqrstuwxyz"@[i])],
        )
    &&& r.enter_hiragana_transformer.alternatives().len() == 1
    &&& r.enter_hiragana_transformer.alternatives()[0].keys() == key_set(seq![KeyCode::Meta(MetaKey::Ctrl), KeyCode::Printable('j')])
    &&& r.enter_katakana_transformer.alternatives().len() == 1
    &&& r.enter_katakana_transformer.alternatives()[0].keys() == key_set(seq![KeyCode::Printable('q')])
    &&& r.enter_en_katakana_transformer.alternatives().len() == 1
    &&& r.enter_en_katakana_transformer.alternatives()[0].keys() == key_set(seq![KeyCode::Meta(MetaKey::Ctrl), KeyCode::Printable('q')])
    &&& r.enter_em_eisu_transformer.alternatives().len() == 1
    &&& r.enter_em_eisu_transformer.alternatives()[0].keys() == key_set(seq![KeyCode::Meta(MetaKey::Shift), KeyCode::Printable('l')])
    &&& r.enter_abbr_transformer.alternatives().len() == 1
    &&& r.enter_abbr_transformer.alternatives()[0].keys() == key_set(seq![KeyCode::Printable('/')])
    &&& r.enter_direct_transformer.alternatives().len() == 1
    &&& r.enter_direct_transformer.alternatives()[0].keys() == key_set(seq![KeyCode::Printable('l')])
    &&& r.sticky_key.alternatives().len() == 1
    &&& r.sticky_key.alternatives()[0].keys() == key_set(seq![KeyCode::Printable(';')])
}

impl KeyConfig {
    /// The mode that the held keys switch to, among the allowed ones.
    pub fn try_change_transformer(&self, allow: &Vec<TransformerTypes>, pressing_keys: &Vec<KeyCode>) -> (r: Option<TransformerTypes>)
        ensures
            r == change_spec(*self, allow@.to_set(), key_set(pressing_keys@)),
    {
        if contains_type(allow, TransformerTypes::Henkan) && self.enter_henkan_transformer.fulfilled(pressing_keys) {
            return Some(TransformerTypes::Henkan);
        }
        if contains_type(allow, TransformerTypes::Okuri) && self.enter_okuri_transformer.fulfilled(pressing_keys) {
            return Some(TransformerTypes::Okuri);
        }
        if contains_type(allow, TransformerTypes::Hiragana) && self.enter_hiragana_transformer.fulfilled(pressing_keys) {
            return Some(TransformerTypes::Hiragana);
        }
        if contains_type(allow, TransformerTypes::EnKatakana) && self.enter_en_katakana_transformer.fulfilled(pressing_keys) {
            return Some(TransformerTypes::EnKatakana);
        }
        if contains_type(allow, TransformerTypes::EmEisu) && self.enter_em_eisu_transformer.fulfilled(pressing_keys) {
            return Some(TransformerTypes::EmEisu);
        }
        if contains_type(allow, TransformerTypes::Abbr) && self.enter_abbr_transformer.fulfilled(pressing_keys) {
            return Some(TransformerTypes::Abbr);
        }
        if contains_type(allow, TransformerTypes::Direct) && self.enter_direct_transformer.fulfilled(pressing_keys) {
            return Some(TransformerTypes::Direct);
        }
        if contains_type(allow, TransformerTypes::Katakana) && self.enter_katakana_transformer.fulfilled(pressing_keys) {
            return Some(TransformerTypes::Katakana);
        }
        None
    }

    /// The default keys: enter; shift with a letter (all but `v`) starts a
    /// conversion or its okurigana; ctrl-j hiragana; q katakana; ctrl-q
    /// half-width katakana; shift-l full-width alphanumerics; `/` the
    /// abbreviation mode; l direct input; `;` the sticky key.
    pub fn default_config() -> (r: Self)
        ensures
            is_default_key_config(r),
    {
        KeyConfig {
            enter: one_key(KeyCode::PrintableMeta(MetaKey::Enter, '\n')),
            enter_henkan_transformer: letter_combos("abcdefghijklmnopqrstuwxyz", true),
            enter_okuri_transformer: letter_combos("abcdefghijklmnopqrstuwxyz", true),
            enter_hiragana_transformer: two_keys(KeyCode::Meta(MetaKey::Ctrl), KeyCode::Printable('j')),
            enter_katakana_transformer: one_key(KeyCode::Printable('q')),
            enter_en_katakana_transformer: two_keys(KeyCode::Meta(MetaKey::Ctrl), KeyCode::Printable('q')),
            enter_em_eisu_transformer: two_keys(KeyCode::Meta(MetaKey::Shift), KeyCode::Printable('l')),
            enter_abbr_transformer: one_key(KeyCode::Printable('/')),
            enter_direct_transformer: one_key(KeyCode::Printable('l')),
            sticky_key: one_key(KeyCode::Printable(';')),
        }
    }
}

impl RSKKConfig {
    /// The default configuration: the US layout, the default keys, no
    /// sticky shift.
    pub fn default_config() -> (r: Self)
        ensures
            r.keyboard_type == Keyboards::US,
            !r.is_enable_sticky_shift,
            is_default_key_config(r.key_config),
    {
        RSKKConfig { keyboard_type: Keyboards::US, key_config: KeyConfig::default_config(), is_enable_sticky_shift: false }
    }

    pub fn key_config(&self) -> (r: &KeyConfig)
        ensures
            *r == self.key_config,
    {
        &self.key_config
    }
}

} // verus!
