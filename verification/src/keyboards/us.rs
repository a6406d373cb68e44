//! The US keyboard layout.
use vstd::prelude::*;
use super::keycodes::{KeyCode, MetaKey, printable_of};
use super::{Keyboard, contains_key, key_set, lemma_push_contains};

verus! {

/// The character that a key of the US layout types while shift is held.
pub open spec fn shifted(c: char) -> char {
    match c {
        'a' => 'A',
        'b' => 'B',
        'c' => 'C',
        'd' => 'D',
        'e' => 'E',
        'f' => 'F',
        'g' => 'G',
        'h' => 'H',
        'i' => 'I',
        'j' => 'J',
        'k' => 'K',
        'l' => 'L',
        'm' => 'M',
        'n' => 'N',
        'o' => 'O',
        'p' => 'P',
        'q' => 'Q',
        'r' => 'R',
        's' => 'S',
        't' => 'T',
        'u' => 'U',
        'w' => 'W',
        'x' => 'X',
        'y' => 'Y',
        'z' => 'Z',
        '1' => '!',
        '2' => '@',
        '3' => '#',
        '4' => '$',
        '5' => '%',
        '6' => '^',
        '7' => '&',
        '8' => '*',
        '9' => '(',
        '0' => ')',
        '-' => '_',
        '=' => '+',
        '[' => '{',
        ']' => '}',
        ';' => ':',
        '/' => '?',
        ',' => '<',
        '\\' => '|',
        '`' => '~',
        _ => c,
    }
}

/// What the US layout types for a key: its character, shifted while shift
/// is held; nothing for keys that type no character.
pub open spec fn us_character(key: KeyCode, is_shift_down: bool) -> Option<char> {
    match printable_of(key) {
        Some(c) => Some(if is_shift_down { shifted(c) } else { c }),
        None => None,
    }
}

/// The key that a key-down on the US layout reports as the last one typed:
/// a character key with the character the layout types, any other key as
/// it is.
pub open spec fn us_reported_key(key: KeyCode, is_shift_down: bool) -> KeyCode {
    match key {
        KeyCode::Printable(c) => KeyCode::Printable(if is_shift_down { shifted(c) } else { c }),
        KeyCode::PrintableMeta(m, c) => KeyCode::PrintableMeta(
            m,
            if is_shift_down { shifted(c) } else { c },
        ),
        _ => key,
    }
}

#[derive(Debug)]
pub struct US {
    pressing_keys: Vec<KeyCode>,
    last_character: Option<KeyCode>,
}

impl US {
    pub fn new() -> (r: Self)
        ensures
            r.pressing_set() == Set::<KeyCode>::empty(),
            r.last_key() == None::<KeyCode>,
    {
        let r = US { pressing_keys: Vec::new(), last_character: None };
        assert(r.pressing_keys@.to_set() =~= Set::<KeyCode>::empty());
        r
    }

    fn shifted_char(character: char) -> (r: char)
        ensures
            r == shifted(character),
    {
        match character {
            'a' => 'A',
            'b' => 'B',
            'c' => 'C',
            'd' => 'D',
            'e' => 'E',
            'f' => 'F',
            'g' => 'G',
            'h' => 'H',
            'i' => 'I',
            'j' => 'J',
            'k' => 'K',
            'l' => 'L',
            'm' => 'M',
            'n' => 'N',
            'o' => 'O',
            'p' => 'P',
            'q' => 'Q',
            'r' => 'R',
            's' => 'S',
            't' => 'T',
            'u' => 'U',
            'w' => 'W',
            'x' => 'X',
            'y' => 'Y',
            'z' => 'Z',
            '1' => '!',
            '2' => '@',
            '3' => '#',
            '4' => '$',
            '5' => '%',
            '6' => '^',
            '7' => '&',
            '8' => '*',
            '9' => '(',
            '0' => ')',
            '-' => '_',
            '=' => '+',
            '[' => '{',
            ']' => '}',
            ';' => ':',
            '/' => '?',
            ',' => '<',
            '\\' => '|',
            '`' => '~',
            _ => character,
        }
    }

    /// The character that a key types, given whether shift is held.
    pub fn convert(key: &KeyCode, is_shift_down: bool) -> (r: Option<char>)
        ensures
            r == us_character(*key, is_shift_down),
    {
        match (key.printable_key(), is_shift_down) {
            (Some(character), false) => Some(character),
            (Some(character), true) => Some(Self::shifted_char(character)),
            _ => None,
        }
    }
}

impl Keyboard for US {
    closed spec fn pressing_set(&self) -> Set<KeyCode> {
        key_set(self.pressing_keys@)
    }

    closed spec fn last_key(&self) -> Option<KeyCode> {
        self.last_character
    }

    fn pressing_keys(&self) -> (r: &Vec<KeyCode>) {
        &self.pressing_keys
    }

    fn last_character(&self) -> (r: Option<KeyCode>) {
        self.last_character
    }

    fn key_down(&mut self, key: &KeyCode)
        ensures
            final(self).last_key() == Some(
                us_reported_key(*key, old(self).pressing_set().insert(*key).contains(KeyCode::Meta(MetaKey::Shift))),
            ),
    {
        let ghost before = self.pressing_keys@;
        if !contains_key(&self.pressing_keys, key) {
            self.pressing_keys.push(*key);
        }
        assert forall|x: KeyCode| #[trigger] key_set(self.pressing_keys@).contains(x) == key_set(before).insert(*key).contains(x) by {
            lemma_push_contains(before, *key, x);
        }
        assert(key_set(self.pressing_keys@) =~= key_set(before).insert(*key));
        let shift = self.is_pressing_shift();
        self.last_character = Some(
            match *key {
                KeyCode::Printable(c) => KeyCode::Printable(if shift { Self::shifted_char(c) } else { c }),
                KeyCode::PrintableMeta(m, c) => KeyCode::PrintableMeta(
                    m,
                    if shift { Self::shifted_char(c) } else { c },
                ),
                k => k,
            },
        );
    }

    fn key_up(&mut self, key: &KeyCode) {
        let mut kept: Vec<KeyCode> = Vec::new();
        let mut i: usize = 0;
        while i < self.pressing_keys.len()
            invariant
                i <= self.pressing_keys@.len(),
                forall|x: KeyCode|
                    #[trigger] kept@.contains(x) <==> (x != *key && self.pressing_keys@.subrange(
                        0,
                        i as int,
                    ).contains(x)),
            decreases self.pressing_keys@.len() - i,
        {
            let k = self.pressing_keys[i];
            let ghost before = kept@;
            if k != *key {
                kept.push(k);
            }
            proof {
                let p = self.pressing_keys@;
                assert(p.subrange(0, i + 1) =~= p.subrange(0, i as int).push(k));
                assert forall|x: KeyCode| #[trigger] kept@.contains(x) <==> (x != *key
                    && p.subrange(0, i + 1).contains(x)) by {
                    lemma_push_contains(p.subrange(0, i as int), k, x);
                    lemma_push_contains(before, k, x);
                }
            }
            i = i + 1;
        }
        assert(self.pressing_keys@.subrange(0, self.pressing_keys@.len() as int) =~= self.pressing_keys@);
        assert(key_set(kept@) =~= key_set(self.pressing_keys@).remove(*key));
        self.pressing_keys = kept;
    }
}

} // verus!
