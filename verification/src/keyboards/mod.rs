//! Keyboards: key codes, key events and the keyboard state.
pub mod keycodes;
pub mod notation;
pub mod us;

use vstd::prelude::*;

pub use keycodes::{KeyCode, KeyCombination, KeyCombinations, MetaKey};

verus! {

/// The set of keys that a list of keys holds.
pub open spec fn key_set(s: Seq<KeyCode>) -> Set<KeyCode> {
    Set::new(|k: KeyCode| s.contains(k))
}

pub proof fn lemma_push_contains<A>(s: Seq<A>, a: A, x: A)
    ensures
        s.push(a).contains(x) <==> (s.contains(x) || x == a),
{
    if s.contains(x) {
        let j = choose|j: int| 0 <= j < s.len() && s[j] == x;
        assert(s.push(a)[j] == x);
    }
    if x == a {
        assert(s.push(a)[s.len() as int] == a);
    }
    if s.push(a).contains(x) {
        let j = choose|j: int| 0 <= j < s.push(a).len() && s.push(a)[j] == x;
        if j < s.len() {
            assert(s[j] == x);
        }
    }
}

/// Whether a list of keys holds a key.
pub fn contains_key(keys: &Vec<KeyCode>, key: &KeyCode) -> (r: bool)
    ensures
        r == keys@.contains(*key),
{
    let mut i: usize = 0;
    while i < keys.len()
        invariant
            i <= keys@.len(),
            forall|j: int| 0 <= j < i ==> keys@[j] != *key,
        decreases keys@.len() - i,
    {
        if keys[i] == *key {
            assert(keys@[i as int] == *key);
            return true;
        }
        i = i + 1;
    }
    false
}

#[derive(PartialEq, Eq, Structural, Copy, Clone, Debug, Hash)]
pub enum Keyboards {
    US,
}

impl Keyboards {
    /// A fresh keyboard of this layout, with no key held.
    pub fn to_keyboard(&self) -> (r: us::US)
        ensures
            r.pressing_set() == Set::<KeyCode>::empty(),
            r.last_key() == None::<KeyCode>,
    {
        match self {
            Keyboards::US => us::US::new(),
        }
    }
}

#[derive(PartialEq, Eq, Structural, Copy, Clone, Debug)]
pub enum KeyEvents {
    KeyDown(KeyCode),
    KeyRepeat(KeyCode),
    KeyUp(KeyCode),
}

/// The keys held after a sequence of key-downs and key-ups.
pub open spec fn pressing_after(pressing: Set<KeyCode>, events: Seq<KeyEvents>) -> Set<KeyCode>
    decreases events.len(),
{
    if events.len() == 0 {
        pressing
    } else {
        let p = pressing_after(pressing, events.drop_last());
        match events.last() {
            KeyEvents::KeyDown(k) => p.insert(k),
            KeyEvents::KeyUp(k) => p.remove(k),
            KeyEvents::KeyRepeat(_) => p,
        }
    }
}

impl KeyEvents {
    /// The event of an event type (1: down, 2: up) and a key code.
    pub fn try_from(pair: (u16, u16)) -> (r: Result<KeyEvents, &'static str>)
        ensures
            match (keycodes::key_name_of_code(pair.1), pair.0) {
                (Some(name), 1) => r == Ok::<KeyEvents, &'static str>(
                    KeyEvents::KeyDown(keycodes::key_code_of_name(name)),
                ),
                (Some(name), 2) => r == Ok::<KeyEvents, &'static str>(
                    KeyEvents::KeyUp(keycodes::key_code_of_name(name)),
                ),
                _ => r is Err,
            },
    {
        let (event_type, code) = pair;
        match KeyCode::try_from(code) {
            Ok(code) => match event_type {
                1 => Ok(KeyEvents::KeyDown(code)),
                2 => Ok(KeyEvents::KeyUp(code)),
                _ => Err(""),
            },
            Err(_) => Err(""),
        }
    }
}

pub trait Keyboard {
    /// The keys held down.
    spec fn pressing_set(&self) -> Set<KeyCode>;

    /// The key last pressed, as the layout reports it.
    spec fn last_key(&self) -> Option<KeyCode>;

    fn key_down(&mut self, key: &KeyCode)
        ensures
            final(self).pressing_set() == old(self).pressing_set().insert(*key),
    ;

    fn key_up(&mut self, key: &KeyCode)
        ensures
            final(self).pressing_set() == old(self).pressing_set().remove(*key),
            final(self).last_key() == old(self).last_key(),
    ;

    fn pressing_keys(&self) -> (r: &Vec<KeyCode>)
        ensures
            key_set(r@) == self.pressing_set(),
    ;

    fn last_character(&self) -> (r: Option<KeyCode>)
        ensures
            r == self.last_key(),
    ;

    fn is_pressing(&self, key: &KeyCode) -> (r: bool)
        ensures
            r == self.pressing_set().contains(*key),
    {
        let keys = self.pressing_keys();
        contains_key(keys, key)
    }

    fn is_pressing_shift(&self) -> (r: bool)
        ensures
            r == self.pressing_set().contains(KeyCode::Meta(MetaKey::Shift)),
    {
        self.is_pressing(&KeyCode::Meta(MetaKey::Shift))
    }

    fn is_pressing_ctrl(&self) -> (r: bool)
        ensures
            r == self.pressing_set().contains(KeyCode::Meta(MetaKey::Ctrl)),
    {
        self.is_pressing(&KeyCode::Meta(MetaKey::Ctrl))
    }

    fn is_pressing_super(&self) -> (r: bool)
        ensures
            r == self.pressing_set().contains(KeyCode::Meta(MetaKey::Super)),
    {
        self.is_pressing(&KeyCode::Meta(MetaKey::Super))
    }

    fn is_pressing_alt(&self) -> (r: bool)
        ensures
            r == self.pressing_set().contains(KeyCode::Meta(MetaKey::Alt)),
    {
        self.is_pressing(&KeyCode::Meta(MetaKey::Alt))
    }

    /// Whether a modifier that makes a shortcut (ctrl, super or alt) is held.
    fn is_combination(&self) -> (r: bool)
        ensures
            r == (self.pressing_set().contains(KeyCode::Meta(MetaKey::Ctrl))
                || self.pressing_set().contains(KeyCode::Meta(MetaKey::Super))
                || self.pressing_set().contains(KeyCode::Meta(MetaKey::Alt))),
    {
        self.is_pressing_ctrl() || self.is_pressing_super() || self.is_pressing_alt()
    }

    /// The last key, unless it was typed as part of a shortcut.
    fn last_printable_key(&self) -> (r: Option<KeyCode>)
        ensures
            r == (if self.pressing_set().contains(KeyCode::Meta(MetaKey::Ctrl))
                || self.pressing_set().contains(KeyCode::Meta(MetaKey::Super))
                || self.pressing_set().contains(KeyCode::Meta(MetaKey::Alt)) {
                None
            } else {
                self.last_key()
            }),
    {
        match self.is_combination() {
            true => None,
            false => self.last_character(),
        }
    }

    fn push_event(&mut self, event: &KeyEvents)
        requires
            !(event is KeyRepeat),
        ensures
            final(self).pressing_set() == pressing_after(old(self).pressing_set(), seq![*event]),
    {
        let ghost p0 = self.pressing_set();
        assert(seq![*event].drop_last() =~= Seq::<KeyEvents>::empty());
        assert(pressing_after(p0, Seq::<KeyEvents>::empty()) == p0);
        match event {
            KeyEvents::KeyDown(key) => self.key_down(key),
            KeyEvents::KeyUp(key) => self.key_up(key),
            KeyEvents::KeyRepeat(_) => {},
        }
    }

    fn push_events(&mut self, events: &Vec<KeyEvents>)
        requires
            forall|i: int| 0 <= i < events@.len() ==> !(#[trigger] events@[i] is KeyRepeat),
        ensures
            final(self).pressing_set() == pressing_after(old(self).pressing_set(), events@),
    {
        let mut i: usize = 0;
        while i < events.len()
            invariant
                i <= events@.len(),
                forall|j: int| 0 <= j < events@.len() ==> !(#[trigger] events@[j] is KeyRepeat),
                self.pressing_set() == pressing_after(old(self).pressing_set(), events@.subrange(0, i as int)),
            decreases events@.len() - i,
        {
            let ghost p1 = self.pressing_set();
            self.push_event(&events[i]);
            proof {
                let s = events@.subrange(0, i + 1);
                assert(s.drop_last() =~= events@.subrange(0, i as int));
                assert(s.last() == events@[i as int]);
                assert(seq![events@[i as int]].drop_last() =~= Seq::<KeyEvents>::empty());
                assert(pressing_after(p1, Seq::<KeyEvents>::empty()) == p1);
            }
            i = i + 1;
        }
        assert(events@.subrange(0, events@.len() as int) =~= events@);
    }
}

/// Pressing and releasing a key leaves the held keys as they were, when
/// the key was not held before.
pub proof fn law_press_release(pressing: Set<KeyCode>, k: KeyCode)
    ensures
        pressing_after(pressing, seq![KeyEvents::KeyDown(k), KeyEvents::KeyUp(k)]) == pressing.remove(k),
        !pressing.contains(k) ==> pressing_after(pressing, seq![KeyEvents::KeyDown(k), KeyEvents::KeyUp(k)])
            == pressing,
{
    let events = seq![KeyEvents::KeyDown(k), KeyEvents::KeyUp(k)];
    reveal_with_fuel(pressing_after, 3);
    assert(events.drop_last() =~= seq![KeyEvents::KeyDown(k)]);
    assert(seq![KeyEvents::KeyDown(k)].drop_last() =~= Seq::<KeyEvents>::empty());
    assert(pressing.insert(k).remove(k) =~= pressing.remove(k));
    if !pressing.contains(k) {
        assert(pressing.remove(k) =~= pressing);
    }
}

} // verus!
