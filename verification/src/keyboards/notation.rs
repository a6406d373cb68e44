//! A notation for key events: a character stands for pressing and
//! releasing its key (with shift for an upper-case letter); `[name]` for
//! the key of that name; `[down:name]`, `[up:name]` and `[repeat:name]`
//! for one event of it.
use vstd::prelude::*;
use super::{KeyCode, KeyEvents, MetaKey};
use super::keycodes::key_code_of_name;
use crate::text::{ascii_lower, is_ascii_char, is_ascii_upper, is_ascii_uppercase, lowercase_first, split_once_chars,
    split_once_spec, string_of, find_spec, lemma_find};

verus! {

/// Pressing and releasing a key, inside shift when asked.
pub open spec fn build_events_spec(key: KeyCode, with_shift: bool) -> Seq<KeyEvents> {
    if with_shift {
        seq![
            KeyEvents::KeyDown(KeyCode::Meta(MetaKey::Shift)),
            KeyEvents::KeyDown(key),
            KeyEvents::KeyUp(key),
            KeyEvents::KeyUp(KeyCode::Meta(MetaKey::Shift)),
        ]
    } else {
        seq![KeyEvents::KeyDown(key), KeyEvents::KeyUp(key)]
    }
}

/// The key of a name written in any case, pressed and released; with
/// shift when the name begins with an upper-case letter.
pub open spec fn to_key_events_spec(token: Seq<char>) -> Seq<KeyEvents> {
    build_events_spec(
        key_code_of_name(token.map_values(|c: char| ascii_lower(c))),
        token.len() > 0 && is_ascii_upper(token[0]),
    )
}

/// The events a token denotes: `action:name` is one event of the named
/// key (none for an unknown action); any other token is its key pressed
/// and released.
pub open spec fn parse_token_spec(token: Seq<char>) -> Option<Seq<KeyEvents>> {
    match split_once_spec(token, ':') {
        (_, None) => Some(to_key_events_spec(token)),
        (action, Some(name)) => {
            let key = key_code_of_name(name);
            if action == seq!['u', 'p'] {
                Some(seq![KeyEvents::KeyUp(key)])
            } else if action == seq!['d', 'o', 'w', 'n'] {
                Some(seq![KeyEvents::KeyDown(key)])
            } else if action == seq!['r', 'e', 'p', 'e', 'a', 't'] {
                Some(seq![KeyEvents::KeyRepeat(key)])
            } else {
                None
            }
        },
    }
}

/// The events that a text in the notation denotes.  Reading stops at a
/// `[` with no `]` after it and at a token that denotes nothing.
pub open spec fn key_events_spec(s: Seq<char>) -> Seq<KeyEvents>
    decreases s.len(),
{
    if s.len() == 0 {
        Seq::<KeyEvents>::empty()
    } else if s[0] == '[' {
        let tail = s.drop_first();
        let e: int = find_spec(tail, ']') as int;
        if e >= tail.len() {
            Seq::<KeyEvents>::empty()
        } else {
            match parse_token_spec(tail.subrange(0, e)) {
                Some(events) => events + key_events_spec(s.subrange(e + 2, s.len() as int)),
                None => Seq::<KeyEvents>::empty(),
            }
        }
    } else {
        match parse_token_spec(seq![s[0]]) {
            Some(events) => events + key_events_spec(s.drop_first()),
            None => Seq::<KeyEvents>::empty(),
        }
    }
}

fn build_events(key: KeyCode, with_shift: bool) -> (r: Vec<KeyEvents>)
    ensures
        r@ == build_events_spec(key, with_shift),
{
    if with_shift {
        let r = vec![
            KeyEvents::KeyDown(KeyCode::Meta(MetaKey::Shift)),
            KeyEvents::KeyDown(key),
            KeyEvents::KeyUp(key),
            KeyEvents::KeyUp(KeyCode::Meta(MetaKey::Shift)),
        ];
        assert(r@ =~= build_events_spec(key, with_shift));
        r
    } else {
        let r = vec![KeyEvents::KeyDown(key), KeyEvents::KeyUp(key)];
        assert(r@ =~= build_events_spec(key, with_shift));
        r
    }
}

fn to_key_events(token: &[char]) -> (r: Vec<KeyEvents>)
    requires
        forall|i: int| 0 <= i < token@.len() ==> is_ascii_char(#[trigger] token@[i]),
    ensures
        r@ == to_key_events_spec(token@),
{
    let mut lower: Vec<char> = Vec::new();
    let mut i: usize = 0;
    while i < token.len()
        invariant
            i <= token@.len(),
            forall|j: int| 0 <= j < token@.len() ==> is_ascii_char(#[trigger] token@[j]),
            lower@ == token@.subrange(0, i as int).map_values(|c: char| ascii_lower(c)),
        decreases token@.len() - i,
    {
        let c = lowercase_first(token[i]);
        lower.push(c);
        assert(token@.subrange(0, i + 1).map_values(|c: char| ascii_lower(c)) =~= token@.subrange(0, i as int).map_values(
            |c: char| ascii_lower(c),
        ).push(ascii_lower(token@[i as int])));
        i = i + 1;
    }
    assert(token@.subrange(0, token@.len() as int) =~= token@);
    let name = string_of(lower.as_slice());
    let key = KeyCode::from(name.as_str());
    let shift = token.len() > 0 && is_ascii_uppercase(token[0]);
    build_events(key, shift)
}

fn parse_token(token: &[char]) -> (r: Option<Vec<KeyEvents>>)
    requires
        forall|i: int| 0 <= i < token@.len() ==> is_ascii_char(#[trigger] token@[i]),
    ensures
        match (r, parse_token_spec(token@)) {
            (Some(a), Some(b)) => a@ == b,
            (None, None) => true,
            _ => false,
        },
{
    let (action, name) = split_once_chars(token, ':');
    match name {
        None => Some(to_key_events(token)),
        Some(name) => {
            let key = KeyCode::from(string_of(name.as_slice()).as_str());
            let action = string_of(action.as_slice());
            proof {
                reveal_strlit("up");
                reveal_strlit("down");
                reveal_strlit("repeat");
                assert("up"@ =~= seq!['u', 'p']);
                assert("down"@ =~= seq!['d', 'o', 'w', 'n']);
                assert("repeat"@ =~= seq!['r', 'e', 'p', 'e', 'a', 't']);
            }
            if crate::text::str_equal(action.as_str(), "up") {
                let r = vec![KeyEvents::KeyUp(key)];
                assert(r@ =~= seq![KeyEvents::KeyUp(key)]);
                Some(r)
            } else if crate::text::str_equal(action.as_str(), "down") {
                let r = vec![KeyEvents::KeyDown(key)];
                assert(r@ =~= seq![KeyEvents::KeyDown(key)]);
                Some(r)
            } else if crate::text::str_equal(action.as_str(), "repeat") {
                let r = vec![KeyEvents::KeyRepeat(key)];
                assert(r@ =~= seq![KeyEvents::KeyRepeat(key)]);
                Some(r)
            } else {
                None
            }
        },
    }
}

/// The key events that a text in the notation denotes.
pub fn str_to_key_code_vector(string: &str) -> (r: Vec<KeyEvents>)
    requires
        forall|i: int| 0 <= i < string@.len() ==> is_ascii_char(#[trigger] string@[i]),
    ensures
        r@ == key_events_spec(string@),
{
    let chars = crate::text::chars_of(string);
    let n: usize = chars.len();
    let mut out: Vec<KeyEvents> = Vec::new();
    let mut i: usize = 0;
    assert(chars@.subrange(0, n as int) =~= chars@);
    proof {
        if n == 0 {
            assert(chars@.subrange(0, 0) =~= Seq::<char>::empty());
            assert(out@ =~= Seq::<KeyEvents>::empty());
        }
    }
    while i < n
        invariant_except_break
            n == chars@.len(),
            chars@ == string@,
            i <= n,
            forall|j: int| 0 <= j < chars@.len() ==> is_ascii_char(#[trigger] chars@[j]),
            out@ + key_events_spec(chars@.subrange(i as int, n as int)) == key_events_spec(chars@),
            i == n ==> out@ == key_events_spec(chars@),
        ensures
            out@ == key_events_spec(chars@),
        decreases n - i,
    {
        let ghost s = chars@.subrange(i as int, n as int);
        if chars[i] == '[' {
            let mut e: usize = i + 1;
            while e < n && chars[e] != ']'
                invariant
                    i + 1 <= e <= n,
                    n == chars@.len(),
                    forall|j: int| i + 1 <= j < e ==> chars@[j] != ']',
                decreases n - e,
            {
                e = e + 1;
            }
            let ghost tail = s.drop_first();
            proof {
                assert(tail =~= chars@.subrange(i + 1, n as int));
                assert forall|j: int| 0 <= j < e - (i + 1) implies tail[j] != ']' by {
                    assert(tail[j] == chars@[i + 1 + j]);
                }
                if e < n {
                    assert(tail[e - (i + 1)] == chars@[e as int]);
                }
                lemma_find(tail, ']', e - (i + 1));
            }
            if e == n {
                assert(key_events_spec(s) =~= Seq::<KeyEvents>::empty());
                assert(out@ + Seq::<KeyEvents>::empty() =~= out@);
                break;
            }
            let mut token: Vec<char> = Vec::new();
            let mut k: usize = i + 1;
            while k < e
                invariant
                    i + 1 <= k <= e < n,
                    n == chars@.len(),
                    token@ == chars@.subrange(i + 1, k as int),
                decreases e - k,
            {
                token.push(chars[k]);
                assert(chars@.subrange(i + 1, k + 1) =~= chars@.subrange(i + 1, k as int).push(chars@[k as int]));
                k = k + 1;
            }
            proof {
                assert(token@ =~= tail.subrange(0, e - (i + 1)));
                assert(s.subrange(e - i + 1, s.len() as int) =~= chars@.subrange(e + 1, n as int));
            }
            match parse_token(token.as_slice()) {
                Some(events) => {
                    let ghost before = out@;
                    let mut events = events;
                    out.append(&mut events);
                    assert(out@ + key_events_spec(chars@.subrange(e + 1, n as int)) =~= before + key_events_spec(s));
                    i = e + 1;
                    proof {
                        if i == n {
                            assert(chars@.subrange(i as int, n as int) =~= Seq::<char>::empty());
                            assert(out@ + Seq::<KeyEvents>::empty() =~= out@);
                        }
                    }
                },
                None => {
                    assert(out@ + Seq::<KeyEvents>::empty() =~= out@);
                    break;
                },
            }
        } else {
            let one = vec![chars[i]];
            proof {
                assert(one@ =~= seq![s[0]]);
                assert(s.drop_first() =~= chars@.subrange(i + 1, n as int));
            }
            match parse_token(one.as_slice()) {
                Some(events) => {
                    let ghost before = out@;
                    let mut events = events;
                    out.append(&mut events);
                    assert(out@ + key_events_spec(chars@.subrange(i + 1, n as int)) =~= before + key_events_spec(s));
                    i = i + 1;
                    proof {
                        if i == n {
                            assert(chars@.subrange(i as int, n as int) =~= Seq::<char>::empty());
                            assert(out@ + Seq::<KeyEvents>::empty() =~= out@);
                        }
                    }
                },
                None => {
                    assert(out@ + Seq::<KeyEvents>::empty() =~= out@);
                    break;
                },
            }
        }
    }
    out
}

} // verus!
