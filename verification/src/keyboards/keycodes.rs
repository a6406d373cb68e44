//! Key codes, meta keys and key combinations.
use vstd::prelude::*;
use crate::text::str_equal;

verus! {

#[derive(PartialEq, Eq, Structural, Copy, Clone, Debug, Hash)]
pub enum MetaKey {
    Ctrl,
    Shift,
    Alt,
    Super,
    Enter,
    Space,
    Tab,
    Escape,
    Delete,
    Backspace,
    ArrowRight,
    ArrowDown,
    ArrowLeft,
    ArrowUp,
}

#[derive(PartialEq, Eq, Structural, Copy, Clone, Debug, Hash)]
pub enum KeyCode {
    Null,
    Meta(MetaKey),
    Printable(char),
    PrintableMeta(MetaKey, char),
}

/// The character a key types, if it types one.
pub open spec fn printable_of(key: KeyCode) -> Option<char> {
    match key {
        KeyCode::Printable(c) => Some(c),
        KeyCode::PrintableMeta(_, c) => Some(c),
        _ => None,
    }
}

/// The key that a key name denotes: the names of the meta keys, of enter,
/// space and tab (also as the characters themselves), "null" and the empty
/// name, and otherwise the key that types the name's first character.
pub open spec fn key_code_of_name(name: Seq<char>) -> KeyCode {
    if name == "ctrl"@ || name == "left_control"@ || name == "right_control"@ {
        KeyCode::Meta(MetaKey::Ctrl)
    } else if name == "shift"@ || name == "left_shift"@ || name == "right_shift"@ {
        KeyCode::Meta(MetaKey::Shift)
    } else if name == "alt"@ || name == "left_option"@ || name == "right_option"@ {
        KeyCode::Meta(MetaKey::Alt)
    } else if name == "super"@ || name == "left_command"@ || name == "right_command"@ {
        KeyCode::Meta(MetaKey::Super)
    } else if name == "enter"@ || name == "return"@ || name == "\n"@ {
        KeyCode::PrintableMeta(MetaKey::Enter, '\n')
    } else if name == "space"@ || name == " "@ {
        KeyCode::PrintableMeta(MetaKey::Space, ' ')
    } else if name == "tab"@ || name == "\t"@ {
        KeyCode::PrintableMeta(MetaKey::Tab, '\t')
    } else if name == "escape"@ {
        KeyCode::Meta(MetaKey::Escape)
    } else if name == "delete"@ {
        KeyCode::Meta(MetaKey::Delete)
    } else if name == "backspace"@ {
        KeyCode::Meta(MetaKey::Backspace)
    } else if name == "arrow_right"@ {
        KeyCode::Meta(MetaKey::ArrowRight)
    } else if name == "arrow_down"@ {
        KeyCode::Meta(MetaKey::ArrowDown)
    } else if name == "arrow_left"@ {
        KeyCode::Meta(MetaKey::ArrowLeft)
    } else if name == "arrow_up"@ {
        KeyCode::Meta(MetaKey::ArrowUp)
    } else if name == "null"@ {
        KeyCode::Null
    } else if name.len() == 0 {
        KeyCode::Null
    } else {
        KeyCode::Printable(name[0])
    }
}

/// The name of the key that a (macOS virtual) key code stands for.
pub open spec fn key_name_of_code(code: u16) -> Option<Seq<char>> {
    match code {
        0 => Some("a"@),
        11 => Some("b"@),
        8 => Some("c"@),
        2 => Some("d"@),
        14 => Some("e"@),
        3 => Some("f"@),
        5 => Some("g"@),
        4 => Some("h"@),
        34 => Some("i"@),
        38 => Some("j"@),
        40 => Some("k"@),
        37 => Some("l"@),
        46 => Some("m"@),
        45 => Some("n"@),
        31 => Some("o"@),
        35 => Some("p"@),
        12 => Some("q"@),
        15 => Some("r"@),
        1 => Some("s"@),
        17 => Some("t"@),
        32 => Some("u"@),
        9 => Some("v"@),
        13 => Some("w"@),
        7 => Some("x"@),
        16 => Some("y"@),
        6 => Some("z"@),
        29 => Some("0"@),
        18 => Some("1"@),
        19 => Some("2"@),
        20 => Some("3"@),
        21 => Some("4"@),
        23 => Some("5"@),
        22 => Some("6"@),
        26 => Some("7"@),
        28 => Some("8"@),
        25 => Some("9"@),
        27 => Some("-"@),
        24 => Some("="@),
        33 => Some("["@),
        30 => Some("]"@),
        42 => Some("\\"@),
        41 => Some(";"@),
        50 => Some("`"@),
        43 => Some(","@),
        47 => Some("."@),
        44 => Some("/"@),
        122 => Some("F1"@),
        120 => Some("F2"@),
        99 => Some("F3"@),
        118 => Some("F4"@),
        96 => Some("F5"@),
        97 => Some("F6"@),
        98 => Some("F7"@),
        100 => Some("F8"@),
        101 => Some("F9"@),
        109 => Some("F10"@),
        103 => Some("F11"@),
        111 => Some("F12"@),
        105 => Some("F13"@),
        107 => Some("F14"@),
        113 => Some("F15"@),
        106 => Some("F16"@),
        64 => Some("F17"@),
        79 => Some("F18"@),
        80 => Some("F19"@),
        48 => Some("tab"@),
        57 => Some("caps_lock"@),
        49 => Some("space"@),
        52 => Some("return"@),
        36 => Some("return"@),
        56 => Some("left_shift"@),
        60 => Some("right_shift"@),
        58 => Some("left_option"@),
        61 => Some("right_option"@),
        59 => Some("left_control"@),
        62 => Some("right_control"@),
        55 => Some("left_command"@),
        54 => Some("right_command"@),
        51 => Some("delete"@),
        53 => Some("escape"@),
        123 => Some("arrow_left"@),
        124 => Some("arrow_right"@),
        126 => Some("arrow_up"@),
        125 => Some("arrow_down"@),
        63 => Some("fn"@),
        116 => Some("home"@),
        121 => Some("end"@),
        115 => Some("page_up"@),
        119 => Some("page_down"@),
        71 => Some("clear"@),
        81 => Some("="@),
        75 => Some("/"@),
        67 => Some("*"@),
        78 => Some("–"@),
        69 => Some("+"@),
        76 => Some("enter"@),
        82 => Some("0"@),
        83 => Some("1"@),
        84 => Some("2"@),
        85 => Some("3"@),
        86 => Some("4"@),
        87 => Some("5"@),
        88 => Some("6"@),
        89 => Some("7"@),
        91 => Some("8"@),
        92 => Some("9"@),
        _ => None,
    }
}

impl KeyCode {
    pub fn printable_key(&self) -> (r: Option<char>)
        ensures
            r == printable_of(*self),
    {
        match self {
            KeyCode::Printable(character) => Some(*character),
            KeyCode::PrintableMeta(_, character) => Some(*character),
            _ => None,
        }
    }

    pub fn is_printable(&self) -> (r: bool)
        ensures
            r == printable_of(*self) is Some,
    {
        match self {
            KeyCode::Printable(_) => true,
            KeyCode::PrintableMeta(_, _) => true,
            _ => false,
        }
    }

    /// The key that a key name denotes.
    pub fn from(name: &str) -> (r: KeyCode)
        ensures
            r == key_code_of_name(name@),
    {
        if str_equal(name, "ctrl") || str_equal(name, "left_control") || str_equal(name, "right_control") {
            KeyCode::Meta(MetaKey::Ctrl)
        } else if str_equal(name, "shift") || str_equal(name, "left_shift") || str_equal(name, "right_shift") {
            KeyCode::Meta(MetaKey::Shift)
        } else if str_equal(name, "alt") || str_equal(name, "left_option") || str_equal(name, "right_option") {
            KeyCode::Meta(MetaKey::Alt)
        } else if str_equal(name, "super") || str_equal(name, "left_command") || str_equal(name, "right_command") {
            KeyCode::Meta(MetaKey::Super)
        } else if str_equal(name, "enter") || str_equal(name, "return") || str_equal(name, "\n") {
            KeyCode::PrintableMeta(MetaKey::Enter, '\n')
        } else if str_equal(name, "space") || str_equal(name, " ") {
            KeyCode::PrintableMeta(MetaKey::Space, ' ')
        } else if str_equal(name, "tab") || str_equal(name, "\t") {
            KeyCode::PrintableMeta(MetaKey::Tab, '\t')
        } else if str_equal(name, "escape") {
            KeyCode::Meta(MetaKey::Escape)
        } else if str_equal(name, "delete") {
            KeyCode::Meta(MetaKey::Delete)
        } else if str_equal(name, "backspace") {
            KeyCode::Meta(MetaKey::Backspace)
        } else if str_equal(name, "arrow_right") {
            KeyCode::Meta(MetaKey::ArrowRight)
        } else if str_equal(name, "arrow_down") {
            KeyCode::Meta(MetaKey::ArrowDown)
        } else if str_equal(name, "arrow_left") {
            KeyCode::Meta(MetaKey::ArrowLeft)
        } else if str_equal(name, "arrow_up") {
            KeyCode::Meta(MetaKey::ArrowUp)
        } else if str_equal(name, "null") {
            KeyCode::Null
        } else if name.unicode_len() == 0 {
            KeyCode::Null
        } else {
            KeyCode::Printable(name.get_char(0))
        }
    }

    /// The key of a (macOS virtual) key code; an error for unknown codes.
    pub fn try_from(code: u16) -> (r: Result<KeyCode, &'static str>)
        ensures
            match key_name_of_code(code) {
                Some(name) => r == Ok::<KeyCode, &'static str>(key_code_of_name(name)),
                None => r is Err,
            },
    {
        match code {
        0 => Ok(KeyCode::from("a")),
        11 => Ok(KeyCode::from("b")),
        8 => Ok(KeyCode::from("c")),
        2 => Ok(KeyCode::from("d")),
        14 => Ok(KeyCode::from("e")),
        3 => Ok(KeyCode::from("f")),
        5 => Ok(KeyCode::from("g")),
        4 => Ok(KeyCode::from("h")),
        34 => Ok(KeyCode::from("i")),
        38 => Ok(KeyCode::from("j")),
        40 => Ok(KeyCode::from("k")),
        37 => Ok(KeyCode::from("l")),
        46 => Ok(KeyCode::from("m")),
        45 => Ok(KeyCode::from("n")),
        31 => Ok(KeyCode::from("o")),
        35 => Ok(KeyCode::from("p")),
        12 => Ok(KeyCode::from("q")),
        15 => Ok(KeyCode::from("r")),
        1 => Ok(KeyCode::from("s")),
        17 => Ok(KeyCode::from("t")),
        32 => Ok(KeyCode::from("u")),
        9 => Ok(KeyCode::from("v")),
        13 => Ok(KeyCode::from("w")),
        7 => Ok(KeyCode::from("x")),
        16 => Ok(KeyCode::from("y")),
        6 => Ok(KeyCode::from("z")),
        29 => Ok(KeyCode::from("0")),
        18 => Ok(KeyCode::from("1")),
        19 => Ok(KeyCode::from("2")),
        20 => Ok(KeyCode::from("3")),
        21 => Ok(KeyCode::from("4")),
        23 => Ok(KeyCode::from("5")),
        22 => Ok(KeyCode::from("6")),
        26 => Ok(KeyCode::from("7")),
        28 => Ok(KeyCode::from("8")),
        25 => Ok(KeyCode::from("9")),
        27 => Ok(KeyCode::from("-")),
        24 => Ok(KeyCode::from("=")),
        33 => Ok(KeyCode::from("[")),
        30 => Ok(KeyCode::from("]")),
        42 => Ok(KeyCode::from("\\")),
        41 => Ok(KeyCode::from(";")),
        50 => Ok(KeyCode::from("`")),
        43 => Ok(KeyCode::from(",")),
        47 => Ok(KeyCode::from(".")),
        44 => Ok(KeyCode::from("/")),
        122 => Ok(KeyCode::from("F1")),
        120 => Ok(KeyCode::from("F2")),
        99 => Ok(KeyCode::from("F3")),
        118 => Ok(KeyCode::from("F4")),
        96 => Ok(KeyCode::from("F5")),
        97 => Ok(KeyCode::from("F6")),
        98 => Ok(KeyCode::from("F7")),
        100 => Ok(KeyCode::from("F8")),
        101 => Ok(KeyCode::from("F9")),
        109 => Ok(KeyCode::from("F10")),
        103 => Ok(KeyCode::from("F11")),
        111 => Ok(KeyCode::from("F12")),
        105 => Ok(KeyCode::from("F13")),
        107 => Ok(KeyCode::from("F14")),
        113 => Ok(KeyCode::from("F15")),
        106 => Ok(KeyCode::from("F16")),
        64 => Ok(KeyCode::from("F17")),
        79 => Ok(KeyCode::from("F18")),
        80 => Ok(KeyCode::from("F19")),
        48 => Ok(KeyCode::from("tab")),
        57 => Ok(KeyCode::from("caps_lock")),
        49 => Ok(KeyCode::from("space")),
        52 => Ok(KeyCode::from("return")),
        36 => Ok(KeyCode::from("return")),
        56 => Ok(KeyCode::from("left_shift")),
        60 => Ok(KeyCode::from("right_shift")),
        58 => Ok(KeyCode::from("left_option")),
        61 => Ok(KeyCode::from("right_option")),
        59 => Ok(KeyCode::from("left_control")),
        62 => Ok(KeyCode::from("right_control")),
        55 => Ok(KeyCode::from("left_command")),
        54 => Ok(KeyCode::from("right_command")),
        51 => Ok(KeyCode::from("delete")),
        53 => Ok(KeyCode::from("escape")),
        123 => Ok(KeyCode::from("arrow_left")),
        124 => Ok(KeyCode::from("arrow_right")),
        126 => Ok(KeyCode::from("arrow_up")),
        125 => Ok(KeyCode::from("arrow_down")),
        63 => Ok(KeyCode::from("fn")),
        116 => Ok(KeyCode::from("home")),
        121 => Ok(KeyCode::from("end")),
        115 => Ok(KeyCode::from("page_up")),
        119 => Ok(KeyCode::from("page_down")),
        71 => Ok(KeyCode::from("clear")),
        81 => Ok(KeyCode::from("=")),
        75 => Ok(KeyCode::from("/")),
        67 => Ok(KeyCode::from("*")),
        78 => Ok(KeyCode::from("–")),
        69 => Ok(KeyCode::from("+")),
        76 => Ok(KeyCode::from("enter")),
        82 => Ok(KeyCode::from("0")),
        83 => Ok(KeyCode::from("1")),
        84 => Ok(KeyCode::from("2")),
        85 => Ok(KeyCode::from("3")),
        86 => Ok(KeyCode::from("4")),
        87 => Ok(KeyCode::from("5")),
        88 => Ok(KeyCode::from("6")),
        89 => Ok(KeyCode::from("7")),
        91 => Ok(KeyCode::from("8")),
        92 => Ok(KeyCode::from("9")),
            _ => Err(""),
        }
    }
}

/// A combination of keys that must all be held.
#[derive(Clone, Debug)]
pub struct KeyCombination(Vec<KeyCode>);

impl KeyCombination {
    /// The keys of the combination.
    pub closed spec fn keys(&self) -> Set<KeyCode> {
        super::key_set(self.0@)
    }

    pub fn new(set: Vec<KeyCode>) -> (r: Self)
        ensures
            r.keys() == super::key_set(set@),
    {
        KeyCombination(set)
    }

    /// Whether every key of the combination is held.
    pub fn fulfilled(&self, pressed: &Vec<KeyCode>) -> (r: bool)
        ensures
            r == self.keys().subset_of(super::key_set(pressed@)),
    {
        let mut i: usize = 0;
        while i < self.0.len()
            invariant
                i <= self.0@.len(),
                forall|j: int| 0 <= j < i ==> pressed@.contains(#[trigger] self.0@[j]),
            decreases self.0@.len() - i,
        {
            if !super::contains_key(pressed, &self.0[i]) {
                assert(self.keys().contains(self.0@[i as int]));
                assert(!super::key_set(pressed@).contains(self.0@[i as int]));
                return false;
            }
            i = i + 1;
        }
        assert forall|k: KeyCode| self.keys().contains(k) implies super::key_set(pressed@).contains(k) by {
            let j = choose|j: int| 0 <= j < self.0@.len() && self.0@[j] == k;
            assert(pressed@.contains(self.0@[j]));
        }
        true
    }
}

/// Alternative key combinations, any of which will do.
#[derive(Clone, Debug)]
pub struct KeyCombinations(Vec<KeyCombination>);

impl KeyCombinations {
    /// The alternatives.
    pub closed spec fn alternatives(&self) -> Seq<KeyCombination> {
        self.0@
    }

    pub fn new(set: Vec<KeyCombination>) -> (r: Self)
        ensures
            r.alternatives() == set@,
    {
        KeyCombinations(set)
    }

    /// Whether some alternative is fulfilled.
    pub fn fulfilled(&self, pressed: &Vec<KeyCode>) -> (r: bool)
        ensures
            r == exists|i: int|
                0 <= i < self.alternatives().len() && #[trigger] self.alternatives()[i].keys().subset_of(
                    super::key_set(pressed@),
                ),
    {
        let mut i: usize = 0;
        while i < self.0.len()
            invariant
                i <= self.0@.len(),
                forall|j: int|
                    0 <= j < i ==> !(#[trigger] self.0@[j]).keys().subset_of(super::key_set(pressed@)),
            decreases self.0@.len() - i,
        {
            if self.0[i].fulfilled(pressed) {
                assert(self.alternatives()[i as int].keys().subset_of(super::key_set(pressed@)));
                return true;
            }
            i = i + 1;
        }
        false
    }
}

/// The code of each letter key: the macOS virtual key codes of the
/// letters of the ANSI layout.
pub open spec fn letter_key_code(x: char) -> u16 {
    if x == 'a' {
        0
    } else if x == 'b' {
        11
    } else if x == 'c' {
        8
    } else if x == 'd' {
        2
    } else if x == 'e' {
        14
    } else if x == 'f' {
        3
    } else if x == 'g' {
        5
    } else if x == 'h' {
        4
    } else if x == 'i' {
        34
    } else if x == 'j' {
        38
    } else if x == 'k' {
        40
    } else if x == 'l' {
        37
    } else if x == 'm' {
        46
    } else if x == 'n' {
        45
    } else if x == 'o' {
        31
    } else if x == 'p' {
        35
    } else if x == 'q' {
        12
    } else if x == 'r' {
        15
    } else if x == 's' {
        1
    } else if x == 't' {
        17
    } else if x == 'u' {
        32
    } else if x == 'v' {
        9
    } else if x == 'w' {
        13
    } else if x == 'x' {
        7
    } else if x == 'y' {
        16
    } else {
        6
    }
}

/// The letter keys and the letters a to z correspond one to one: each
/// letter has a key code whose key types that letter, and no two codes
/// name the same letter.
pub proof fn law_letter_key_codes(a: u16, b: u16, x: char)
    ensures
        'a' <= x <= 'z' ==> key_name_of_code(letter_key_code(x)) == Some(seq![x]),
        'a' <= x <= 'z' ==> key_code_of_name(seq![x]) == KeyCode::Printable(x),
        'a' <= x <= 'z' && key_name_of_code(a) == Some(seq![x]) && key_name_of_code(b) == Some(seq![x]) ==> a == b,
{
    lemma_letter_code_unique(a, x);
    lemma_letter_code_unique(b, x);
    if 'a' <= x <= 'z' {
        lemma_one_char_name(x);
        if x == 'a' {
            reveal_strlit("a");
            assert("a"@ =~= seq![x]);
        } else if x == 'b' {
            reveal_strlit("b");
            assert("b"@ =~= seq![x]);
        } else if x == 'c' {
            reveal_strlit("c");
            assert("c"@ =~= seq![x]);
        } else if x == 'd' {
            reveal_strlit("d");
            assert("d"@ =~= seq![x]);
        } else if x == 'e' {
            reveal_strlit("e");
            assert("e"@ =~= seq![x]);
        } else if x == 'f' {
            reveal_strlit("f");
            assert("f"@ =~= seq![x]);
        } else if x == 'g' {
            reveal_strlit("g");
            assert("g"@ =~= seq![x]);
        } else if x == 'h' {
            reveal_strlit("h");
            assert("h"@ =~= seq![x]);
        } else if x == 'i' {
            reveal_strlit("i");
            assert("i"@ =~= seq![x]);
        } else if x == 'j' {
            reveal_strlit("j");
            assert("j"@ =~= seq![x]);
        } else if x == 'k' {
            reveal_strlit("k");
            assert("k"@ =~= seq![x]);
        } else if x == 'l' {
            reveal_strlit("l");
            assert("l"@ =~= seq![x]);
        } else if x == 'm' {
            reveal_strlit("m");
            assert("m"@ =~= seq![x]);
        } else if x == 'n' {
            reveal_strlit("n");
            assert("n"@ =~= seq![x]);
        } else if x == 'o' {
            reveal_strlit("o");
            assert("o"@ =~= seq![x]);
        } else if x == 'p' {
            reveal_strlit("p");
            assert("p"@ =~= seq![x]);
        } else if x == 'q' {
            reveal_strlit("q");
            assert("q"@ =~= seq![x]);
        } else if x == 'r' {
            reveal_strlit("r");
            assert("r"@ =~= seq![x]);
        } else if x == 's' {
            reveal_strlit("s");
            assert("s"@ =~= seq![x]);
        } else if x == 't' {
            reveal_strlit("t");
            assert("t"@ =~= seq![x]);
        } else if x == 'u' {
            reveal_strlit("u");
            assert("u"@ =~= seq![x]);
        } else if x == 'v' {
            reveal_strlit("v");
            assert("v"@ =~= seq![x]);
        } else if x == 'w' {
            reveal_strlit("w");
            assert("w"@ =~= seq![x]);
        } else if x == 'x' {
            reveal_strlit("x");
            assert("x"@ =~= seq![x]);
        } else if x == 'y' {
            reveal_strlit("y");
            assert("y"@ =~= seq![x]);
        } else if x == 'z' {
            reveal_strlit("z");
            assert("z"@ =~= seq![x]);
        }
    }
}

proof fn lemma_letter_code_unique(code: u16, x: char)
    ensures
        'a' <= x <= 'z' && key_name_of_code(code) == Some(seq![x]) ==> code == letter_key_code(x),
{
    if key_name_of_code(code) == Some(seq![x]) && 'a' <= x <= 'z' {
        if code == 0 {
            reveal_strlit("a");
            assert("a"@ == seq![x]);
            assert("a"@.len() == seq![x].len());
            assert("a"@[0] == seq![x][0]);
        } else if code == 11 {
            reveal_strlit("b");
            assert("b"@ == seq![x]);
            assert("b"@.len() == seq![x].len());
            assert("b"@[0] == seq![x][0]);
        } else if code == 8 {
            reveal_strlit("c");
            assert("c"@ == seq![x]);
            assert("c"@.len() == seq![x].len());
            assert("c"@[0] == seq![x][0]);
        } else if code == 2 {
            reveal_strlit("d");
            assert("d"@ == seq![x]);
            assert("d"@.len() == seq![x].len());
            assert("d"@[0] == seq![x][0]);
        } else if code == 14 {
            reveal_strlit("e");
            assert("e"@ == seq![x]);
            assert("e"@.len() == seq![x].len());
            assert("e"@[0] == seq![x][0]);
        } else if code == 3 {
            reveal_strlit("f");
            assert("f"@ == seq![x]);
            assert("f"@.len() == seq![x].len());
            assert("f"@[0] == seq![x][0]);
        } else if code == 5 {
            reveal_strlit("g");
            assert("g"@ == seq![x]);
            assert("g"@.len() == seq![x].len());
            assert("g"@[0] == seq![x][0]);
        } else if code == 4 {
            reveal_strlit("h");
            assert("h"@ == seq![x]);
            assert("h"@.len() == seq![x].len());
            assert("h"@[0] == seq![x][0]);
        } else if code == 34 {
            reveal_strlit("i");
            assert("i"@ == seq![x]);
            assert("i"@.len() == seq![x].len());
            assert("i"@[0] == seq![x][0]);
        } else if code == 38 {
            reveal_strlit("j");
            assert("j"@ == seq![x]);
            assert("j"@.len() == seq![x].len());
            assert("j"@[0] == seq![x][0]);
        } else if code == 40 {
            reveal_strlit("k");
            assert("k"@ == seq![x]);
            assert("k"@.len() == seq![x].len());
            assert("k"@[0] == seq![x][0]);
        } else if code == 37 {
            reveal_strlit("l");
            assert("l"@ == seq![x]);
            assert("l"@.len() == seq![x].len());
            assert("l"@[0] == seq![x][0]);
        } else if code == 46 {
            reveal_strlit("m");
            assert("m"@ == seq![x]);
            assert("m"@.len() == seq![x].len());
            assert("m"@[0] == seq![x][0]);
        } else if code == 45 {
            reveal_strlit("n");
            assert("n"@ == seq![x]);
            assert("n"@.len() == seq![x].len());
            assert("n"@[0] == seq![x][0]);
        } else if code == 31 {
            reveal_strlit("o");
            assert("o"@ == seq![x]);
            assert("o"@.len() == seq![x].len());
            assert("o"@[0] == seq![x][0]);
        } else if code == 35 {
            reveal_strlit("p");
            assert("p"@ == seq![x]);
            assert("p"@.len() == seq![x].len());
            assert("p"@[0] == seq![x][0]);
        } else if code == 12 {
            reveal_strlit("q");
            assert("q"@ == seq![x]);
            assert("q"@.len() == seq![x].len());
            assert("q"@[0] == seq![x][0]);
        } else if code == 15 {
            reveal_strlit("r");
            assert("r"@ == seq![x]);
            assert("r"@.len() == seq![x].len());
            assert("r"@[0] == seq![x][0]);
        } else if code == 1 {
            reveal_strlit("s");
            assert("s"@ == seq![x]);
            assert("s"@.len() == seq![x].len());
            assert("s"@[0] == seq![x][0]);
        } else if code == 17 {
            reveal_strlit("t");
            assert("t"@ == seq![x]);
            assert("t"@.len() == seq![x].len());
            assert("t"@[0] == seq![x][0]);
        } else if code == 32 {
            reveal_strlit("u");
            assert("u"@ == seq![x]);
            assert("u"@.len() == seq![x].len());
            assert("u"@[0] == seq![x][0]);
        } else if code == 9 {
            reveal_strlit("v");
            assert("v"@ == seq![x]);
            assert("v"@.len() == seq![x].len());
            assert("v"@[0] == seq![x][0]);
        } else if code == 13 {
            reveal_strlit("w");
            assert("w"@ == seq![x]);
            assert("w"@.len() == seq![x].len());
            assert("w"@[0] == seq![x][0]);
        } else if code == 7 {
            reveal_strlit("x");
            assert("x"@ == seq![x]);
            assert("x"@.len() == seq![x].len());
            assert("x"@[0] == seq![x][0]);
        } else if code == 16 {
            reveal_strlit("y");
            assert("y"@ == seq![x]);
            assert("y"@.len() == seq![x].len());
            assert("y"@[0] == seq![x][0]);
        } else if code == 6 {
            reveal_strlit("z");
            assert("z"@ == seq![x]);
            assert("z"@.len() == seq![x].len());
            assert("z"@[0] == seq![x][0]);
        } else if code == 29 {
            reveal_strlit("0");
            assert("0"@ == seq![x]);
            assert("0"@.len() == seq![x].len());
            assert("0"@[0] == seq![x][0]);
        } else if code == 18 {
            reveal_strlit("1");
            assert("1"@ == seq![x]);
            assert("1"@.len() == seq![x].len());
            assert("1"@[0] == seq![x][0]);
        } else if code == 19 {
            reveal_strlit("2");
            assert("2"@ == seq![x]);
            assert("2"@.len() == seq![x].len());
            assert("2"@[0] == seq![x][0]);
        } else if code == 20 {
            reveal_strlit("3");
            assert("3"@ == seq![x]);
            assert("3"@.len() == seq![x].len());
            assert("3"@[0] == seq![x][0]);
        } else if code == 21 {
            reveal_strlit("4");
            assert("4"@ == seq![x]);
            assert("4"@.len() == seq![x].len());
            assert("4"@[0] == seq![x][0]);
        } else if code == 23 {
            reveal_strlit("5");
            assert("5"@ == seq![x]);
            assert("5"@.len() == seq![x].len());
            assert("5"@[0] == seq![x][0]);
        } else if code == 22 {
            reveal_strlit("6");
            assert("6"@ == seq![x]);
            assert("6"@.len() == seq![x].len());
            assert("6"@[0] == seq![x][0]);
        } else if code == 26 {
            reveal_strlit("7");
            assert("7"@ == seq![x]);
            assert("7"@.len() == seq![x].len());
            assert("7"@[0] == seq![x][0]);
        } else if code == 28 {
            reveal_strlit("8");
            assert("8"@ == seq![x]);
            assert("8"@.len() == seq![x].len());
            assert("8"@[0] == seq![x][0]);
        } else if code == 25 {
            reveal_strlit("9");
            assert("9"@ == seq![x]);
            assert("9"@.len() == seq![x].len());
            assert("9"@[0] == seq![x][0]);
        } else if code == 27 {
            reveal_strlit("-");
            assert("-"@ == seq![x]);
            assert("-"@.len() == seq![x].len());
            assert("-"@[0] == seq![x][0]);
        } else if code == 24 {
            reveal_strlit("=");
            assert("="@ == seq![x]);
            assert("="@.len() == seq![x].len());
            assert("="@[0] == seq![x][0]);
        } else if code == 33 {
            reveal_strlit("[");
            assert("["@ == seq![x]);
            assert("["@.len() == seq![x].len());
            assert("["@[0] == seq![x][0]);
        } else if code == 30 {
            reveal_strlit("]");
            assert("]"@ == seq![x]);
            assert("]"@.len() == seq![x].len());
            assert("]"@[0] == seq![x][0]);
        } else if code == 42 {
            reveal_strlit("\\");
            assert("\\"@ == seq![x]);
            assert("\\"@.len() == seq![x].len());
            assert("\\"@[0] == seq![x][0]);
        } else if code == 41 {
            reveal_strlit(";");
            assert(";"@ == seq![x]);
            assert(";"@.len() == seq![x].len());
            assert(";"@[0] == seq![x][0]);
        } else if code == 50 {
            reveal_strlit("`");
            assert("`"@ == seq![x]);
            assert("`"@.len() == seq![x].len());
            assert("`"@[0] == seq![x][0]);
        } else if code == 43 {
            reveal_strlit(",");
            assert(","@ == seq![x]);
            assert(","@.len() == seq![x].len());
            assert(","@[0] == seq![x][0]);
        } else if code == 47 {
            reveal_strlit(".");
            assert("."@ == seq![x]);
            assert("."@.len() == seq![x].len());
            assert("."@[0] == seq![x][0]);
        } else if code == 44 {
            reveal_strlit("/");
            assert("/"@ == seq![x]);
            assert("/"@.len() == seq![x].len());
            assert("/"@[0] == seq![x][0]);
        } else if code == 122 {
            reveal_strlit("F1");
            assert("F1"@ == seq![x]);
            assert("F1"@.len() == seq![x].len());
            assert("F1"@[0] == seq![x][0]);
        } else if code == 120 {
            reveal_strlit("F2");
            assert("F2"@ == seq![x]);
            assert("F2"@.len() == seq![x].len());
            assert("F2"@[0] == seq![x][0]);
        } else if code == 99 {
            reveal_strlit("F3");
            assert("F3"@ == seq![x]);
            assert("F3"@.len() == seq![x].len());
            assert("F3"@[0] == seq![x][0]);
        } else if code == 118 {
            reveal_strlit("F4");
            assert("F4"@ == seq![x]);
            assert("F4"@.len() == seq![x].len());
            assert("F4"@[0] == seq![x][0]);
        } else if code == 96 {
            reveal_strlit("F5");
            assert("F5"@ == seq![x]);
            assert("F5"@.len() == seq![x].len());
            assert("F5"@[0] == seq![x][0]);
        } else if code == 97 {
            reveal_strlit("F6");
            assert("F6"@ == seq![x]);
            assert("F6"@.len() == seq![x].len());
            assert("F6"@[0] == seq![x][0]);
        } else if code == 98 {
            reveal_strlit("F7");
            assert("F7"@ == seq![x]);
            assert("F7"@.len() == seq![x].len());
            assert("F7"@[0] == seq![x][0]);
        } else if code == 100 {
            reveal_strlit("F8");
            assert("F8"@ == seq![x]);
            assert("F8"@.len() == seq![x].len());
            assert("F8"@[0] == seq![x][0]);
        } else if code == 101 {
            reveal_strlit("F9");
            assert("F9"@ == seq![x]);
            assert("F9"@.len() == seq![x].len());
            assert("F9"@[0] == seq![x][0]);
        } else if code == 109 {
            reveal_strlit("F10");
            assert("F10"@ == seq![x]);
            assert("F10"@.len() == seq![x].len());
            assert("F10"@[0] == seq![x][0]);
        } else if code == 103 {
            reveal_strlit("F11");
            assert("F11"@ == seq![x]);
            assert("F11"@.len() == seq![x].len());
            assert("F11"@[0] == seq![x][0]);
        } else if code == 111 {
            reveal_strlit("F12");
            assert("F12"@ == seq![x]);
            assert("F12"@.len() == seq![x].len());
            assert("F12"@[0] == seq![x][0]);
        } else if code == 105 {
            reveal_strlit("F13");
            assert("F13"@ == seq![x]);
            assert("F13"@.len() == seq![x].len());
            assert("F13"@[0] == seq![x][0]);
        } else if code == 107 {
            reveal_strlit("F14");
            assert("F14"@ == seq![x]);
            assert("F14"@.len() == seq![x].len());
            assert("F14"@[0] == seq![x][0]);
        } else if code == 113 {
            reveal_strlit("F15");
            assert("F15"@ == seq![x]);
            assert("F15"@.len() == seq![x].len());
            assert("F15"@[0] == seq![x][0]);
        } else if code == 106 {
            reveal_strlit("F16");
            assert("F16"@ == seq![x]);
            assert("F16"@.len() == seq![x].len());
            assert("F16"@[0] == seq![x][0]);
        } else if code == 64 {
            reveal_strlit("F17");
            assert("F17"@ == seq![x]);
            assert("F17"@.len() == seq![x].len());
            assert("F17"@[0] == seq![x][0]);
        } else if code == 79 {
            reveal_strlit("F18");
            assert("F18"@ == seq![x]);
            assert("F18"@.len() == seq![x].len());
            assert("F18"@[0] == seq![x][0]);
        } else if code == 80 {
            reveal_strlit("F19");
            assert("F19"@ == seq![x]);
            assert("F19"@.len() == seq![x].len());
            assert("F19"@[0] == seq![x][0]);
        } else if code == 48 {
            reveal_strlit("tab");
            assert("tab"@ == seq![x]);
            assert("tab"@.len() == seq![x].len());
            assert("tab"@[0] == seq![x][0]);
        } else if code == 57 {
            reveal_strlit("caps_lock");
            assert("caps_lock"@ == seq![x]);
            assert("caps_lock"@.len() == seq![x].len());
            assert("caps_lock"@[0] == seq![x][0]);
        } else if code == 49 {
            reveal_strlit("space");
            assert("space"@ == seq![x]);
            assert("space"@.len() == seq![x].len());
            assert("space"@[0] == seq![x][0]);
        } else if code == 52 {
            reveal_strlit("return");
            assert("return"@ == seq![x]);
            assert("return"@.len() == seq![x].len());
            assert("return"@[0] == seq![x][0]);
        } else if code == 36 {
            reveal_strlit("return");
            assert("return"@ == seq![x]);
            assert("return"@.len() == seq![x].len());
            assert("return"@[0] == seq![x][0]);
        } else if code == 56 {
            reveal_strlit("left_shift");
            assert("left_shift"@ == seq![x]);
            assert("left_shift"@.len() == seq![x].len());
            assert("left_shift"@[0] == seq![x][0]);
        } else if code == 60 {
            reveal_strlit("right_shift");
            assert("right_shift"@ == seq![x]);
            assert("right_shift"@.len() == seq![x].len());
            assert("right_shift"@[0] == seq![x][0]);
        } else if code == 58 {
            reveal_strlit("left_option");
            assert("left_option"@ == seq![x]);
            assert("left_option"@.len() == seq![x].len());
            assert("left_option"@[0] == seq![x][0]);
        } else if code == 61 {
            reveal_strlit("right_option");
            assert("right_option"@ == seq![x]);
            assert("right_option"@.len() == seq![x].len());
            assert("right_option"@[0] == seq![x][0]);
        } else if code == 59 {
            reveal_strlit("left_control");
            assert("left_control"@ == seq![x]);
            assert("left_control"@.len() == seq![x].len());
            assert("left_control"@[0] == seq![x][0]);
        } else if code == 62 {
            reveal_strlit("right_control");
            assert("right_control"@ == seq![x]);
            assert("right_control"@.len() == seq![x].len());
            assert("right_control"@[0] == seq![x][0]);
        } else if code == 55 {
            reveal_strlit("left_command");
            assert("left_command"@ == seq![x]);
            assert("left_command"@.len() == seq![x].len());
            assert("left_command"@[0] == seq![x][0]);
        } else if code == 54 {
            reveal_strlit("right_command");
            assert("right_command"@ == seq![x]);
            assert("right_command"@.len() == seq![x].len());
            assert("right_command"@[0] == seq![x][0]);
        } else if code == 51 {
            reveal_strlit("delete");
            assert("delete"@ == seq![x]);
            assert("delete"@.len() == seq![x].len());
            assert("delete"@[0] == seq![x][0]);
        } else if code == 53 {
            reveal_strlit("escape");
            assert("escape"@ == seq![x]);
            assert("escape"@.len() == seq![x].len());
            assert("escape"@[0] == seq![x][0]);
        } else if code == 123 {
            reveal_strlit("arrow_left");
            assert("arrow_left"@ == seq![x]);
            assert("arrow_left"@.len() == seq![x].len());
            assert("arrow_left"@[0] == seq![x][0]);
        } else if code == 124 {
            reveal_strlit("arrow_right");
            assert("arrow_right"@ == seq![x]);
            assert("arrow_right"@.len() == seq![x].len());
            assert("arrow_right"@[0] == seq![x][0]);
        } else if code == 126 {
            reveal_strlit("arrow_up");
            assert("arrow_up"@ == seq![x]);
            assert("arrow_up"@.len() == seq![x].len());
            assert("arrow_up"@[0] == seq![x][0]);
        } else if code == 125 {
            reveal_strlit("arrow_down");
            assert("arrow_down"@ == seq![x]);
            assert("arrow_down"@.len() == seq![x].len());
            assert("arrow_down"@[0] == seq![x][0]);
        } else if code == 63 {
            reveal_strlit("fn");
            assert("fn"@ == seq![x]);
            assert("fn"@.len() == seq![x].len());
            assert("fn"@[0] == seq![x][0]);
        } else if code == 116 {
            reveal_strlit("home");
            assert("home"@ == seq![x]);
            assert("home"@.len() == seq![x].len());
            assert("home"@[0] == seq![x][0]);
        } else if code == 121 {
            reveal_strlit("end");
            assert("end"@ == seq![x]);
            assert("end"@.len() == seq![x].len());
            assert("end"@[0] == seq![x][0]);
        } else if code == 115 {
            reveal_strlit("page_up");
            assert("page_up"@ == seq![x]);
            assert("page_up"@.len() == seq![x].len());
            assert("page_up"@[0] == seq![x][0]);
        } else if code == 119 {
            reveal_strlit("page_down");
            assert("page_down"@ == seq![x]);
            assert("page_down"@.len() == seq![x].len());
            assert("page_down"@[0] == seq![x][0]);
        } else if code == 71 {
            reveal_strlit("clear");
            assert("clear"@ == seq![x]);
            assert("clear"@.len() == seq![x].len());
            assert("clear"@[0] == seq![x][0]);
        } else if code == 81 {
            reveal_strlit("=");
            assert("="@ == seq![x]);
            assert("="@.len() == seq![x].len());
            assert("="@[0] == seq![x][0]);
        } else if code == 75 {
            reveal_strlit("/");
            assert("/"@ == seq![x]);
            assert("/"@.len() == seq![x].len());
            assert("/"@[0] == seq![x][0]);
        } else if code == 67 {
            reveal_strlit("*");
            assert("*"@ == seq![x]);
            assert("*"@.len() == seq![x].len());
            assert("*"@[0] == seq![x][0]);
        } else if code == 78 {
            reveal_strlit("–");
            assert("–"@ == seq![x]);
            assert("–"@.len() == seq![x].len());
            assert("–"@[0] == seq![x][0]);
        } else if code == 69 {
            reveal_strlit("+");
            assert("+"@ == seq![x]);
            assert("+"@.len() == seq![x].len());
            assert("+"@[0] == seq![x][0]);
        } else if code == 76 {
            reveal_strlit("enter");
            assert("enter"@ == seq![x]);
            assert("enter"@.len() == seq![x].len());
            assert("enter"@[0] == seq![x][0]);
        } else if code == 82 {
            reveal_strlit("0");
            assert("0"@ == seq![x]);
            assert("0"@.len() == seq![x].len());
            assert("0"@[0] == seq![x][0]);
        } else if code == 83 {
            reveal_strlit("1");
            assert("1"@ == seq![x]);
            assert("1"@.len() == seq![x].len());
            assert("1"@[0] == seq![x][0]);
        } else if code == 84 {
            reveal_strlit("2");
            assert("2"@ == seq![x]);
            assert("2"@.len() == seq![x].len());
            assert("2"@[0] == seq![x][0]);
        } else if code == 85 {
            reveal_strlit("3");
            assert("3"@ == seq![x]);
            assert("3"@.len() == seq![x].len());
            assert("3"@[0] == seq![x][0]);
        } else if code == 86 {
            reveal_strlit("4");
            assert("4"@ == seq![x]);
            assert("4"@.len() == seq![x].len());
            assert("4"@[0] == seq![x][0]);
        } else if code == 87 {
            reveal_strlit("5");
            assert("5"@ == seq![x]);
            assert("5"@.len() == seq![x].len());
            assert("5"@[0] == seq![x][0]);
        } else if code == 88 {
            reveal_strlit("6");
            assert("6"@ == seq![x]);
            assert("6"@.len() == seq![x].len());
            assert("6"@[0] == seq![x][0]);
        } else if code == 89 {
            reveal_strlit("7");
            assert("7"@ == seq![x]);
            assert("7"@.len() == seq![x].len());
            assert("7"@[0] == seq![x][0]);
        } else if code == 91 {
            reveal_strlit("8");
            assert("8"@ == seq![x]);
            assert("8"@.len() == seq![x].len());
            assert("8"@[0] == seq![x][0]);
        } else if code == 92 {
            reveal_strlit("9");
            assert("9"@ == seq![x]);
            assert("9"@.len() == seq![x].len());
            assert("9"@[0] == seq![x][0]);
        }
    }
}

proof fn lemma_one_char_name(x: char)
    requires
        'a' <= x <= 'z' || '0' <= x <= '9',
    ensures
        key_code_of_name(seq![x]) == KeyCode::Printable(x),
{
    reveal_strlit(" ");
    assert(seq![x] != " "@) by {
        if seq![x] == " "@ {
            assert(seq![x].len() == " "@.len());
            assert(seq![x][0] == " "@[0]);
        }
    }
    reveal_strlit("\n");
    assert(seq![x] != "\n"@) by {
        if seq![x] == "\n"@ {
            assert(seq![x].len() == "\n"@.len());
            assert(seq![x][0] == "\n"@[0]);
        }
    }
    reveal_strlit("\t");
    assert(seq![x] != "\t"@) by {
        if seq![x] == "\t"@ {
            assert(seq![x].len() == "\t"@.len());
            assert(seq![x][0] == "\t"@[0]);
        }
    }
    reveal_strlit("alt");
    assert(seq![x] != "alt"@) by {
        if seq![x] == "alt"@ {
            assert(seq![x].len() == "alt"@.len());
            assert(seq![x][0] == "alt"@[0]);
        }
    }
    reveal_strlit("arrow_down");
    assert(seq![x] != "arrow_down"@) by {
        if seq![x] == "arrow_down"@ {
            assert(seq![x].len() == "arrow_down"@.len());
            assert(seq![x][0] == "arrow_down"@[0]);
        }
    }
    reveal_strlit("arrow_left");
    assert(seq![x] != "arrow_left"@) by {
        if seq![x] == "arrow_left"@ {
            assert(seq![x].len() == "arrow_left"@.len());
            assert(seq![x][0] == "arrow_left"@[0]);
        }
    }
    reveal_strlit("arrow_right");
    assert(seq![x] != "arrow_right"@) by {
        if seq![x] == "arrow_right"@ {
            assert(seq![x].len() == "arrow_right"@.len());
            assert(seq![x][0] == "arrow_right"@[0]);
        }
    }
    reveal_strlit("arrow_up");
    assert(seq![x] != "arrow_up"@) by {
        if seq![x] == "arrow_up"@ {
            assert(seq![x].len() == "arrow_up"@.len());
            assert(seq![x][0] == "arrow_up"@[0]);
        }
    }
    reveal_strlit("backspace");
    assert(seq![x] != "backspace"@) by {
        if seq![x] == "backspace"@ {
            assert(seq![x].len() == "backspace"@.len());
            assert(seq![x][0] == "backspace"@[0]);
        }
    }
    reveal_strlit("ctrl");
    assert(seq![x] != "ctrl"@) by {
        if seq![x] == "ctrl"@ {
            assert(seq![x].len() == "ctrl"@.len());
            assert(seq![x][0] == "ctrl"@[0]);
        }
    }
    reveal_strlit("delete");
    assert(seq![x] != "delete"@) by {
        if seq![x] == "delete"@ {
            assert(seq![x].len() == "delete"@.len());
            assert(seq![x][0] == "delete"@[0]);
        }
    }
    reveal_strlit("enter");
    assert(seq![x] != "enter"@) by {
        if seq![x] == "enter"@ {
            assert(seq![x].len() == "enter"@.len());
            assert(seq![x][0] == "enter"@[0]);
        }
    }
    reveal_strlit("escape");
    assert(seq![x] != "escape"@) by {
        if seq![x] == "escape"@ {
            assert(seq![x].len() == "escape"@.len());
            assert(seq![x][0] == "escape"@[0]);
        }
    }
    reveal_strlit("left_command");
    assert(seq![x] != "left_command"@) by {
        if seq![x] == "left_command"@ {
            assert(seq![x].len() == "left_command"@.len());
            assert(seq![x][0] == "left_command"@[0]);
        }
    }
    reveal_strlit("left_control");
    assert(seq![x] != "left_control"@) by {
        if seq![x] == "left_control"@ {
            assert(seq![x].len() == "left_control"@.len());
            assert(seq![x][0] == "left_control"@[0]);
        }
    }
    reveal_strlit("left_option");
    assert(seq![x] != "left_option"@) by {
        if seq![x] == "left_option"@ {
            assert(seq![x].len() == "left_option"@.len());
            assert(seq![x][0] == "left_option"@[0]);
        }
    }
    reveal_strlit("left_shift");
    assert(seq![x] != "left_shift"@) by {
        if seq![x] == "left_shift"@ {
            assert(seq![x].len() == "left_shift"@.len());
            assert(seq![x][0] == "left_shift"@[0]);
        }
    }
    reveal_strlit("null");
    assert(seq![x] != "null"@) by {
        if seq![x] == "null"@ {
            assert(seq![x].len() == "null"@.len());
            assert(seq![x][0] == "null"@[0]);
        }
    }
    reveal_strlit("return");
    assert(seq![x] != "return"@) by {
        if seq![x] == "return"@ {
            assert(seq![x].len() == "return"@.len());
            assert(seq![x][0] == "return"@[0]);
        }
    }
    reveal_strlit("right_command");
    assert(seq![x] != "right_command"@) by {
        if seq![x] == "right_command"@ {
            assert(seq![x].len() == "right_command"@.len());
            assert(seq![x][0] == "right_command"@[0]);
        }
    }
    reveal_strlit("right_control");
    assert(seq![x] != "right_control"@) by {
        if seq![x] == "right_control"@ {
            assert(seq![x].len() == "right_control"@.len());
            assert(seq![x][0] == "right_control"@[0]);
        }
    }
    reveal_strlit("right_option");
    assert(seq![x] != "right_option"@) by {
        if seq![x] == "right_option"@ {
            assert(seq![x].len() == "right_option"@.len());
            assert(seq![x][0] == "right_option"@[0]);
        }
    }
    reveal_strlit("right_shift");
    assert(seq![x] != "right_shift"@) by {
        if seq![x] == "right_shift"@ {
            assert(seq![x].len() == "right_shift"@.len());
            assert(seq![x][0] == "right_shift"@[0]);
        }
    }
    reveal_strlit("shift");
    assert(seq![x] != "shift"@) by {
        if seq![x] == "shift"@ {
            assert(seq![x].len() == "shift"@.len());
            assert(seq![x][0] == "shift"@[0]);
        }
    }
    reveal_strlit("space");
    assert(seq![x] != "space"@) by {
        if seq![x] == "space"@ {
            assert(seq![x].len() == "space"@.len());
            assert(seq![x][0] == "space"@[0]);
        }
    }
    reveal_strlit("super");
    assert(seq![x] != "super"@) by {
        if seq![x] == "super"@ {
            assert(seq![x].len() == "super"@.len());
            assert(seq![x][0] == "super"@[0]);
        }
    }
    reveal_strlit("tab");
    assert(seq![x] != "tab"@) by {
        if seq![x] == "tab"@ {
            assert(seq![x].len() == "tab"@.len());
            assert(seq![x][0] == "tab"@[0]);
        }
    }
}

/// The code of each digit key of the main row (macOS virtual key codes).
pub open spec fn digit_row_key_code(x: char) -> u16 {
    if x == '0' {
        29
    } else if x == '1' {
        18
    } else if x == '2' {
        19
    } else if x == '3' {
        20
    } else if x == '4' {
        21
    } else if x == '5' {
        23
    } else if x == '6' {
        22
    } else if x == '7' {
        26
    } else if x == '8' {
        28
    } else {
        25
    }
}

/// The code of each digit key of the keypad (macOS virtual key codes).
pub open spec fn keypad_key_code(x: char) -> u16 {
    if x == '0' {
        82
    } else if x == '1' {
        83
    } else if x == '2' {
        84
    } else if x == '3' {
        85
    } else if x == '4' {
        86
    } else if x == '5' {
        87
    } else if x == '6' {
        88
    } else if x == '7' {
        89
    } else if x == '8' {
        91
    } else {
        92
    }
}

/// Each digit has two keys, one in the main row and one on the keypad,
/// and both type the digit; no other code names a digit.
pub proof fn law_digit_key_codes(code: u16, x: char)
    ensures
        '0' <= x <= '9' ==> key_name_of_code(digit_row_key_code(x)) == Some(seq![x]),
        '0' <= x <= '9' ==> key_name_of_code(keypad_key_code(x)) == Some(seq![x]),
        '0' <= x <= '9' ==> key_code_of_name(seq![x]) == KeyCode::Printable(x),
        '0' <= x <= '9' && key_name_of_code(code) == Some(seq![x])
            ==> code == digit_row_key_code(x) || code == keypad_key_code(x),
{
    if '0' <= x <= '9' {
        lemma_one_char_name(x);
        if x == '0' {
            reveal_strlit("0");
            assert("0"@ =~= seq![x]);
        } else if x == '1' {
            reveal_strlit("1");
            assert("1"@ =~= seq![x]);
        } else if x == '2' {
            reveal_strlit("2");
            assert("2"@ =~= seq![x]);
        } else if x == '3' {
            reveal_strlit("3");
            assert("3"@ =~= seq![x]);
        } else if x == '4' {
            reveal_strlit("4");
            assert("4"@ =~= seq![x]);
        } else if x == '5' {
            reveal_strlit("5");
            assert("5"@ =~= seq![x]);
        } else if x == '6' {
            reveal_strlit("6");
            assert("6"@ =~= seq![x]);
        } else if x == '7' {
            reveal_strlit("7");
            assert("7"@ =~= seq![x]);
        } else if x == '8' {
            reveal_strlit("8");
            assert("8"@ =~= seq![x]);
        } else if x == '9' {
            reveal_strlit("9");
            assert("9"@ =~= seq![x]);
        }
        if key_name_of_code(code) == Some(seq![x]) {
            if code == 0 {
                reveal_strlit("a");
                assert("a"@ == seq![x]);
                assert("a"@.len() == seq![x].len());
                assert("a"@[0] == seq![x][0]);
            } else if code == 11 {
                reveal_strlit("b");
                assert("b"@ == seq![x]);
                assert("b"@.len() == seq![x].len());
                assert("b"@[0] == seq![x][0]);
            } else if code == 8 {
                reveal_strlit("c");
                assert("c"@ == seq![x]);
                assert("c"@.len() == seq![x].len());
                assert("c"@[0] == seq![x][0]);
            } else if code == 2 {
                reveal_strlit("d");
                assert("d"@ == seq![x]);
                assert("d"@.len() == seq![x].len());
                assert("d"@[0] == seq![x][0]);
            } else if code == 14 {
                reveal_strlit("e");
                assert("e"@ == seq![x]);
                assert("e"@.len() == seq![x].len());
                assert("e"@[0] == seq![x][0]);
            } else if code == 3 {
                reveal_strlit("f");
                assert("f"@ == seq![x]);
                assert("f"@.len() == seq![x].len());
                assert("f"@[0] == seq![x][0]);
            } else if code == 5 {
                reveal_strlit("g");
                assert("g"@ == seq![x]);
                assert("g"@.len() == seq![x].len());
                assert("g"@[0] == seq![x][0]);
            } else if code == 4 {
                reveal_strlit("h");
                assert("h"@ == seq![x]);
                assert("h"@.len() == seq![x].len());
                assert("h"@[0] == seq![x][0]);
            } else if code == 34 {
                reveal_strlit("i");
                assert("i"@ == seq![x]);
                assert("i"@.len() == seq![x].len());
                assert("i"@[0] == seq![x][0]);
            } else if code == 38 {
                reveal_strlit("j");
                assert("j"@ == seq![x]);
                assert("j"@.len() == seq![x].len());
                assert("j"@[0] == seq![x][0]);
            } else if code == 40 {
                reveal_strlit("k");
                assert("k"@ == seq![x]);
                assert("k"@.len() == seq![x].len());
                assert("k"@[0] == seq![x][0]);
            } else if code == 37 {
                reveal_strlit("l");
                assert("l"@ == seq![x]);
                assert("l"@.len() == seq![x].len());
                assert("l"@[0] == seq![x][0]);
            } else if code == 46 {
                reveal_strlit("m");
                assert("m"@ == seq![x]);
                assert("m"@.len() == seq![x].len());
                assert("m"@[0] == seq![x][0]);
            } else if code == 45 {
                reveal_strlit("n");
                assert("n"@ == seq![x]);
                assert("n"@.len() == seq![x].len());
                assert("n"@[0] == seq![x][0]);
            } else if code == 31 {
                reveal_strlit("o");
                assert("o"@ == seq![x]);
                assert("o"@.len() == seq![x].len());
                assert("o"@[0] == seq![x][0]);
            } else if code == 35 {
                reveal_strlit("p");
                assert("p"@ == seq![x]);
                assert("p"@.len() == seq![x].len());
                assert("p"@[0] == seq![x][0]);
            } else if code == 12 {
                reveal_strlit("q");
                assert("q"@ == seq![x]);
                assert("q"@.len() == seq![x].len());
                assert("q"@[0] == seq![x][0]);
            } else if code == 15 {
                reveal_strlit("r");
                assert("r"@ == seq![x]);
                assert("r"@.len() == seq![x].len());
                assert("r"@[0] == seq![x][0]);
            } else if code == 1 {
                reveal_strlit("s");
                assert("s"@ == seq![x]);
                assert("s"@.len() == seq![x].len());
                assert("s"@[0] == seq![x][0]);
            } else if code == 17 {
                reveal_strlit("t");
                assert("t"@ == seq![x]);
                assert("t"@.len() == seq![x].len());
                assert("t"@[0] == seq![x][0]);
            } else if code == 32 {
                reveal_strlit("u");
                assert("u"@ == seq![x]);
                assert("u"@.len() == seq![x].len());
                assert("u"@[0] == seq![x][0]);
            } else if code == 9 {
                reveal_strlit("v");
                assert("v"@ == seq![x]);
                assert("v"@.len() == seq![x].len());
                assert("v"@[0] == seq![x][0]);
            } else if code == 13 {
                reveal_strlit("w");
                assert("w"@ == seq![x]);
                assert("w"@.len() == seq![x].len());
                assert("w"@[0] == seq![x][0]);
            } else if code == 7 {
                reveal_strlit("x");
                assert("x"@ == seq![x]);
                assert("x"@.len() == seq![x].len());
                assert("x"@[0] == seq![x][0]);
            } else if code == 16 {
                reveal_strlit("y");
                assert("y"@ == seq![x]);
                assert("y"@.len() == seq![x].len());
                assert("y"@[0] == seq![x][0]);
            } else if code == 6 {
                reveal_strlit("z");
                assert("z"@ == seq![x]);
                assert("z"@.len() == seq![x].len());
                assert("z"@[0] == seq![x][0]);
            } else if code == 29 {
                reveal_strlit("0");
                assert("0"@ == seq![x]);
                assert("0"@.len() == seq![x].len());
                assert("0"@[0] == seq![x][0]);
            } else if code == 18 {
                reveal_strlit("1");
                assert("1"@ == seq![x]);
                assert("1"@.len() == seq![x].len());
                assert("1"@[0] == seq![x][0]);
            } else if code == 19 {
                reveal_strlit("2");
                assert("2"@ == seq![x]);
                assert("2"@.len() == seq![x].len());
                assert("2"@[0] == seq![x][0]);
            } else if code == 20 {
                reveal_strlit("3");
                assert("3"@ == seq![x]);
                assert("3"@.len() == seq![x].len());
                assert("3"@[0] == seq![x][0]);
            } else if code == 21 {
                reveal_strlit("4");
                assert("4"@ == seq![x]);
                assert("4"@.len() == seq![x].len());
                assert("4"@[0] == seq![x][0]);
            } else if code == 23 {
                reveal_strlit("5");
                assert("5"@ == seq![x]);
                assert("5"@.len() == seq![x].len());
                assert("5"@[0] == seq![x][0]);
            } else if code == 22 {
                reveal_strlit("6");
                assert("6"@ == seq![x]);
                assert("6"@.len() == seq![x].len());
                assert("6"@[0] == seq![x][0]);
            } else if code == 26 {
                reveal_strlit("7");
                assert("7"@ == seq![x]);
                assert("7"@.len() == seq![x].len());
                assert("7"@[0] == seq![x][0]);
            } else if code == 28 {
                reveal_strlit("8");
                assert("8"@ == seq![x]);
                assert("8"@.len() == seq![x].len());
                assert("8"@[0] == seq![x][0]);
            } else if code == 25 {
                reveal_strlit("9");
                assert("9"@ == seq![x]);
                assert("9"@.len() == seq![x].len());
                assert("9"@[0] == seq![x][0]);
            } else if code == 27 {
                reveal_strlit("-");
                assert("-"@ == seq![x]);
                assert("-"@.len() == seq![x].len());
                assert("-"@[0] == seq![x][0]);
            } else if code == 24 {
                reveal_strlit("=");
                assert("="@ == seq![x]);
                assert("="@.len() == seq![x].len());
                assert("="@[0] == seq![x][0]);
            } else if code == 33 {
                reveal_strlit("[");
                assert("["@ == seq![x]);
                assert("["@.len() == seq![x].len());
                assert("["@[0] == seq![x][0]);
            } else if code == 30 {
                reveal_strlit("]");
                assert("]"@ == seq![x]);
                assert("]"@.len() == seq![x].len());
                assert("]"@[0] == seq![x][0]);
            } else if code == 42 {
                reveal_strlit("\\");
                assert("\\"@ == seq![x]);
                assert("\\"@.len() == seq![x].len());
                assert("\\"@[0] == seq![x][0]);
            } else if code == 41 {
                reveal_strlit(";");
                assert(";"@ == seq![x]);
                assert(";"@.len() == seq![x].len());
                assert(";"@[0] == seq![x][0]);
            } else if code == 50 {
                reveal_strlit("`");
                assert("`"@ == seq![x]);
                assert("`"@.len() == seq![x].len());
                assert("`"@[0] == seq![x][0]);
            } else if code == 43 {
                reveal_strlit(",");
                assert(","@ == seq![x]);
                assert(","@.len() == seq![x].len());
                assert(","@[0] == seq![x][0]);
            } else if code == 47 {
                reveal_strlit(".");
                assert("."@ == seq![x]);
                assert("."@.len() == seq![x].len());
                assert("."@[0] == seq![x][0]);
            } else if code == 44 {
                reveal_strlit("/");
                assert("/"@ == seq![x]);
                assert("/"@.len() == seq![x].len());
                assert("/"@[0] == seq![x][0]);
            } else if code == 122 {
                reveal_strlit("F1");
                assert("F1"@ == seq![x]);
                assert("F1"@.len() == seq![x].len());
                assert("F1"@[0] == seq![x][0]);
            } else if code == 120 {
                reveal_strlit("F2");
                assert("F2"@ == seq![x]);
                assert("F2"@.len() == seq![x].len());
                assert("F2"@[0] == seq![x][0]);
            } else if code == 99 {
                reveal_strlit("F3");
                assert("F3"@ == seq![x]);
                assert("F3"@.len() == seq![x].len());
                assert("F3"@[0] == seq![x][0]);
            } else if code == 118 {
                reveal_strlit("F4");
                assert("F4"@ == seq![x]);
                assert("F4"@.len() == seq![x].len());
                assert("F4"@[0] == seq![x][0]);
            } else if code == 96 {
                reveal_strlit("F5");
                assert("F5"@ == seq![x]);
                assert("F5"@.len() == seq![x].len());
                assert("F5"@[0] == seq![x][0]);
            } else if code == 97 {
                reveal_strlit("F6");
                assert("F6"@ == seq![x]);
                assert("F6"@.len() == seq![x].len());
                assert("F6"@[0] == seq![x][0]);
            } else if code == 98 {
                reveal_strlit("F7");
                assert("F7"@ == seq![x]);
                assert("F7"@.len() == seq![x].len());
                assert("F7"@[0] == seq![x][0]);
            } else if code == 100 {
                reveal_strlit("F8");
                assert("F8"@ == seq![x]);
                assert("F8"@.len() == seq![x].len());
                assert("F8"@[0] == seq![x][0]);
            } else if code == 101 {
                reveal_strlit("F9");
                assert("F9"@ == seq![x]);
                assert("F9"@.len() == seq![x].len());
                assert("F9"@[0] == seq![x][0]);
            } else if code == 109 {
                reveal_strlit("F10");
                assert("F10"@ == seq![x]);
                assert("F10"@.len() == seq![x].len());
                assert("F10"@[0] == seq![x][0]);
            } else if code == 103 {
                reveal_strlit("F11");
                assert("F11"@ == seq![x]);
                assert("F11"@.len() == seq![x].len());
                assert("F11"@[0] == seq![x][0]);
            } else if code == 111 {
                reveal_strlit("F12");
                assert("F12"@ == seq![x]);
                assert("F12"@.len() == seq![x].len());
                assert("F12"@[0] == seq![x][0]);
            } else if code == 105 {
                reveal_strlit("F13");
                assert("F13"@ == seq![x]);
                assert("F13"@.len() == seq![x].len());
                assert("F13"@[0] == seq![x][0]);
            } else if code == 107 {
                reveal_strlit("F14");
                assert("F14"@ == seq![x]);
                assert("F14"@.len() == seq![x].len());
                assert("F14"@[0] == seq![x][0]);
            } else if code == 113 {
                reveal_strlit("F15");
                assert("F15"@ == seq![x]);
                assert("F15"@.len() == seq![x].len());
                assert("F15"@[0] == seq![x][0]);
            } else if code == 106 {
                reveal_strlit("F16");
                assert("F16"@ == seq![x]);
                assert("F16"@.len() == seq![x].len());
                assert("F16"@[0] == seq![x][0]);
            } else if code == 64 {
                reveal_strlit("F17");
                assert("F17"@ == seq![x]);
                assert("F17"@.len() == seq![x].len());
                assert("F17"@[0] == seq![x][0]);
            } else if code == 79 {
                reveal_strlit("F18");
                assert("F18"@ == seq![x]);
                assert("F18"@.len() == seq![x].len());
                assert("F18"@[0] == seq![x][0]);
            } else if code == 80 {
                reveal_strlit("F19");
                assert("F19"@ == seq![x]);
                assert("F19"@.len() == seq![x].len());
                assert("F19"@[0] == seq![x][0]);
            } else if code == 48 {
                reveal_strlit("tab");
                assert("tab"@ == seq![x]);
                assert("tab"@.len() == seq![x].len());
                assert("tab"@[0] == seq![x][0]);
            } else if code == 57 {
                reveal_strlit("caps_lock");
                assert("caps_lock"@ == seq![x]);
                assert("caps_lock"@.len() == seq![x].len());
                assert("caps_lock"@[0] == seq![x][0]);
            } else if code == 49 {
                reveal_strlit("space");
                assert("space"@ == seq![x]);
                assert("space"@.len() == seq![x].len());
                assert("space"@[0] == seq![x][0]);
            } else if code == 52 {
                reveal_strlit("return");
                assert("return"@ == seq![x]);
                assert("return"@.len() == seq![x].len());
                assert("return"@[0] == seq![x][0]);
            } else if code == 36 {
                reveal_strlit("return");
                assert("return"@ == seq![x]);
                assert("return"@.len() == seq![x].len());
                assert("return"@[0] == seq![x][0]);
            } else if code == 56 {
                reveal_strlit("left_shift");
                assert("left_shift"@ == seq![x]);
                assert("left_shift"@.len() == seq![x].len());
                assert("left_shift"@[0] == seq![x][0]);
            } else if code == 60 {
                reveal_strlit("right_shift");
                assert("right_shift"@ == seq![x]);
                assert("right_shift"@.len() == seq![x].len());
                assert("right_shift"@[0] == seq![x][0]);
            } else if code == 58 {
                reveal_strlit("left_option");
                assert("left_option"@ == seq![x]);
                assert("left_option"@.len() == seq![x].len());
                assert("left_option"@[0] == seq![x][0]);
            } else if code == 61 {
                reveal_strlit("right_option");
                assert("right_option"@ == seq![x]);
                assert("right_option"@.len() == seq![x].len());
                assert("right_option"@[0] == seq![x][0]);
            } else if code == 59 {
                reveal_strlit("left_control");
                assert("left_control"@ == seq![x]);
                assert("left_control"@.len() == seq![x].len());
                assert("left_control"@[0] == seq![x][0]);
            } else if code == 62 {
                reveal_strlit("right_control");
                assert("right_control"@ == seq![x]);
                assert("right_control"@.len() == seq![x].len());
                assert("right_control"@[0] == seq![x][0]);
            } else if code == 55 {
                reveal_strlit("left_command");
                assert("left_command"@ == seq![x]);
                assert("left_command"@.len() == seq![x].len());
                assert("left_command"@[0] == seq![x][0]);
            } else if code == 54 {
                reveal_strlit("right_command");
                assert("right_command"@ == seq![x]);
                assert("right_command"@.len() == seq![x].len());
                assert("right_command"@[0] == seq![x][0]);
            } else if code == 51 {
                reveal_strlit("delete");
                assert("delete"@ == seq![x]);
                assert("delete"@.len() == seq![x].len());
                assert("delete"@[0] == seq![x][0]);
            } else if code == 53 {
                reveal_strlit("escape");
                assert("escape"@ == seq![x]);
                assert("escape"@.len() == seq![x].len());
                assert("escape"@[0] == seq![x][0]);
            } else if code == 123 {
                reveal_strlit("arrow_left");
                assert("arrow_left"@ == seq![x]);
                assert("arrow_left"@.len() == seq![x].len());
                assert("arrow_left"@[0] == seq![x][0]);
            } else if code == 124 {
                reveal_strlit("arrow_right");
                assert("arrow_right"@ == seq![x]);
                assert("arrow_right"@.len() == seq![x].len());
                assert("arrow_right"@[0] == seq![x][0]);
            } else if code == 126 {
                reveal_strlit("arrow_up");
                assert("arrow_up"@ == seq![x]);
                assert("arrow_up"@.len() == seq![x].len());
                assert("arrow_up"@[0] == seq![x][0]);
            } else if code == 125 {
                reveal_strlit("arrow_down");
                assert("arrow_down"@ == seq![x]);
                assert("arrow_down"@.len() == seq![x].len());
                assert("arrow_down"@[0] == seq![x][0]);
            } else if code == 63 {
                reveal_strlit("fn");
                assert("fn"@ == seq![x]);
                assert("fn"@.len() == seq![x].len());
                assert("fn"@[0] == seq![x][0]);
            } else if code == 116 {
                reveal_strlit("home");
                assert("home"@ == seq![x]);
                assert("home"@.len() == seq![x].len());
                assert("home"@[0] == seq![x][0]);
            } else if code == 121 {
                reveal_strlit("end");
                assert("end"@ == seq![x]);
                assert("end"@.len() == seq![x].len());
                assert("end"@[0] == seq![x][0]);
            } else if code == 115 {
                reveal_strlit("page_up");
                assert("page_up"@ == seq![x]);
                assert("page_up"@.len() == seq![x].len());
                assert("page_up"@[0] == seq![x][0]);
            } else if code == 119 {
                reveal_strlit("page_down");
                assert("page_down"@ == seq![x]);
                assert("page_down"@.len() == seq![x].len());
                assert("page_down"@[0] == seq![x][0]);
            } else if code == 71 {
                reveal_strlit("clear");
                assert("clear"@ == seq![x]);
                assert("clear"@.len() == seq![x].len());
                assert("clear"@[0] == seq![x][0]);
            } else if code == 81 {
                reveal_strlit("=");
                assert("="@ == seq![x]);
                assert("="@.len() == seq![x].len());
                assert("="@[0] == seq![x][0]);
            } else if code == 75 {
                reveal_strlit("/");
                assert("/"@ == seq![x]);
                assert("/"@.len() == seq![x].len());
                assert("/"@[0] == seq![x][0]);
            } else if code == 67 {
                reveal_strlit("*");
                assert("*"@ == seq![x]);
                assert("*"@.len() == seq![x].len());
                assert("*"@[0] == seq![x][0]);
            } else if code == 78 {
                reveal_strlit("–");
                assert("–"@ == seq![x]);
                assert("–"@.len() == seq![x].len());
                assert("–"@[0] == seq![x][0]);
            } else if code == 69 {
                reveal_strlit("+");
                assert("+"@ == seq![x]);
                assert("+"@.len() == seq![x].len());
                assert("+"@[0] == seq![x][0]);
            } else if code == 76 {
                reveal_strlit("enter");
                assert("enter"@ == seq![x]);
                assert("enter"@.len() == seq![x].len());
                assert("enter"@[0] == seq![x][0]);
            } else if code == 82 {
                reveal_strlit("0");
                assert("0"@ == seq![x]);
                assert("0"@.len() == seq![x].len());
                assert("0"@[0] == seq![x][0]);
            } else if code == 83 {
                reveal_strlit("1");
                assert("1"@ == seq![x]);
                assert("1"@.len() == seq![x].len());
                assert("1"@[0] == seq![x][0]);
            } else if code == 84 {
                reveal_strlit("2");
                assert("2"@ == seq![x]);
                assert("2"@.len() == seq![x].len());
                assert("2"@[0] == seq![x][0]);
            } else if code == 85 {
                reveal_strlit("3");
                assert("3"@ == seq![x]);
                assert("3"@.len() == seq![x].len());
                assert("3"@[0] == seq![x][0]);
            } else if code == 86 {
                reveal_strlit("4");
                assert("4"@ == seq![x]);
                assert("4"@.len() == seq![x].len());
                assert("4"@[0] == seq![x][0]);
            } else if code == 87 {
                reveal_strlit("5");
                assert("5"@ == seq![x]);
                assert("5"@.len() == seq![x].len());
                assert("5"@[0] == seq![x][0]);
            } else if code == 88 {
                reveal_strlit("6");
                assert("6"@ == seq![x]);
                assert("6"@.len() == seq![x].len());
                assert("6"@[0] == seq![x][0]);
            } else if code == 89 {
                reveal_strlit("7");
                assert("7"@ == seq![x]);
                assert("7"@.len() == seq![x].len());
                assert("7"@[0] == seq![x][0]);
            } else if code == 91 {
                reveal_strlit("8");
                assert("8"@ == seq![x]);
                assert("8"@.len() == seq![x].len());
                assert("8"@[0] == seq![x][0]);
            } else if code == 92 {
                reveal_strlit("9");
                assert("9"@ == seq![x]);
                assert("9"@.len() == seq![x].len());
                assert("9"@[0] == seq![x][0]);
            }
        }
    }
}

} // verus!
