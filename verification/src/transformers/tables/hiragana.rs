//! The romaji-to-hiragana table.
use vstd::prelude::*;
use super::{BufferPair, LetterType, rule_matches, pairs_from_rule};
use crate::transformers::BufferState;
use crate::text::lowercase_first;

verus! {

/// The rule of the hiragana table for a pending romaji prefix (at most two
/// characters) and a typed character: the pieces it turns into, each with
/// whether it is finished.
pub open spec fn hiragana_table(p0: Option<char>, p1: Option<char>, c: char) -> Option<Seq<(Seq<char>, BufferState)>> {
    match (p0, p1, c) {
        (None, None, 'a') => Some(seq![("あ"@, BufferState::Stop)]),
        (None, None, 'i') => Some(seq![("い"@, BufferState::Stop)]),
        (None, None, 'u') => Some(seq![("う"@, BufferState::Stop)]),
        (None, None, 'e') => Some(seq![("え"@, BufferState::Stop)]),
        (None, None, 'o') => Some(seq![("お"@, BufferState::Stop)]),
        (None, None, 'k') => Some(seq![("k"@, BufferState::Continue)]),
        (Some('k'), None, 'a') => Some(seq![("か"@, BufferState::Stop)]),
        (Some('k'), None, 'i') => Some(seq![("き"@, BufferState::Stop)]),
        (Some('k'), None, 'u') => Some(seq![("く"@, BufferState::Stop)]),
        (Some('k'), None, 'e') => Some(seq![("け"@, BufferState::Stop)]),
        (Some('k'), None, 'o') => Some(seq![("こ"@, BufferState::Stop)]),
        (None, None, 'g') => Some(seq![("g"@, BufferState::Continue)]),
        (Some('g'), None, 'a') => Some(seq![("が"@, BufferState::Stop)]),
        (Some('g'), None, 'i') => Some(seq![("ぎ"@, BufferState::Stop)]),
        (Some('g'), None, 'u') => Some(seq![("ぐ"@, BufferState::Stop)]),
        (Some('g'), None, 'e') => Some(seq![("げ"@, BufferState::Stop)]),
        (Some('g'), None, 'o') => Some(seq![("ご"@, BufferState::Stop)]),
        (None, None, 's') => Some(seq![("s"@, BufferState::Continue)]),
        (Some('s'), None, 'a') => Some(seq![("さ"@, BufferState::Stop)]),
        (Some('s'), None, 'i') => Some(seq![("し"@, BufferState::Stop)]),
        (Some('s'), None, 'u') => Some(seq![("す"@, BufferState::Stop)]),
        (Some('s'), None, 'e') => Some(seq![("せ"@, BufferState::Stop)]),
        (Some('s'), None, 'o') => Some(seq![("そ"@, BufferState::Stop)]),
        (None, None, 'z') => Some(seq![("z"@, BufferState::Continue)]),
        (Some('z'), None, 'a') => Some(seq![("ざ"@, BufferState::Stop)]),
        (Some('z'), None, 'i') => Some(seq![("じ"@, BufferState::Stop)]),
        (Some('z'), None, 'u') => Some(seq![("ず"@, BufferState::Stop)]),
        (Some('z'), None, 'e') => Some(seq![("で"@, BufferState::Stop)]),
        (Some('z'), None, 'o') => Some(seq![("ど"@, BufferState::Stop)]),
        (None, None, 't') => Some(seq![("t"@, BufferState::Continue)]),
        (Some('t'), None, 'a') => Some(seq![("た"@, BufferState::Stop)]),
        (Some('t'), None, 'i') => Some(seq![("ち"@, BufferState::Stop)]),
        (Some('t'), None, 'u') => Some(seq![("つ"@, BufferState::Stop)]),
        (Some('t'), None, 'e') => Some(seq![("て"@, BufferState::Stop)]),
        (Some('t'), None, 'o') => Some(seq![("と"@, BufferState::Stop)]),
        (Some('t'), None, 's') => Some(seq![("ts"@, BufferState::Continue)]),
        (Some('t'), Some('s'), 'a') => Some(seq![("つぁ"@, BufferState::Stop)]),
        (Some('t'), Some('s'), 'i') => Some(seq![("つぃ"@, BufferState::Stop)]),
        (Some('t'), Some('s'), 'u') => Some(seq![("つ"@, BufferState::Stop)]),
        (Some('t'), Some('s'), 'e') => Some(seq![("つぇ"@, BufferState::Stop)]),
        (Some('t'), Some('s'), 'o') => Some(seq![("つぉ"@, BufferState::Stop)]),
        (None, None, 'd') => Some(seq![("d"@, BufferState::Continue)]),
        (Some('d'), None, 'a') => Some(seq![("だ"@, BufferState::Stop)]),
        (Some('d'), None, 'i') => Some(seq![("ぢ"@, BufferState::Stop)]),
        (Some('d'), None, 'u') => Some(seq![("づ"@, BufferState::Stop)]),
        (Some('d'), None, 'e') => Some(seq![("で"@, BufferState::Stop)]),
        (Some('d'), None, 'o') => Some(seq![("ど"@, BufferState::Stop)]),
        (None, None, 'c') => Some(seq![("c"@, BufferState::Continue)]),
        (Some('c'), None, 'h') => Some(seq![("ch"@, BufferState::Continue)]),
        (Some('c'), Some('h'), 'a') => Some(seq![("ちゃ"@, BufferState::Stop)]),
        (Some('c'), Some('h'), 'i') => Some(seq![("ち"@, BufferState::Stop)]),
        (Some('c'), Some('h'), 'u') => Some(seq![("ちゅ"@, BufferState::Stop)]),
        (Some('c'), Some('h'), 'e') => Some(seq![("ちぇ"@, BufferState::Stop)]),
        (Some('c'), Some('h'), 'o') => Some(seq![("ちょ"@, BufferState::Stop)]),
        (Some('c'), None, 'y') => Some(seq![("cy"@, BufferState::Continue)]),
        (Some('c'), Some('y'), 'a') => Some(seq![("ちゃ"@, BufferState::Stop)]),
        (Some('c'), Some('y'), 'i') => Some(seq![("ちぃ"@, BufferState::Stop)]),
        (Some('c'), Some('y'), 'u') => Some(seq![("ちゅ"@, BufferState::Stop)]),
        (Some('c'), Some('y'), 'e') => Some(seq![("ちぇ"@, BufferState::Stop)]),
        (Some('c'), Some('y'), 'o') => Some(seq![("ちょ"@, BufferState::Stop)]),
        (None, None, 'n') => Some(seq![("n"@, BufferState::Continue)]),
        (Some('n'), None, 'a') => Some(seq![("な"@, BufferState::Stop)]),
        (Some('n'), None, 'i') => Some(seq![("に"@, BufferState::Stop)]),
        (Some('n'), None, 'u') => Some(seq![("ぬ"@, BufferState::Stop)]),
        (Some('n'), None, 'e') => Some(seq![("ね"@, BufferState::Stop)]),
        (Some('n'), None, 'o') => Some(seq![("の"@, BufferState::Stop)]),
        (Some('n'), None, 'n') => Some(seq![("ん"@, BufferState::Stop)]),
        (None, None, 'h') => Some(seq![("h"@, BufferState::Continue)]),
        (Some('h'), None, 'a') => Some(seq![("は"@, BufferState::Stop)]),
        (Some('h'), None, 'i') => Some(seq![("ひ"@, BufferState::Stop)]),
        (Some('h'), None, 'u') => Some(seq![("ふ"@, BufferState::Stop)]),
        (Some('h'), None, 'e') => Some(seq![("へ"@, BufferState::Stop)]),
        (Some('h'), None, 'o') => Some(seq![("ほ"@, BufferState::Stop)]),
        (None, None, 'p') => Some(seq![("p"@, BufferState::Continue)]),
        (Some('p'), None, 'a') => Some(seq![("ぱ"@, BufferState::Stop)]),
        (Some('p'), None, 'i') => Some(seq![("ぴ"@, BufferState::Stop)]),
        (Some('p'), None, 'u') => Some(seq![("ぷ"@, BufferState::Stop)]),
        (Some('p'), None, 'e') => Some(seq![("ぺ"@, BufferState::Stop)]),
        (Some('p'), None, 'o') => Some(seq![("ぽ"@, BufferState::Stop)]),
        (None, None, 'b') => Some(seq![("b"@, BufferState::Continue)]),
        (Some('b'), None, 'a') => Some(seq![("ば"@, BufferState::Stop)]),
        (Some('b'), None, 'i') => Some(seq![("び"@, BufferState::Stop)]),
        (Some('b'), None, 'u') => Some(seq![("ぶ"@, BufferState::Stop)]),
        (Some('b'), None, 'e') => Some(seq![("べ"@, BufferState::Stop)]),
        (Some('b'), None, 'o') => Some(seq![("ぼ"@, BufferState::Stop)]),
        (None, None, 'f') => Some(seq![("f"@, BufferState::Continue)]),
        (Some('f'), None, 'a') => Some(seq![("ふぁ"@, BufferState::Stop)]),
        (Some('f'), None, 'i') => Some(seq![("ふぃ"@, BufferState::Stop)]),
        (Some('f'), None, 'u') => Some(seq![("ふ"@, BufferState::Stop)]),
        (Some('f'), None, 'e') => Some(seq![("ふぇ"@, BufferState::Stop)]),
        (Some('f'), None, 'o') => Some(seq![("ふぉ"@, BufferState::Stop)]),
        (None, None, 'm') => Some(seq![("m"@, BufferState::Continue)]),
        (Some('m'), None, 'a') => Some(seq![("ま"@, BufferState::Stop)]),
        (Some('m'), None, 'i') => Some(seq![("み"@, BufferState::Stop)]),
        (Some('m'), None, 'u') => Some(seq![("む"@, BufferState::Stop)]),
        (Some('m'), None, 'e') => Some(seq![("め"@, BufferState::Stop)]),
        (Some('m'), None, 'o') => Some(seq![("も"@, BufferState::Stop)]),
        (None, None, 'y') => Some(seq![("y"@, BufferState::Continue)]),
        (Some('y'), None, 'a') => Some(seq![("や"@, BufferState::Stop)]),
        (Some('y'), None, 'i') => Some(seq![("い"@, BufferState::Stop)]),
        (Some('y'), None, 'u') => Some(seq![("ゆ"@, BufferState::Stop)]),
        (Some('y'), None, 'e') => Some(seq![("いぇ"@, BufferState::Stop)]),
        (Some('y'), None, 'o') => Some(seq![("よ"@, BufferState::Stop)]),
        (None, None, 'j') => Some(seq![("j"@, BufferState::Continue)]),
        (Some('j'), None, 'a') => Some(seq![("じゃ"@, BufferState::Stop)]),
        (Some('j'), None, 'i') => Some(seq![("じ"@, BufferState::Stop)]),
        (Some('j'), None, 'u') => Some(seq![("じゅ"@, BufferState::Stop)]),
        (Some('j'), None, 'e') => Some(seq![("じぇ"@, BufferState::Stop)]),
        (Some('j'), None, 'o') => Some(seq![("じょ"@, BufferState::Stop)]),
        (Some('j'), None, 'y') => Some(seq![("jy"@, BufferState::Continue)]),
        (Some('j'), Some('y'), 'a') => Some(seq![("じゃ"@, BufferState::Stop)]),
        (Some('j'), Some('y'), 'i') => Some(seq![("じぃ"@, BufferState::Stop)]),
        (Some('j'), Some('y'), 'u') => Some(seq![("じゅ"@, BufferState::Stop)]),
        (Some('j'), Some('y'), 'e') => Some(seq![("じぇ"@, BufferState::Stop)]),
        (Some('j'), Some('y'), 'o') => Some(seq![("じょ"@, BufferState::Stop)]),
        (None, None, 'r') => Some(seq![("r"@, BufferState::Continue)]),
        (Some('r'), None, 'a') => Some(seq![("ら"@, BufferState::Stop)]),
        (Some('r'), None, 'i') => Some(seq![("り"@, BufferState::Stop)]),
        (Some('r'), None, 'u') => Some(seq![("る"@, BufferState::Stop)]),
        (Some('r'), None, 'e') => Some(seq![("れ"@, BufferState::Stop)]),
        (Some('r'), None, 'o') => Some(seq![("ろ"@, BufferState::Stop)]),
        (None, None, 'w') => Some(seq![("w"@, BufferState::Continue)]),
        (Some('w'), None, 'a') => Some(seq![("わ"@, BufferState::Stop)]),
        (Some('w'), None, 'i') => Some(seq![("うぃ"@, BufferState::Stop)]),
        (Some('w'), None, 'u') => Some(seq![("う"@, BufferState::Stop)]),
        (Some('w'), None, 'e') => Some(seq![("うぇ"@, BufferState::Stop)]),
        (Some('w'), None, 'o') => Some(seq![("を"@, BufferState::Stop)]),
        (None, None, 'v') => Some(seq![("v"@, BufferState::Continue)]),
        (Some('v'), None, 'a') => Some(seq![("う゛ぁ"@, BufferState::Stop)]),
        (Some('v'), None, 'i') => Some(seq![("う゛ぃ"@, BufferState::Stop)]),
        (Some('v'), None, 'u') => Some(seq![("う゛"@, BufferState::Stop)]),
        (Some('v'), None, 'e') => Some(seq![("う゛ぇ"@, BufferState::Stop)]),
        (Some('v'), None, 'o') => Some(seq![("ぼ"@, BufferState::Stop)]),
        (None, None, 'x') => Some(seq![("x"@, BufferState::Continue)]),
        (Some('x'), None, 'a') => Some(seq![("ぁ"@, BufferState::Stop)]),
        (Some('x'), None, 'i') => Some(seq![("ぃ"@, BufferState::Stop)]),
        (Some('x'), None, 'u') => Some(seq![("ぅ"@, BufferState::Stop)]),
        (Some('x'), None, 'e') => Some(seq![("ぇ"@, BufferState::Stop)]),
        (Some('x'), None, 'o') => Some(seq![("ぉ"@, BufferState::Stop)]),
        (Some('x'), None, 'y') => Some(seq![("xy"@, BufferState::Continue)]),
        (Some('x'), Some('y'), 'a') => Some(seq![("ゃ"@, BufferState::Stop)]),
        (Some('x'), Some('y'), 'i') => Some(seq![("い"@, BufferState::Stop)]),
        (Some('x'), Some('y'), 'u') => Some(seq![("ゅ"@, BufferState::Stop)]),
        (Some('x'), Some('y'), 'e') => Some(seq![("え"@, BufferState::Stop)]),
        (Some('x'), Some('y'), 'o') => Some(seq![("ぉ"@, BufferState::Stop)]),
        (Some('w'), None, 'w') => Some(seq![("っ"@, BufferState::Stop), ("w"@, BufferState::Continue)]),
        (Some('r'), None, 'r') => Some(seq![("っ"@, BufferState::Stop), ("r"@, BufferState::Continue)]),
        (Some('t'), None, 't') => Some(seq![("っ"@, BufferState::Stop), ("t"@, BufferState::Continue)]),
        (Some('y'), None, 'y') => Some(seq![("っ"@, BufferState::Stop), ("y"@, BufferState::Continue)]),
        (Some('p'), None, 'p') => Some(seq![("っ"@, BufferState::Stop), ("p"@, BufferState::Continue)]),
        (Some('s'), None, 's') => Some(seq![("っ"@, BufferState::Stop), ("s"@, BufferState::Continue)]),
        (Some('d'), None, 'd') => Some(seq![("っ"@, BufferState::Stop), ("d"@, BufferState::Continue)]),
        (Some('g'), None, 'g') => Some(seq![("っ"@, BufferState::Stop), ("g"@, BufferState::Continue)]),
        (Some('h'), None, 'h') => Some(seq![("っ"@, BufferState::Stop), ("h"@, BufferState::Continue)]),
        (Some('j'), None, 'j') => Some(seq![("っ"@, BufferState::Stop), ("j"@, BufferState::Continue)]),
        (Some('k'), None, 'k') => Some(seq![("っ"@, BufferState::Stop), ("k"@, BufferState::Continue)]),
        (Some('l'), None, 'l') => Some(seq![("っ"@, BufferState::Stop), ("l"@, BufferState::Continue)]),
        (Some('z'), None, 'z') => Some(seq![("っ"@, BufferState::Stop), ("z"@, BufferState::Continue)]),
        (Some('x'), None, 'x') => Some(seq![("っ"@, BufferState::Stop), ("x"@, BufferState::Continue)]),
        (Some('c'), None, 'c') => Some(seq![("っ"@, BufferState::Stop), ("c"@, BufferState::Continue)]),
        (Some('v'), None, 'v') => Some(seq![("っ"@, BufferState::Stop), ("v"@, BufferState::Continue)]),
        (Some('b'), None, 'b') => Some(seq![("っ"@, BufferState::Stop), ("b"@, BufferState::Continue)]),
        (Some('m'), None, 'm') => Some(seq![("っ"@, BufferState::Stop), ("m"@, BufferState::Continue)]),
        (Some('n'), None, 'w') => Some(seq![("ん"@, BufferState::Stop), ("w"@, BufferState::Continue)]),
        (Some('n'), None, 'r') => Some(seq![("ん"@, BufferState::Stop), ("r"@, BufferState::Continue)]),
        (Some('n'), None, 't') => Some(seq![("ん"@, BufferState::Stop), ("t"@, BufferState::Continue)]),
        (Some('n'), None, 'y') => Some(seq![("ん"@, BufferState::Stop), ("y"@, BufferState::Continue)]),
        (Some('n'), None, 'p') => Some(seq![("ん"@, BufferState::Stop), ("p"@, BufferState::Continue)]),
        (Some('n'), None, 's') => Some(seq![("ん"@, BufferState::Stop), ("s"@, BufferState::Continue)]),
        (Some('n'), None, 'd') => Some(seq![("ん"@, BufferState::Stop), ("d"@, BufferState::Continue)]),
        (Some('n'), None, 'g') => Some(seq![("ん"@, BufferState::Stop), ("g"@, BufferState::Continue)]),
        (Some('n'), None, 'h') => Some(seq![("ん"@, BufferState::Stop), ("h"@, BufferState::Continue)]),
        (Some('n'), None, 'j') => Some(seq![("ん"@, BufferState::Stop), ("j"@, BufferState::Continue)]),
        (Some('n'), None, 'k') => Some(seq![("ん"@, BufferState::Stop), ("k"@, BufferState::Continue)]),
        (Some('n'), None, 'l') => Some(seq![("ん"@, BufferState::Stop), ("l"@, BufferState::Continue)]),
        (Some('n'), None, 'z') => Some(seq![("ん"@, BufferState::Stop), ("z"@, BufferState::Continue)]),
        (Some('n'), None, 'x') => Some(seq![("ん"@, BufferState::Stop), ("x"@, BufferState::Continue)]),
        (Some('n'), None, 'c') => Some(seq![("ん"@, BufferState::Stop), ("c"@, BufferState::Continue)]),
        (Some('n'), None, 'v') => Some(seq![("ん"@, BufferState::Stop), ("v"@, BufferState::Continue)]),
        (Some('n'), None, 'b') => Some(seq![("ん"@, BufferState::Stop), ("b"@, BufferState::Continue)]),
        (Some('n'), None, 'm') => Some(seq![("ん"@, BufferState::Stop), ("m"@, BufferState::Continue)]),
        (None, None, '1') => Some(seq![("1"@, BufferState::Stop)]),
        (None, None, '2') => Some(seq![("2"@, BufferState::Stop)]),
        (None, None, '3') => Some(seq![("3"@, BufferState::Stop)]),
        (None, None, '4') => Some(seq![("4"@, BufferState::Stop)]),
        (None, None, '5') => Some(seq![("5"@, BufferState::Stop)]),
        (None, None, '6') => Some(seq![("6"@, BufferState::Stop)]),
        (None, None, '7') => Some(seq![("7"@, BufferState::Stop)]),
        (None, None, '8') => Some(seq![("8"@, BufferState::Stop)]),
        (None, None, '9') => Some(seq![("9"@, BufferState::Stop)]),
        (None, None, '0') => Some(seq![("0"@, BufferState::Stop)]),
        (None, None, ',') => Some(seq![("、"@, BufferState::Stop)]),
        (None, None, '.') => Some(seq![("。"@, BufferState::Stop)]),
        (None, None, '?') => Some(seq![("？"@, BufferState::Stop)]),
        (None, None, '/') => Some(seq![("/"@, BufferState::Stop)]),
        (None, None, ';') => Some(seq![(";"@, BufferState::Stop)]),
        (None, None, ':') => Some(seq![(":"@, BufferState::Stop)]),
        (None, None, '\'') => Some(seq![("\\"@, BufferState::Stop)]),
        (None, None, '`') => Some(seq![("`"@, BufferState::Stop)]),
        (None, None, '~') => Some(seq![("~"@, BufferState::Stop)]),
        (None, None, '!') => Some(seq![("！"@, BufferState::Stop)]),
        (None, None, '@') => Some(seq![("@"@, BufferState::Stop)]),
        (None, None, '#') => Some(seq![("#"@, BufferState::Stop)]),
        (None, None, '$') => Some(seq![("$"@, BufferState::Stop)]),
        (None, None, '%') => Some(seq![("%"@, BufferState::Stop)]),
        (None, None, '^') => Some(seq![("^"@, BufferState::Stop)]),
        (None, None, '&') => Some(seq![("&"@, BufferState::Stop)]),
        (None, None, '*') => Some(seq![("*"@, BufferState::Stop)]),
        (None, None, '\\') => Some(seq![("\\"@, BufferState::Stop)]),
        (None, None, '|') => Some(seq![("|"@, BufferState::Stop)]),
        (None, None, '(') => Some(seq![("（"@, BufferState::Stop)]),
        (None, None, ')') => Some(seq![("）"@, BufferState::Stop)]),
        (None, None, '[') => Some(seq![("「"@, BufferState::Stop)]),
        (None, None, ']') => Some(seq![("」"@, BufferState::Stop)]),
        (None, None, '{') => Some(seq![("{"@, BufferState::Stop)]),
        (None, None, '}') => Some(seq![("}"@, BufferState::Stop)]),
        (None, None, '<') => Some(seq![("<"@, BufferState::Stop)]),
        (None, None, '>') => Some(seq![(">"@, BufferState::Stop)]),
        (Some('z'), None, '[') => Some(seq![("『"@, BufferState::Stop)]),
        (Some('z'), None, ']') => Some(seq![("』"@, BufferState::Stop)]),
        (Some('z'), None, ',') => Some(seq![("‥"@, BufferState::Stop)]),
        (Some('z'), None, '.') => Some(seq![("…"@, BufferState::Stop)]),
        (Some('z'), None, '/') => Some(seq![("・"@, BufferState::Stop)]),
        (Some('z'), None, 'h') => Some(seq![("←"@, BufferState::Stop)]),
        (Some('z'), None, 'j') => Some(seq![("↓"@, BufferState::Stop)]),
        (Some('z'), None, 'k') => Some(seq![("↑"@, BufferState::Stop)]),
        (Some('z'), None, 'l') => Some(seq![("→"@, BufferState::Stop)]),
        _ => None,
    }
}

#[verifier::rlimit(100)]
fn hiragana_rule(p0: Option<char>, p1: Option<char>, c: char) -> (r: Option<Vec<(String, BufferState)>>)
    ensures
        rule_matches(r, hiragana_table(p0, p1, c)),
{
    match (p0, p1, c) {
            (None, None, 'a') => Some(vec![(String::from_str("あ"), BufferState::Stop)]),
            (None, None, 'i') => Some(vec![(String::from_str("い"), BufferState::Stop)]),
            (None, None, 'u') => Some(vec![(String::from_str("う"), BufferState::Stop)]),
            (None, None, 'e') => Some(vec![(String::from_str("え"), BufferState::Stop)]),
            (None, None, 'o') => Some(vec![(String::from_str("お"), BufferState::Stop)]),
            (None, None, 'k') => Some(vec![(String::from_str("k"), BufferState::Continue)]),
            (Some('k'), None, 'a') => Some(vec![(String::from_str("か"), BufferState::Stop)]),
            (Some('k'), None, 'i') => Some(vec![(String::from_str("き"), BufferState::Stop)]),
            (Some('k'), None, 'u') => Some(vec![(String::from_str("く"), BufferState::Stop)]),
            (Some('k'), None, 'e') => Some(vec![(String::from_str("け"), BufferState::Stop)]),
            (Some('k'), None, 'o') => Some(vec![(String::from_str("こ"), BufferState::Stop)]),
            (None, None, 'g') => Some(vec![(String::from_str("g"), BufferState::Continue)]),
            (Some('g'), None, 'a') => Some(vec![(String::from_str("が"), BufferState::Stop)]),
            (Some('g'), None, 'i') => Some(vec![(String::from_str("ぎ"), BufferState::Stop)]),
            (Some('g'), None, 'u') => Some(vec![(String::from_str("ぐ"), BufferState::Stop)]),
            (Some('g'), None, 'e') => Some(vec![(String::from_str("げ"), BufferState::Stop)]),
            (Some('g'), None, 'o') => Some(vec![(String::from_str("ご"), BufferState::Stop)]),
            (None, None, 's') => Some(vec![(String::from_str("s"), BufferState::Continue)]),
            (Some('s'), None, 'a') => Some(vec![(String::from_str("さ"), BufferState::Stop)]),
            (Some('s'), None, 'i') => Some(vec![(String::from_str("し"), BufferState::Stop)]),
            (Some('s'), None, 'u') => Some(vec![(String::from_str("す"), BufferState::Stop)]),
            (Some('s'), None, 'e') => Some(vec![(String::from_str("せ"), BufferState::Stop)]),
            (Some('s'), None, 'o') => Some(vec![(String::from_str("そ"), BufferState::Stop)]),
            (None, None, 'z') => Some(vec![(String::from_str("z"), BufferState::Continue)]),
            (Some('z'), None, 'a') => Some(vec![(String::from_str("ざ"), BufferState::Stop)]),
            (Some('z'), None, 'i') => Some(vec![(String::from_str("じ"), BufferState::Stop)]),
            (Some('z'), None, 'u') => Some(vec![(String::from_str("ず"), BufferState::Stop)]),
            (Some('z'), None, 'e') => Some(vec![(String::from_str("で"), BufferState::Stop)]),
            (Some('z'), None, 'o') => Some(vec![(String::from_str("ど"), BufferState::Stop)]),
            (None, None, 't') => Some(vec![(String::from_str("t"), BufferState::Continue)]),
            (Some('t'), None, 'a') => Some(vec![(String::from_str("た"), BufferState::Stop)]),
            (Some('t'), None, 'i') => Some(vec![(String::from_str("ち"), BufferState::Stop)]),
            (Some('t'), None, 'u') => Some(vec![(String::from_str("つ"), BufferState::Stop)]),
            (Some('t'), None, 'e') => Some(vec![(String::from_str("て"), BufferState::Stop)]),
            (Some('t'), None, 'o') => Some(vec![(String::from_str("と"), BufferState::Stop)]),
            (Some('t'), None, 's') => Some(vec![(String::from_str("ts"), BufferState::Continue)]),
            (Some('t'), Some('s'), 'a') => Some(vec![(String::from_str("つぁ"), BufferState::Stop)]),
            (Some('t'), Some('s'), 'i') => Some(vec![(String::from_str("つぃ"), BufferState::Stop)]),
            (Some('t'), Some('s'), 'u') => Some(vec![(String::from_str("つ"), BufferState::Stop)]),
            (Some('t'), Some('s'), 'e') => Some(vec![(String::from_str("つぇ"), BufferState::Stop)]),
            (Some('t'), Some('s'), 'o') => Some(vec![(String::from_str("つぉ"), BufferState::Stop)]),
            (None, None, 'd') => Some(vec![(String::from_str("d"), BufferState::Continue)]),
            (Some('d'), None, 'a') => Some(vec![(String::from_str("だ"), BufferState::Stop)]),
            (Some('d'), None, 'i') => Some(vec![(String::from_str("ぢ"), BufferState::Stop)]),
            (Some('d'), None, 'u') => Some(vec![(String::from_str("づ"), BufferState::Stop)]),
            (Some('d'), None, 'e') => Some(vec![(String::from_str("で"), BufferState::Stop)]),
            (Some('d'), None, 'o') => Some(vec![(String::from_str("ど"), BufferState::Stop)]),
            (None, None, 'c') => Some(vec![(String::from_str("c"), BufferState::Continue)]),
            (Some('c'), None, 'h') => Some(vec![(String::from_str("ch"), BufferState::Continue)]),
            (Some('c'), Some('h'), 'a') => Some(vec![(String::from_str("ちゃ"), BufferState::Stop)]),
            (Some('c'), Some('h'), 'i') => Some(vec![(String::from_str("ち"), BufferState::Stop)]),
            (Some('c'), Some('h'), 'u') => Some(vec![(String::from_str("ちゅ"), BufferState::Stop)]),
            (Some('c'), Some('h'), 'e') => Some(vec![(String::from_str("ちぇ"), BufferState::Stop)]),
            (Some('c'), Some('h'), 'o') => Some(vec![(String::from_str("ちょ"), BufferState::Stop)]),
            (Some('c'), None, 'y') => Some(vec![(String::from_str("cy"), BufferState::Continue)]),
            (Some('c'), Some('y'), 'a') => Some(vec![(String::from_str("ちゃ"), BufferState::Stop)]),
            (Some('c'), Some('y'), 'i') => Some(vec![(String::from_str("ちぃ"), BufferState::Stop)]),
            (Some('c'), Some('y'), 'u') => Some(vec![(String::from_str("ちゅ"), BufferState::Stop)]),
            (Some('c'), Some('y'), 'e') => Some(vec![(String::from_str("ちぇ"), BufferState::Stop)]),
            (Some('c'), Some('y'), 'o') => Some(vec![(String::from_str("ちょ"), BufferState::Stop)]),
            (None, None, 'n') => Some(vec![(String::from_str("n"), BufferState::Continue)]),
            (Some('n'), None, 'a') => Some(vec![(String::from_str("な"), BufferState::Stop)]),
            (Some('n'), None, 'i') => Some(vec![(String::from_str("に"), BufferState::Stop)]),
            (Some('n'), None, 'u') => Some(vec![(String::from_str("ぬ"), BufferState::Stop)]),
            (Some('n'), None, 'e') => Some(vec![(String::from_str("ね"), BufferState::Stop)]),
            (Some('n'), None, 'o') => Some(vec![(String::from_str("の"), BufferState::Stop)]),
            (Some('n'), None, 'n') => Some(vec![(String::from_str("ん"), BufferState::Stop)]),
            (None, None, 'h') => Some(vec![(String::from_str("h"), BufferState::Continue)]),
            (Some('h'), None, 'a') => Some(vec![(String::from_str("は"), BufferState::Stop)]),
            (Some('h'), None, 'i') => Some(vec![(String::from_str("ひ"), BufferState::Stop)]),
            (Some('h'), None, 'u') => Some(vec![(String::from_str("ふ"), BufferState::Stop)]),
            (Some('h'), None, 'e') => Some(vec![(String::from_str("へ"), BufferState::Stop)]),
            (Some('h'), None, 'o') => Some(vec![(String::from_str("ほ"), BufferState::Stop)]),
            (None, None, 'p') => Some(vec![(String::from_str("p"), BufferState::Continue)]),
            (Some('p'), None, 'a') => Some(vec![(String::from_str("ぱ"), BufferState::Stop)]),
            (Some('p'), None, 'i') => Some(vec![(String::from_str("ぴ"), BufferState::Stop)]),
            (Some('p'), None, 'u') => Some(vec![(String::from_str("ぷ"), BufferState::Stop)]),
            (Some('p'), None, 'e') => Some(vec![(String::from_str("ぺ"), BufferState::Stop)]),
            (Some('p'), None, 'o') => Some(vec![(String::from_str("ぽ"), BufferState::Stop)]),
            (None, None, 'b') => Some(vec![(String::from_str("b"), BufferState::Continue)]),
            (Some('b'), None, 'a') => Some(vec![(String::from_str("ば"), BufferState::Stop)]),
            (Some('b'), None, 'i') => Some(vec![(String::from_str("び"), BufferState::Stop)]),
            (Some('b'), None, 'u') => Some(vec![(String::from_str("ぶ"), BufferState::Stop)]),
            (Some('b'), None, 'e') => Some(vec![(String::from_str("べ"), BufferState::Stop)]),
            (Some('b'), None, 'o') => Some(vec![(String::from_str("ぼ"), BufferState::Stop)]),
            (None, None, 'f') => Some(vec![(String::from_str("f"), BufferState::Continue)]),
            (Some('f'), None, 'a') => Some(vec![(String::from_str("ふぁ"), BufferState::Stop)]),
            (Some('f'), None, 'i') => Some(vec![(String::from_str("ふぃ"), BufferState::Stop)]),
            (Some('f'), None, 'u') => Some(vec![(String::from_str("ふ"), BufferState::Stop)]),
            (Some('f'), None, 'e') => Some(vec![(String::from_str("ふぇ"), BufferState::Stop)]),
            (Some('f'), None, 'o') => Some(vec![(String::from_str("ふぉ"), BufferState::Stop)]),
            (None, None, 'm') => Some(vec![(String::from_str("m"), BufferState::Continue)]),
            (Some('m'), None, 'a') => Some(vec![(String::from_str("ま"), BufferState::Stop)]),
            (Some('m'), None, 'i') => Some(vec![(String::from_str("み"), BufferState::Stop)]),
            (Some('m'), None, 'u') => Some(vec![(String::from_str("む"), BufferState::Stop)]),
            (Some('m'), None, 'e') => Some(vec![(String::from_str("め"), BufferState::Stop)]),
            (Some('m'), None, 'o') => Some(vec![(String::from_str("も"), BufferState::Stop)]),
            (None, None, 'y') => Some(vec![(String::from_str("y"), BufferState::Continue)]),
            (Some('y'), None, 'a') => Some(vec![(String::from_str("や"), BufferState::Stop)]),
            (Some('y'), None, 'i') => Some(vec![(String::from_str("い"), BufferState::Stop)]),
            (Some('y'), None, 'u') => Some(vec![(String::from_str("ゆ"), BufferState::Stop)]),
            (Some('y'), None, 'e') => Some(vec![(String::from_str("いぇ"), BufferState::Stop)]),
            (Some('y'), None, 'o') => Some(vec![(String::from_str("よ"), BufferState::Stop)]),
            (None, None, 'j') => Some(vec![(String::from_str("j"), BufferState::Continue)]),
            (Some('j'), None, 'a') => Some(vec![(String::from_str("じゃ"), BufferState::Stop)]),
            (Some('j'), None, 'i') => Some(vec![(String::from_str("じ"), BufferState::Stop)]),
            (Some('j'), None, 'u') => Some(vec![(String::from_str("じゅ"), BufferState::Stop)]),
            (Some('j'), None, 'e') => Some(vec![(String::from_str("じぇ"), BufferState::Stop)]),
            (Some('j'), None, 'o') => Some(vec![(String::from_str("じょ"), BufferState::Stop)]),
            (Some('j'), None, 'y') => Some(vec![(String::from_str("jy"), BufferState::Continue)]),
            (Some('j'), Some('y'), 'a') => Some(vec![(String::from_str("じゃ"), BufferState::Stop)]),
            (Some('j'), Some('y'), 'i') => Some(vec![(String::from_str("じぃ"), BufferState::Stop)]),
            (Some('j'), Some('y'), 'u') => Some(vec![(String::from_str("じゅ"), BufferState::Stop)]),
            (Some('j'), Some('y'), 'e') => Some(vec![(String::from_str("じぇ"), BufferState::Stop)]),
            (Some('j'), Some('y'), 'o') => Some(vec![(String::from_str("じょ"), BufferState::Stop)]),
            (None, None, 'r') => Some(vec![(String::from_str("r"), BufferState::Continue)]),
            (Some('r'), None, 'a') => Some(vec![(String::from_str("ら"), BufferState::Stop)]),
            (Some('r'), None, 'i') => Some(vec![(String::from_str("り"), BufferState::Stop)]),
            (Some('r'), None, 'u') => Some(vec![(String::from_str("る"), BufferState::Stop)]),
            (Some('r'), None, 'e') => Some(vec![(String::from_str("れ"), BufferState::Stop)]),
            (Some('r'), None, 'o') => Some(vec![(String::from_str("ろ"), BufferState::Stop)]),
            (None, None, 'w') => Some(vec![(String::from_str("w"), BufferState::Continue)]),
            (Some('w'), None, 'a') => Some(vec![(String::from_str("わ"), BufferState::Stop)]),
            (Some('w'), None, 'i') => Some(vec![(String::from_str("うぃ"), BufferState::Stop)]),
            (Some('w'), None, 'u') => Some(vec![(String::from_str("う"), BufferState::Stop)]),
            (Some('w'), None, 'e') => Some(vec![(String::from_str("うぇ"), BufferState::Stop)]),
            (Some('w'), None, 'o') => Some(vec![(String::from_str("を"), BufferState::Stop)]),
            (None, None, 'v') => Some(vec![(String::from_str("v"), BufferState::Continue)]),
            (Some('v'), None, 'a') => Some(vec![(String::from_str("う゛ぁ"), BufferState::Stop)]),
            (Some('v'), None, 'i') => Some(vec![(String::from_str("う゛ぃ"), BufferState::Stop)]),
            (Some('v'), None, 'u') => Some(vec![(String::from_str("う゛"), BufferState::Stop)]),
            (Some('v'), None, 'e') => Some(vec![(String::from_str("う゛ぇ"), BufferState::Stop)]),
            (Some('v'), None, 'o') => Some(vec![(String::from_str("ぼ"), BufferState::Stop)]),
            (None, None, 'x') => Some(vec![(String::from_str("x"), BufferState::Continue)]),
            (Some('x'), None, 'a') => Some(vec![(String::from_str("ぁ"), BufferState::Stop)]),
            (Some('x'), None, 'i') => Some(vec![(String::from_str("ぃ"), BufferState::Stop)]),
            (Some('x'), None, 'u') => Some(vec![(String::from_str("ぅ"), BufferState::Stop)]),
            (Some('x'), None, 'e') => Some(vec![(String::from_str("ぇ"), BufferState::Stop)]),
            (Some('x'), None, 'o') => Some(vec![(String::from_str("ぉ"), BufferState::Stop)]),
            (Some('x'), None, 'y') => Some(vec![(String::from_str("xy"), BufferState::Continue)]),
            (Some('x'), Some('y'), 'a') => Some(vec![(String::from_str("ゃ"), BufferState::Stop)]),
            (Some('x'), Some('y'), 'i') => Some(vec![(String::from_str("い"), BufferState::Stop)]),
            (Some('x'), Some('y'), 'u') => Some(vec![(String::from_str("ゅ"), BufferState::Stop)]),
            (Some('x'), Some('y'), 'e') => Some(vec![(String::from_str("え"), BufferState::Stop)]),
            (Some('x'), Some('y'), 'o') => Some(vec![(String::from_str("ぉ"), BufferState::Stop)]),
            (Some('w'), None, 'w') => Some(vec![(String::from_str("っ"), BufferState::Stop), (String::from_str("w"), BufferState::Continue)]),
            (Some('r'), None, 'r') => Some(vec![(String::from_str("っ"), BufferState::Stop), (String::from_str("r"), BufferState::Continue)]),
            (Some('t'), None, 't') => Some(vec![(String::from_str("っ"), BufferState::Stop), (String::from_str("t"), BufferState::Continue)]),
            (Some('y'), None, 'y') => Some(vec![(String::from_str("っ"), BufferState::Stop), (String::from_str("y"), BufferState::Continue)]),
            (Some('p'), None, 'p') => Some(vec![(String::from_str("っ"), BufferState::Stop), (String::from_str("p"), BufferState::Continue)]),
            (Some('s'), None, 's') => Some(vec![(String::from_str("っ"), BufferState::Stop), (String::from_str("s"), BufferState::Continue)]),
            (Some('d'), None, 'd') => Some(vec![(String::from_str("っ"), BufferState::Stop), (String::from_str("d"), BufferState::Continue)]),
            (Some('g'), None, 'g') => Some(vec![(String::from_str("っ"), BufferState::Stop), (String::from_str("g"), BufferState::Continue)]),
            (Some('h'), None, 'h') => Some(vec![(String::from_str("っ"), BufferState::Stop), (String::from_str("h"), BufferState::Continue)]),
            (Some('j'), None, 'j') => Some(vec![(String::from_str("っ"), BufferState::Stop), (String::from_str("j"), BufferState::Continue)]),
            (Some('k'), None, 'k') => Some(vec![(String::from_str("っ"), BufferState::Stop), (String::from_str("k"), BufferState::Continue)]),
            (Some('l'), None, 'l') => Some(vec![(String::from_str("っ"), BufferState::Stop), (String::from_str("l"), BufferState::Continue)]),
            (Some('z'), None, 'z') => Some(vec![(String::from_str("っ"), BufferState::Stop), (String::from_str("z"), BufferState::Continue)]),
            (Some('x'), None, 'x') => Some(vec![(String::from_str("っ"), BufferState::Stop), (String::from_str("x"), BufferState::Continue)]),
            (Some('c'), None, 'c') => Some(vec![(String::from_str("っ"), BufferState::Stop), (String::from_str("c"), BufferState::Continue)]),
            (Some('v'), None, 'v') => Some(vec![(String::from_str("っ"), BufferState::Stop), (String::from_str("v"), BufferState::Continue)]),
            (Some('b'), None, 'b') => Some(vec![(String::from_str("っ"), BufferState::Stop), (String::from_str("b"), BufferState::Continue)]),
            (Some('m'), None, 'm') => Some(vec![(String::from_str("っ"), BufferState::Stop), (String::from_str("m"), BufferState::Continue)]),
            (Some('n'), None, 'w') => Some(vec![(String::from_str("ん"), BufferState::Stop), (String::from_str("w"), BufferState::Continue)]),
            (Some('n'), None, 'r') => Some(vec![(String::from_str("ん"), BufferState::Stop), (String::from_str("r"), BufferState::Continue)]),
            (Some('n'), None, 't') => Some(vec![(String::from_str("ん"), BufferState::Stop), (String::from_str("t"), BufferState::Continue)]),
            (Some('n'), None, 'y') => Some(vec![(String::from_str("ん"), BufferState::Stop), (String::from_str("y"), BufferState::Continue)]),
            (Some('n'), None, 'p') => Some(vec![(String::from_str("ん"), BufferState::Stop), (String::from_str("p"), BufferState::Continue)]),
            (Some('n'), None, 's') => Some(vec![(String::from_str("ん"), BufferState::Stop), (String::from_str("s"), BufferState::Continue)]),
            (Some('n'), None, 'd') => Some(vec![(String::from_str("ん"), BufferState::Stop), (String::from_str("d"), BufferState::Continue)]),
            (Some('n'), None, 'g') => Some(vec![(String::from_str("ん"), BufferState::Stop), (String::from_str("g"), BufferState::Continue)]),
            (Some('n'), None, 'h') => Some(vec![(String::from_str("ん"), BufferState::Stop), (String::from_str("h"), BufferState::Continue)]),
            (Some('n'), None, 'j') => Some(vec![(String::from_str("ん"), BufferState::Stop), (String::from_str("j"), BufferState::Continue)]),
            (Some('n'), None, 'k') => Some(vec![(String::from_str("ん"), BufferState::Stop), (String::from_str("k"), BufferState::Continue)]),
            (Some('n'), None, 'l') => Some(vec![(String::from_str("ん"), BufferState::Stop), (String::from_str("l"), BufferState::Continue)]),
            (Some('n'), None, 'z') => Some(vec![(String::from_str("ん"), BufferState::Stop), (String::from_str("z"), BufferState::Continue)]),
            (Some('n'), None, 'x') => Some(vec![(String::from_str("ん"), BufferState::Stop), (String::from_str("x"), BufferState::Continue)]),
            (Some('n'), None, 'c') => Some(vec![(String::from_str("ん"), BufferState::Stop), (String::from_str("c"), BufferState::Continue)]),
            (Some('n'), None, 'v') => Some(vec![(String::from_str("ん"), BufferState::Stop), (String::from_str("v"), BufferState::Continue)]),
            (Some('n'), None, 'b') => Some(vec![(String::from_str("ん"), BufferState::Stop), (String::from_str("b"), BufferState::Continue)]),
            (Some('n'), None, 'm') => Some(vec![(String::from_str("ん"), BufferState::Stop), (String::from_str("m"), BufferState::Continue)]),
            (None, None, '1') => Some(vec![(String::from_str("1"), BufferState::Stop)]),
            (None, None, '2') => Some(vec![(String::from_str("2"), BufferState::Stop)]),
            (None, None, '3') => Some(vec![(String::from_str("3"), BufferState::Stop)]),
            (None, None, '4') => Some(vec![(String::from_str("4"), BufferState::Stop)]),
            (None, None, '5') => Some(vec![(String::from_str("5"), BufferState::Stop)]),
            (None, None, '6') => Some(vec![(String::from_str("6"), BufferState::Stop)]),
            (None, None, '7') => Some(vec![(String::from_str("7"), BufferState::Stop)]),
            (None, None, '8') => Some(vec![(String::from_str("8"), BufferState::Stop)]),
            (None, None, '9') => Some(vec![(String::from_str("9"), BufferState::Stop)]),
            (None, None, '0') => Some(vec![(String::from_str("0"), BufferState::Stop)]),
            (None, None, ',') => Some(vec![(String::from_str("、"), BufferState::Stop)]),
            (None, None, '.') => Some(vec![(String::from_str("。"), BufferState::Stop)]),
            (None, None, '?') => Some(vec![(String::from_str("？"), BufferState::Stop)]),
            (None, None, '/') => Some(vec![(String::from_str("/"), BufferState::Stop)]),
            (None, None, ';') => Some(vec![(String::from_str(";"), BufferState::Stop)]),
            (None, None, ':') => Some(vec![(String::from_str(":"), BufferState::Stop)]),
            (None, None, '\'') => Some(vec![(String::from_str("\\"), BufferState::Stop)]),
            (None, None, '`') => Some(vec![(String::from_str("`"), BufferState::Stop)]),
            (None, None, '~') => Some(vec![(String::from_str("~"), BufferState::Stop)]),
            (None, None, '!') => Some(vec![(String::from_str("！"), BufferState::Stop)]),
            (None, None, '@') => Some(vec![(String::from_str("@"), BufferState::Stop)]),
            (None, None, '#') => Some(vec![(String::from_str("#"), BufferState::Stop)]),
            (None, None, '$') => Some(vec![(String::from_str("$"), BufferState::Stop)]),
            (None, None, '%') => Some(vec![(String::from_str("%"), BufferState::Stop)]),
            (None, None, '^') => Some(vec![(String::from_str("^"), BufferState::Stop)]),
            (None, None, '&') => Some(vec![(String::from_str("&"), BufferState::Stop)]),
            (None, None, '*') => Some(vec![(String::from_str("*"), BufferState::Stop)]),
            (None, None, '\\') => Some(vec![(String::from_str("\\"), BufferState::Stop)]),
            (None, None, '|') => Some(vec![(String::from_str("|"), BufferState::Stop)]),
            (None, None, '(') => Some(vec![(String::from_str("（"), BufferState::Stop)]),
            (None, None, ')') => Some(vec![(String::from_str("）"), BufferState::Stop)]),
            (None, None, '[') => Some(vec![(String::from_str("「"), BufferState::Stop)]),
            (None, None, ']') => Some(vec![(String::from_str("」"), BufferState::Stop)]),
            (None, None, '{') => Some(vec![(String::from_str("{"), BufferState::Stop)]),
            (None, None, '}') => Some(vec![(String::from_str("}"), BufferState::Stop)]),
            (None, None, '<') => Some(vec![(String::from_str("<"), BufferState::Stop)]),
            (None, None, '>') => Some(vec![(String::from_str(">"), BufferState::Stop)]),
            (Some('z'), None, '[') => Some(vec![(String::from_str("『"), BufferState::Stop)]),
            (Some('z'), None, ']') => Some(vec![(String::from_str("』"), BufferState::Stop)]),
            (Some('z'), None, ',') => Some(vec![(String::from_str("‥"), BufferState::Stop)]),
            (Some('z'), None, '.') => Some(vec![(String::from_str("…"), BufferState::Stop)]),
            (Some('z'), None, '/') => Some(vec![(String::from_str("・"), BufferState::Stop)]),
            (Some('z'), None, 'h') => Some(vec![(String::from_str("←"), BufferState::Stop)]),
            (Some('z'), None, 'j') => Some(vec![(String::from_str("↓"), BufferState::Stop)]),
            (Some('z'), None, 'k') => Some(vec![(String::from_str("↑"), BufferState::Stop)]),
            (Some('z'), None, 'l') => Some(vec![(String::from_str("→"), BufferState::Stop)]),
        _ => None,
    }
}

/// Converts the pending buffer of a pair and a typed character with the
/// hiragana table.
pub fn convert(current_buffer: &str, character: char) -> (r: Option<Vec<BufferPair>>)
    ensures
        super::pairs_match_rule(r, LetterType::Hiragana, super::conversion(LetterType::Hiragana, current_buffer@, character)),
{
    let character = lowercase_first(character);
    let n: usize = current_buffer.unicode_len();
    if n > 2 {
        return None;
    }
    let p0 = if n >= 1 { Some(current_buffer.get_char(0)) } else { None };
    let p1 = if n >= 2 { Some(current_buffer.get_char(1)) } else { None };
    let rule = hiragana_rule(p0, p1, character);
    pairs_from_rule(LetterType::Hiragana, rule, Ghost(hiragana_table(p0, p1, character)))
}

} // verus!
