//! The romaji-to-katakana table.
use vstd::prelude::*;
use super::{BufferPair, LetterType, rule_matches, pairs_from_rule};
use crate::transformers::BufferState;
use crate::text::lowercase_first;

verus! {

/// The rule of the katakana table for a pending romaji prefix (at most two
/// characters) and a typed character: the pieces it turns into, each with
/// whether it is finished.
pub open spec fn katakana_table(p0: Option<char>, p1: Option<char>, c: char) -> Option<Seq<(Seq<char>, BufferState)>> {
    match (p0, p1, c) {
        (None, None, 'a') => Some(seq![("ア"@, BufferState::Stop)]),
        (None, None, 'i') => Some(seq![("イ"@, BufferState::Stop)]),
        (None, None, 'u') => Some(seq![("ウ"@, BufferState::Stop)]),
        (None, None, 'e') => Some(seq![("エ"@, BufferState::Stop)]),
        (None, None, 'o') => Some(seq![("オ"@, BufferState::Stop)]),
        (None, None, 'k') => Some(seq![("k"@, BufferState::Continue)]),
        (Some('k'), None, 'a') => Some(seq![("カ"@, BufferState::Stop)]),
        (Some('k'), None, 'i') => Some(seq![("キ"@, BufferState::Stop)]),
        (Some('k'), None, 'u') => Some(seq![("ク"@, BufferState::Stop)]),
        (Some('k'), None, 'e') => Some(seq![("ケ"@, BufferState::Stop)]),
        (Some('k'), None, 'o') => Some(seq![("コ"@, BufferState::Stop)]),
        (None, None, 'g') => Some(seq![("g"@, BufferState::Continue)]),
        (Some('g'), None, 'a') => Some(seq![("ガ"@, BufferState::Stop)]),
        (Some('g'), None, 'i') => Some(seq![("ギ"@, BufferState::Stop)]),
        (Some('g'), None, 'u') => Some(seq![("グ"@, BufferState::Stop)]),
        (Some('g'), None, 'e') => Some(seq![("ゲ"@, BufferState::Stop)]),
        (Some('g'), None, 'o') => Some(seq![("ゴ"@, BufferState::Stop)]),
        (None, None, 's') => Some(seq![("s"@, BufferState::Continue)]),
        (Some('s'), None, 'a') => Some(seq![("サ"@, BufferState::Stop)]),
        (Some('s'), None, 'i') => Some(seq![("シ"@, BufferState::Stop)]),
        (Some('s'), None, 'u') => Some(seq![("ス"@, BufferState::Stop)]),
        (Some('s'), None, 'e') => Some(seq![("セ"@, BufferState::Stop)]),
        (Some('s'), None, 'o') => Some(seq![("ソ"@, BufferState::Stop)]),
        (None, None, 'z') => Some(seq![("z"@, BufferState::Continue)]),
        (Some('z'), None, 'a') => Some(seq![("ザ"@, BufferState::Stop)]),
        (Some('z'), None, 'i') => Some(seq![("ジ"@, BufferState::Stop)]),
        (Some('z'), None, 'u') => Some(seq![("ズ"@, BufferState::Stop)]),
        (Some('z'), None, 'e') => Some(seq![("ゼ"@, BufferState::Stop)]),
        (Some('z'), None, 'o') => Some(seq![("ゾ"@, BufferState::Stop)]),
        (None, None, 't') => Some(seq![("t"@, BufferState::Continue)]),
        (Some('t'), None, 'a') => Some(seq![("タ"@, BufferState::Stop)]),
        (Some('t'), None, 'i') => Some(seq![("チ"@, BufferState::Stop)]),
        (Some('t'), None, 'u') => Some(seq![("ツ"@, BufferState::Stop)]),
        (Some('t'), None, 'e') => Some(seq![("テ"@, BufferState::Stop)]),
        (Some('t'), None, 'o') => Some(seq![("ト"@, BufferState::Stop)]),
        (Some('t'), None, 's') => Some(seq![("ts"@, BufferState::Continue)]),
        (Some('t'), Some('s'), 'a') => Some(seq![("ツ"@, BufferState::Stop), ("ァ"@, BufferState::Stop)]),
        (Some('t'), Some('s'), 'i') => Some(seq![("ツ"@, BufferState::Stop), ("ィ"@, BufferState::Stop)]),
        (Some('t'), Some('s'), 'u') => Some(seq![("ツ"@, BufferState::Stop)]),
        (Some('t'), Some('s'), 'e') => Some(seq![("ツ"@, BufferState::Stop), ("ゥ"@, BufferState::Stop)]),
        (Some('t'), Some('s'), 'o') => Some(seq![("ツ"@, BufferState::Stop), ("ォ"@, BufferState::Stop)]),
        (None, None, 'd') => Some(seq![("d"@, BufferState::Continue)]),
        (Some('d'), None, 'a') => Some(seq![("ダ"@, BufferState::Stop)]),
        (Some('d'), None, 'i') => Some(seq![("ヂ"@, BufferState::Stop)]),
        (Some('d'), None, 'u') => Some(seq![("ヅ"@, BufferState::Stop)]),
        (Some('d'), None, 'e') => Some(seq![("デ"@, BufferState::Stop)]),
        (Some('d'), None, 'o') => Some(seq![("ド"@, BufferState::Stop)]),
        (Some('d'), None, 'h') => Some(seq![("dh"@, BufferState::Continue)]),
        (Some('d'), Some('h'), 'a') => Some(seq![("デ"@, BufferState::Stop), ("ャ"@, BufferState::Stop)]),
        (Some('d'), Some('h'), 'i') => Some(seq![("デ"@, BufferState::Stop), ("ィ"@, BufferState::Stop)]),
        (Some('d'), Some('h'), 'u') => Some(seq![("デ"@, BufferState::Stop), ("ュ"@, BufferState::Stop)]),
        (Some('d'), Some('h'), 'e') => Some(seq![("デ"@, BufferState::Stop), ("ェ"@, BufferState::Stop)]),
        (Some('d'), Some('h'), 'o') => Some(seq![("デ"@, BufferState::Stop), ("ョ"@, BufferState::Stop)]),
        (Some('d'), None, 'y') => Some(seq![("dy"@, BufferState::Continue)]),
        (Some('d'), Some('y'), 'a') => Some(seq![("ヂ"@, BufferState::Stop), ("ャ"@, BufferState::Stop)]),
        (Some('d'), Some('y'), 'i') => Some(seq![("ヂ"@, BufferState::Stop), ("ィ"@, BufferState::Stop)]),
        (Some('d'), Some('y'), 'u') => Some(seq![("ヂ"@, BufferState::Stop), ("ュ"@, BufferState::Stop)]),
        (Some('d'), Some('y'), 'e') => Some(seq![("ヂ"@, BufferState::Stop), ("ェ"@, BufferState::Stop)]),
        (Some('d'), Some('y'), 'o') => Some(seq![("ヂ"@, BufferState::Stop), ("ョ"@, BufferState::Stop)]),
        (None, None, 'c') => Some(seq![("c"@, BufferState::Continue)]),
        (Some('c'), None, 'h') => Some(seq![("ch"@, BufferState::Continue)]),
        (Some('c'), Some('h'), 'a') => Some(seq![("チ"@, BufferState::Stop), ("ァ"@, BufferState::Stop)]),
        (Some('c'), Some('h'), 'i') => Some(seq![("チ"@, BufferState::Stop)]),
        (Some('c'), Some('h'), 'u') => Some(seq![("チ"@, BufferState::Stop), ("ュ"@, BufferState::Stop)]),
        (Some('c'), Some('h'), 'e') => Some(seq![("チ"@, BufferState::Stop), ("ェ"@, BufferState::Stop)]),
        (Some('c'), Some('h'), 'o') => Some(seq![("チ"@, BufferState::Stop), ("ョ"@, BufferState::Stop)]),
        (Some('c'), None, 'y') => Some(seq![("cy"@, BufferState::Continue)]),
        (Some('c'), Some('y'), 'a') => Some(seq![("チ"@, BufferState::Stop), ("ァ"@, BufferState::Stop)]),
        (Some('c'), Some('y'), 'i') => Some(seq![("チ"@, BufferState::Stop), ("ィ"@, BufferState::Stop)]),
        (Some('c'), Some('y'), 'u') => Some(seq![("チ"@, BufferState::Stop), ("ュ"@, BufferState::Stop)]),
        (Some('c'), Some('y'), 'e') => Some(seq![("チ"@, BufferState::Stop), ("ェ"@, BufferState::Stop)]),
        (Some('c'), Some('y'), 'o') => Some(seq![("チ"@, BufferState::Stop), ("ョ"@, BufferState::Stop)]),
        (None, None, 'n') => Some(seq![("n"@, BufferState::Continue)]),
        (Some('n'), None, 'a') => Some(seq![("ナ"@, BufferState::Stop)]),
        (Some('n'), None, 'i') => Some(seq![("ニ"@, BufferState::Stop)]),
        (Some('n'), None, 'u') => Some(seq![("ヌ"@, BufferState::Stop)]),
        (Some('n'), None, 'e') => Some(seq![("ネ"@, BufferState::Stop)]),
        (Some('n'), None, 'o') => Some(seq![("ノ"@, BufferState::Stop)]),
        (Some('n'), None, 'n') => Some(seq![("ン"@, BufferState::Stop)]),
        (None, None, 'h') => Some(seq![("h"@, BufferState::Continue)]),
        (Some('h'), None, 'a') => Some(seq![("ハ"@, BufferState::Stop)]),
        (Some('h'), None, 'i') => Some(seq![("ヒ"@, BufferState::Stop)]),
        (Some('h'), None, 'u') => Some(seq![("フ"@, BufferState::Stop)]),
        (Some('h'), None, 'e') => Some(seq![("ヘ"@, BufferState::Stop)]),
        (Some('h'), None, 'o') => Some(seq![("ホ"@, BufferState::Stop)]),
        (None, None, 'p') => Some(seq![("p"@, BufferState::Continue)]),
        (Some('p'), None, 'a') => Some(seq![("パ"@, BufferState::Stop)]),
        (Some('p'), None, 'i') => Some(seq![("ピ"@, BufferState::Stop)]),
        (Some('p'), None, 'u') => Some(seq![("プ"@, BufferState::Stop)]),
        (Some('p'), None, 'e') => Some(seq![("ペ"@, BufferState::Stop)]),
        (Some('p'), None, 'o') => Some(seq![("ポ"@, BufferState::Stop)]),
        (None, None, 'b') => Some(seq![("b"@, BufferState::Continue)]),
        (Some('b'), None, 'a') => Some(seq![("バ"@, BufferState::Stop)]),
        (Some('b'), None, 'i') => Some(seq![("ビ"@, BufferState::Stop)]),
        (Some('b'), None, 'u') => Some(seq![("ブ"@, BufferState::Stop)]),
        (Some('b'), None, 'e') => Some(seq![("ベ"@, BufferState::Stop)]),
        (Some('b'), None, 'o') => Some(seq![("ボ"@, BufferState::Stop)]),
        (None, None, 'f') => Some(seq![("f"@, BufferState::Continue)]),
        (Some('f'), None, 'a') => Some(seq![("フ"@, BufferState::Stop), ("ァ"@, BufferState::Stop)]),
        (Some('f'), None, 'i') => Some(seq![("フ"@, BufferState::Stop), ("ィ"@, BufferState::Stop)]),
        (Some('f'), None, 'u') => Some(seq![("フ"@, BufferState::Stop)]),
        (Some('f'), None, 'e') => Some(seq![("フ"@, BufferState::Stop), ("ェ"@, BufferState::Stop)]),
        (Some('f'), None, 'o') => Some(seq![("フ"@, BufferState::Stop), ("ォ"@, BufferState::Stop)]),
        (None, None, 'm') => Some(seq![("m"@, BufferState::Continue)]),
        (Some('m'), None, 'a') => Some(seq![("マ"@, BufferState::Stop)]),
        (Some('m'), None, 'i') => Some(seq![("ミ"@, BufferState::Stop)]),
        (Some('m'), None, 'u') => Some(seq![("ム"@, BufferState::Stop)]),
        (Some('m'), None, 'e') => Some(seq![("メ"@, BufferState::Stop)]),
        (Some('m'), None, 'o') => Some(seq![("モ"@, BufferState::Stop)]),
        (None, None, 'y') => Some(seq![("y"@, BufferState::Continue)]),
        (Some('y'), None, 'a') => Some(seq![("ヤ"@, BufferState::Stop)]),
        (Some('y'), None, 'i') => Some(seq![("イ"@, BufferState::Stop)]),
        (Some('y'), None, 'u') => Some(seq![("ユ"@, BufferState::Stop)]),
        (Some('y'), None, 'e') => Some(seq![("ェ"@, BufferState::Stop), ("ェ"@, BufferState::Stop)]),
        (Some('y'), None, 'o') => Some(seq![("ヨ"@, BufferState::Stop)]),
        (None, None, 'j') => Some(seq![("j"@, BufferState::Continue)]),
        (Some('j'), None, 'a') => Some(seq![("ジ"@, BufferState::Stop), ("ャ"@, BufferState::Stop)]),
        (Some('j'), None, 'i') => Some(seq![("ジ"@, BufferState::Stop)]),
        (Some('j'), None, 'u') => Some(seq![("ジ"@, BufferState::Stop), ("ュ"@, BufferState::Stop)]),
        (Some('j'), None, 'e') => Some(seq![("ジ"@, BufferState::Stop), ("ェ"@, BufferState::Stop)]),
        (Some('j'), None, 'o') => Some(seq![("ジ"@, BufferState::Stop), ("ョ"@, BufferState::Stop)]),
        (Some('j'), None, 'y') => Some(seq![("jy"@, BufferState::Continue)]),
        (Some('j'), Some('y'), 'a') => Some(seq![("ジ"@, BufferState::Stop), ("ャ"@, BufferState::Stop)]),
        (Some('j'), Some('y'), 'i') => Some(seq![("ジ"@, BufferState::Stop), ("ィ"@, BufferState::Stop)]),
        (Some('j'), Some('y'), 'u') => Some(seq![("ジ"@, BufferState::Stop), ("ュ"@, BufferState::Stop)]),
        (Some('j'), Some('y'), 'e') => Some(seq![("ジ"@, BufferState::Stop), ("ェ"@, BufferState::Stop)]),
        (Some('j'), Some('y'), 'o') => Some(seq![("ジ"@, BufferState::Stop), ("ョ"@, BufferState::Stop)]),
        (None, None, 'r') => Some(seq![("r"@, BufferState::Continue)]),
        (Some('r'), None, 'a') => Some(seq![("ラ"@, BufferState::Stop)]),
        (Some('r'), None, 'i') => Some(seq![("リ"@, BufferState::Stop)]),
        (Some('r'), None, 'u') => Some(seq![("ル"@, BufferState::Stop)]),
        (Some('r'), None, 'e') => Some(seq![("レ"@, BufferState::Stop)]),
        (Some('r'), None, 'o') => Some(seq![("ロ"@, BufferState::Stop)]),
        (None, None, 'w') => Some(seq![("w"@, BufferState::Continue)]),
        (Some('w'), None, 'a') => Some(seq![("ワ"@, BufferState::Stop)]),
        (Some('w'), None, 'i') => Some(seq![("ウ"@, BufferState::Stop), ("ィ"@, BufferState::Stop)]),
        (Some('w'), None, 'u') => Some(seq![("ウ"@, BufferState::Stop)]),
        (Some('w'), None, 'e') => Some(seq![("ウ"@, BufferState::Stop), ("ェ"@, BufferState::Stop)]),
        (Some('w'), None, 'o') => Some(seq![("ヲ"@, BufferState::Stop)]),
        (None, None, 'v') => Some(seq![("v"@, BufferState::Continue)]),
        (Some('v'), None, 'a') => Some(seq![("ヴ"@, BufferState::Stop), ("ァ"@, BufferState::Stop)]),
        (Some('v'), None, 'i') => Some(seq![("ヴ"@, BufferState::Stop), ("ィ"@, BufferState::Stop)]),
        (Some('v'), None, 'u') => Some(seq![("ヴ"@, BufferState::Stop)]),
        (Some('v'), None, 'e') => Some(seq![("ヴ"@, BufferState::Stop), ("ェ"@, BufferState::Stop)]),
        (Some('v'), None, 'o') => Some(seq![("ヴ"@, BufferState::Stop)]),
        (None, None, 'x') => Some(seq![("x"@, BufferState::Continue)]),
        (Some('x'), None, 'a') => Some(seq![("ァ"@, BufferState::Stop)]),
        (Some('x'), None, 'i') => Some(seq![("ィ"@, BufferState::Stop)]),
        (Some('x'), None, 'u') => Some(seq![("ゥ"@, BufferState::Stop)]),
        (Some('x'), None, 'e') => Some(seq![("ェ"@, BufferState::Stop)]),
        (Some('x'), None, 'o') => Some(seq![("ォ"@, BufferState::Stop)]),
        (Some('x'), None, 'y') => Some(seq![("xy"@, BufferState::Continue)]),
        (Some('x'), Some('y'), 'a') => Some(seq![("ャ"@, BufferState::Stop)]),
        (Some('x'), Some('y'), 'i') => Some(seq![("イ"@, BufferState::Stop)]),
        (Some('x'), Some('y'), 'u') => Some(seq![("ュ"@, BufferState::Stop)]),
        (Some('x'), Some('y'), 'e') => Some(seq![("エ"@, BufferState::Stop)]),
        (Some('x'), Some('y'), 'o') => Some(seq![("ョ"@, BufferState::Stop)]),
        (Some('w'), None, 'w') => Some(seq![("ッ"@, BufferState::Stop), ("w"@, BufferState::Continue)]),
        (Some('r'), None, 'r') => Some(seq![("ッ"@, BufferState::Stop), ("r"@, BufferState::Continue)]),
        (Some('t'), None, 't') => Some(seq![("ッ"@, BufferState::Stop), ("t"@, BufferState::Continue)]),
        (Some('y'), None, 'y') => Some(seq![("ッ"@, BufferState::Stop), ("y"@, BufferState::Continue)]),
        (Some('p'), None, 'p') => Some(seq![("ッ"@, BufferState::Stop), ("p"@, BufferState::Continue)]),
        (Some('s'), None, 's') => Some(seq![("ッ"@, BufferState::Stop), ("s"@, BufferState::Continue)]),
        (Some('d'), None, 'd') => Some(seq![("ッ"@, BufferState::Stop), ("d"@, BufferState::Continue)]),
        (Some('g'), None, 'g') => Some(seq![("ッ"@, BufferState::Stop), ("g"@, BufferState::Continue)]),
        (Some('h'), None, 'h') => Some(seq![("ッ"@, BufferState::Stop), ("h"@, BufferState::Continue)]),
        (Some('j'), None, 'j') => Some(seq![("ッ"@, BufferState::Stop), ("j"@, BufferState::Continue)]),
        (Some('k'), None, 'k') => Some(seq![("ッ"@, BufferState::Stop), ("k"@, BufferState::Continue)]),
        (Some('l'), None, 'l') => Some(seq![("ッ"@, BufferState::Stop), ("l"@, BufferState::Continue)]),
        (Some('z'), None, 'z') => Some(seq![("ッ"@, BufferState::Stop), ("z"@, BufferState::Continue)]),
        (Some('x'), None, 'x') => Some(seq![("ッ"@, BufferState::Stop), ("x"@, BufferState::Continue)]),
        (Some('c'), None, 'c') => Some(seq![("ッ"@, BufferState::Stop), ("c"@, BufferState::Continue)]),
        (Some('v'), None, 'v') => Some(seq![("ッ"@, BufferState::Stop), ("v"@, BufferState::Continue)]),
        (Some('b'), None, 'b') => Some(seq![("ッ"@, BufferState::Stop), ("b"@, BufferState::Continue)]),
        (Some('m'), None, 'm') => Some(seq![("ッ"@, BufferState::Stop), ("m"@, BufferState::Continue)]),
        (Some('n'), None, 'w') => Some(seq![("ン"@, BufferState::Stop), ("w"@, BufferState::Continue)]),
        (Some('n'), None, 'r') => Some(seq![("ン"@, BufferState::Stop), ("r"@, BufferState::Continue)]),
        (Some('n'), None, 't') => Some(seq![("ン"@, BufferState::Stop), ("t"@, BufferState::Continue)]),
        (Some('n'), None, 'y') => Some(seq![("ン"@, BufferState::Stop), ("y"@, BufferState::Continue)]),
        (Some('n'), None, 'p') => Some(seq![("ン"@, BufferState::Stop), ("p"@, BufferState::Continue)]),
        (Some('n'), None, 's') => Some(seq![("ン"@, BufferState::Stop), ("s"@, BufferState::Continue)]),
        (Some('n'), None, 'd') => Some(seq![("ン"@, BufferState::Stop), ("d"@, BufferState::Continue)]),
        (Some('n'), None, 'g') => Some(seq![("ン"@, BufferState::Stop), ("g"@, BufferState::Continue)]),
        (Some('n'), None, 'h') => Some(seq![("ン"@, BufferState::Stop), ("h"@, BufferState::Continue)]),
        (Some('n'), None, 'j') => Some(seq![("ン"@, BufferState::Stop), ("j"@, BufferState::Continue)]),
        (Some('n'), None, 'k') => Some(seq![("ン"@, BufferState::Stop), ("k"@, BufferState::Continue)]),
        (Some('n'), None, 'l') => Some(seq![("ン"@, BufferState::Stop), ("l"@, BufferState::Continue)]),
        (Some('n'), None, 'z') => Some(seq![("ン"@, BufferState::Stop), ("z"@, BufferState::Continue)]),
        (Some('n'), None, 'x') => Some(seq![("ン"@, BufferState::Stop), ("x"@, BufferState::Continue)]),
        (Some('n'), None, 'c') => Some(seq![("ン"@, BufferState::Stop), ("c"@, BufferState::Continue)]),
        (Some('n'), None, 'v') => Some(seq![("ン"@, BufferState::Stop), ("v"@, BufferState::Continue)]),
        (Some('n'), None, 'b') => Some(seq![("ン"@, BufferState::Stop), ("b"@, BufferState::Continue)]),
        (Some('n'), None, 'm') => Some(seq![("ン"@, BufferState::Stop), ("m"@, BufferState::Continue)]),
        (None, None, '1') => Some(seq![("1"@, BufferState::Stop)]),
        (None, None, '2') => Some(seq![("2"@, BufferState::Stop)]),
        (None, None, '3') => Some(seq![("3"@, BufferState::Stop)]),
        (None, None, '4') => Some(seq![("4"@, BufferState::Stop)]),
        (None, None, '5') => Some(seq![("5"@, BufferState::Stop)]),
        (None, None, '6') => Some(seq![("6"@, BufferState::Stop)]),
        (None, None, '7') => Some(seq![("7"@, BufferState::Stop)]),
        (None, None, '8') => Some(seq![("8"@, BufferState::Stop)]),
        (None, None, '9') => Some(seq![("9"@, BufferState::Stop)]),
        (None, None, '0') => Some(seq![("0"@, BufferState::Stop)]),
        (None, None, ',') => Some(seq![("、"@, BufferState::Stop)]),
        (None, None, '.') => Some(seq![("。"@, BufferState::Stop)]),
        (None, None, '?') => Some(seq![("？"@, BufferState::Stop)]),
        (None, None, '/') => Some(seq![("/"@, BufferState::Stop)]),
        (None, None, ';') => Some(seq![(";"@, BufferState::Stop)]),
        (None, None, ':') => Some(seq![(":"@, BufferState::Stop)]),
        (None, None, '\'') => Some(seq![("\\"@, BufferState::Stop)]),
        (None, None, '`') => Some(seq![("`"@, BufferState::Stop)]),
        (None, None, '~') => Some(seq![("~"@, BufferState::Stop)]),
        (None, None, '!') => Some(seq![("！"@, BufferState::Stop)]),
        (None, None, '@') => Some(seq![("@"@, BufferState::Stop)]),
        (None, None, '#') => Some(seq![("#"@, BufferState::Stop)]),
        (None, None, '$') => Some(seq![("$"@, BufferState::Stop)]),
        (None, None, '%') => Some(seq![("%"@, BufferState::Stop)]),
        (None, None, '^') => Some(seq![("^"@, BufferState::Stop)]),
        (None, None, '&') => Some(seq![("&"@, BufferState::Stop)]),
        (None, None, '*') => Some(seq![("*"@, BufferState::Stop)]),
        (None, None, '\\') => Some(seq![("\\"@, BufferState::Stop)]),
        (None, None, '|') => Some(seq![("|"@, BufferState::Stop)]),
        (None, None, '(') => Some(seq![("（"@, BufferState::Stop)]),
        (None, None, ')') => Some(seq![("）"@, BufferState::Stop)]),
        (None, None, '[') => Some(seq![("「"@, BufferState::Stop)]),
        (None, None, ']') => Some(seq![("」"@, BufferState::Stop)]),
        (None, None, '{') => Some(seq![("{"@, BufferState::Stop)]),
        (None, None, '}') => Some(seq![("}"@, BufferState::Stop)]),
        (None, None, '<') => Some(seq![("<"@, BufferState::Stop)]),
        (None, None, '>') => Some(seq![(">"@, BufferState::Stop)]),
        (Some('z'), None, ' ') => Some(seq![("　"@, BufferState::Stop)]),
        (Some('z'), None, '[') => Some(seq![("『"@, BufferState::Stop)]),
        (Some('z'), None, ']') => Some(seq![("』"@, BufferState::Stop)]),
        (Some('z'), None, ',') => Some(seq![("‥"@, BufferState::Stop)]),
        (Some('z'), None, '.') => Some(seq![("…"@, BufferState::Stop)]),
        (Some('z'), None, '/') => Some(seq![("・"@, BufferState::Stop)]),
        (Some('z'), None, 'h') => Some(seq![("←"@, BufferState::Stop)]),
        (Some('z'), None, 'j') => Some(seq![("↓"@, BufferState::Stop)]),
        (Some('z'), None, 'k') => Some(seq![("↑"@, BufferState::Stop)]),
        (Some('z'), None, 'l') => Some(seq![("→"@, BufferState::Stop)]),
        _ => None,
    }
}

#[verifier::rlimit(100)]
fn katakana_rule(p0: Option<char>, p1: Option<char>, c: char) -> (r: Option<Vec<(String, BufferState)>>)
    ensures
        rule_matches(r, katakana_table(p0, p1, c)),
{
    match (p0, p1, c) {
            (None, None, 'a') => Some(vec![(String::from_str("ア"), BufferState::Stop)]),
            (None, None, 'i') => Some(vec![(String::from_str("イ"), BufferState::Stop)]),
            (None, None, 'u') => Some(vec![(String::from_str("ウ"), BufferState::Stop)]),
            (None, None, 'e') => Some(vec![(String::from_str("エ"), BufferState::Stop)]),
            (None, None, 'o') => Some(vec![(String::from_str("オ"), BufferState::Stop)]),
            (None, None, 'k') => Some(vec![(String::from_str("k"), BufferState::Continue)]),
            (Some('k'), None, 'a') => Some(vec![(String::from_str("カ"), BufferState::Stop)]),
            (Some('k'), None, 'i') => Some(vec![(String::from_str("キ"), BufferState::Stop)]),
            (Some('k'), None, 'u') => Some(vec![(String::from_str("ク"), BufferState::Stop)]),
            (Some('k'), None, 'e') => Some(vec![(String::from_str("ケ"), BufferState::Stop)]),
            (Some('k'), None, 'o') => Some(vec![(String::from_str("コ"), BufferState::Stop)]),
            (None, None, 'g') => Some(vec![(String::from_str("g"), BufferState::Continue)]),
            (Some('g'), None, 'a') => Some(vec![(String::from_str("ガ"), BufferState::Stop)]),
            (Some('g'), None, 'i') => Some(vec![(String::from_str("ギ"), BufferState::Stop)]),
            (Some('g'), None, 'u') => Some(vec![(String::from_str("グ"), BufferState::Stop)]),
            (Some('g'), None, 'e') => Some(vec![(String::from_str("ゲ"), BufferState::Stop)]),
            (Some('g'), None, 'o') => Some(vec![(String::from_str("ゴ"), BufferState::Stop)]),
            (None, None, 's') => Some(vec![(String::from_str("s"), BufferState::Continue)]),
            (Some('s'), None, 'a') => Some(vec![(String::from_str("サ"), BufferState::Stop)]),
            (Some('s'), None, 'i') => Some(vec![(String::from_str("シ"), BufferState::Stop)]),
            (Some('s'), None, 'u') => Some(vec![(String::from_str("ス"), BufferState::Stop)]),
            (Some('s'), None, 'e') => Some(vec![(String::from_str("セ"), BufferState::Stop)]),
            (Some('s'), None, 'o') => Some(vec![(String::from_str("ソ"), BufferState::Stop)]),
            (None, None, 'z') => Some(vec![(String::from_str("z"), BufferState::Continue)]),
            (Some('z'), None, 'a') => Some(vec![(String::from_str("ザ"), BufferState::Stop)]),
            (Some('z'), None, 'i') => Some(vec![(String::from_str("ジ"), BufferState::Stop)]),
            (Some('z'), None, 'u') => Some(vec![(String::from_str("ズ"), BufferState::Stop)]),
            (Some('z'), None, 'e') => Some(vec![(String::from_str("ゼ"), BufferState::Stop)]),
            (Some('z'), None, 'o') => Some(vec![(String::from_str("ゾ"), BufferState::Stop)]),
            (None, None, 't') => Some(vec![(String::from_str("t"), BufferState::Continue)]),
            (Some('t'), None, 'a') => Some(vec![(String::from_str("タ"), BufferState::Stop)]),
            (Some('t'), None, 'i') => Some(vec![(String::from_str("チ"), BufferState::Stop)]),
            (Some('t'), None, 'u') => Some(vec![(String::from_str("ツ"), BufferState::Stop)]),
            (Some('t'), None, 'e') => Some(vec![(String::from_str("テ"), BufferState::Stop)]),
            (Some('t'), None, 'o') => Some(vec![(String::from_str("ト"), BufferState::Stop)]),
            (Some('t'), None, 's') => Some(vec![(String::from_str("ts"), BufferState::Continue)]),
            (Some('t'), Some('s'), 'a') => Some(vec![(String::from_str("ツ"), BufferState::Stop), (String::from_str("ァ"), BufferState::Stop)]),
            (Some('t'), Some('s'), 'i') => Some(vec![(String::from_str("ツ"), BufferState::Stop), (String::from_str("ィ"), BufferState::Stop)]),
            (Some('t'), Some('s'), 'u') => Some(vec![(String::from_str("ツ"), BufferState::Stop)]),
            (Some('t'), Some('s'), 'e') => Some(vec![(String::from_str("ツ"), BufferState::Stop), (String::from_str("ゥ"), BufferState::Stop)]),
            (Some('t'), Some('s'), 'o') => Some(vec![(String::from_str("ツ"), BufferState::Stop), (String::from_str("ォ"), BufferState::Stop)]),
            (None, None, 'd') => Some(vec![(String::from_str("d"), BufferState::Continue)]),
            (Some('d'), None, 'a') => Some(vec![(String::from_str("ダ"), BufferState::Stop)]),
            (Some('d'), None, 'i') => Some(vec![(String::from_str("ヂ"), BufferState::Stop)]),
            (Some('d'), None, 'u') => Some(vec![(String::from_str("ヅ"), BufferState::Stop)]),
            (Some('d'), None, 'e') => Some(vec![(String::from_str("デ"), BufferState::Stop)]),
            (Some('d'), None, 'o') => Some(vec![(String::from_str("ド"), BufferState::Stop)]),
            (Some('d'), None, 'h') => Some(vec![(String::from_str("dh"), BufferState::Continue)]),
            (Some('d'), Some('h'), 'a') => Some(vec![(String::from_str("デ"), BufferState::Stop), (String::from_str("ャ"), BufferState::Stop)]),
            (Some('d'), Some('h'), 'i') => Some(vec![(String::from_str("デ"), BufferState::Stop), (String::from_str("ィ"), BufferState::Stop)]),
            (Some('d'), Some('h'), 'u') => Some(vec![(String::from_str("デ"), BufferState::Stop), (String::from_str("ュ"), BufferState::Stop)]),
            (Some('d'), Some('h'), 'e') => Some(vec![(String::from_str("デ"), BufferState::Stop), (String::from_str("ェ"), BufferState::Stop)]),
            (Some('d'), Some('h'), 'o') => Some(vec![(String::from_str("デ"), BufferState::Stop), (String::from_str("ョ"), BufferState::Stop)]),
            (Some('d'), None, 'y') => Some(vec![(String::from_str("dy"), BufferState::Continue)]),
            (Some('d'), Some('y'), 'a') => Some(vec![(String::from_str("ヂ"), BufferState::Stop), (String::from_str("ャ"), BufferState::Stop)]),
            (Some('d'), Some('y'), 'i') => Some(vec![(String::from_str("ヂ"), BufferState::Stop), (String::from_str("ィ"), BufferState::Stop)]),
            (Some('d'), Some('y'), 'u') => Some(vec![(String::from_str("ヂ"), BufferState::Stop), (String::from_str("ュ"), BufferState::Stop)]),
            (Some('d'), Some('y'), 'e') => Some(vec![(String::from_str("ヂ"), BufferState::Stop), (String::from_str("ェ"), BufferState::Stop)]),
            (Some('d'), Some('y'), 'o') => Some(vec![(String::from_str("ヂ"), BufferState::Stop), (String::from_str("ョ"), BufferState::Stop)]),
            (None, None, 'c') => Some(vec![(String::from_str("c"), BufferState::Continue)]),
            (Some('c'), None, 'h') => Some(vec![(String::from_str("ch"), BufferState::Continue)]),
            (Some('c'), Some('h'), 'a') => Some(vec![(String::from_str("チ"), BufferState::Stop), (String::from_str("ァ"), BufferState::Stop)]),
            (Some('c'), Some('h'), 'i') => Some(vec![(String::from_str("チ"), BufferState::Stop)]),
            (Some('c'), Some('h'), 'u') => Some(vec![(String::from_str("チ"), BufferState::Stop), (String::from_str("ュ"), BufferState::Stop)]),
            (Some('c'), Some('h'), 'e') => Some(vec![(String::from_str("チ"), BufferState::Stop), (String::from_str("ェ"), BufferState::Stop)]),
            (Some('c'), Some('h'), 'o') => Some(vec![(String::from_str("チ"), BufferState::Stop), (String::from_str("ョ"), BufferState::Stop)]),
            (Some('c'), None, 'y') => Some(vec![(String::from_str("cy"), BufferState::Continue)]),
            (Some('c'), Some('y'), 'a') => Some(vec![(String::from_str("チ"), BufferState::Stop), (String::from_str("ァ"), BufferState::Stop)]),
            (Some('c'), Some('y'), 'i') => Some(vec![(String::from_str("チ"), BufferState::Stop), (String::from_str("ィ"), BufferState::Stop)]),
            (Some('c'), Some('y'), 'u') => Some(vec![(String::from_str("チ"), BufferState::Stop), (String::from_str("ュ"), BufferState::Stop)]),
            (Some('c'), Some('y'), 'e') => Some(vec![(String::from_str("チ"), BufferState::Stop), (String::from_str("ェ"), BufferState::Stop)]),
            (Some('c'), Some('y'), 'o') => Some(vec![(String::from_str("チ"), BufferState::Stop), (String::from_str("ョ"), BufferState::Stop)]),
            (None, None, 'n') => Some(vec![(String::from_str("n"), BufferState::Continue)]),
            (Some('n'), None, 'a') => Some(vec![(String::from_str("ナ"), BufferState::Stop)]),
            (Some('n'), None, 'i') => Some(vec![(String::from_str("ニ"), BufferState::Stop)]),
            (Some('n'), None, 'u') => Some(vec![(String::from_str("ヌ"), BufferState::Stop)]),
            (Some('n'), None, 'e') => Some(vec![(String::from_str("ネ"), BufferState::Stop)]),
            (Some('n'), None, 'o') => Some(vec![(String::from_str("ノ"), BufferState::Stop)]),
            (Some('n'), None, 'n') => Some(vec![(String::from_str("ン"), BufferState::Stop)]),
            (None, None, 'h') => Some(vec![(String::from_str("h"), BufferState::Continue)]),
            (Some('h'), None, 'a') => Some(vec![(String::from_str("ハ"), BufferState::Stop)]),
            (Some('h'), None, 'i') => Some(vec![(String::from_str("ヒ"), BufferState::Stop)]),
            (Some('h'), None, 'u') => Some(vec![(String::from_str("フ"), BufferState::Stop)]),
            (Some('h'), None, 'e') => Some(vec![(String::from_str("ヘ"), BufferState::Stop)]),
            (Some('h'), None, 'o') => Some(vec![(String::from_str("ホ"), BufferState::Stop)]),
            (None, None, 'p') => Some(vec![(String::from_str("p"), BufferState::Continue)]),
            (Some('p'), None, 'a') => Some(vec![(String::from_str("パ"), BufferState::Stop)]),
            (Some('p'), None, 'i') => Some(vec![(String::from_str("ピ"), BufferState::Stop)]),
            (Some('p'), None, 'u') => Some(vec![(String::from_str("プ"), BufferState::Stop)]),
            (Some('p'), None, 'e') => Some(vec![(String::from_str("ペ"), BufferState::Stop)]),
            (Some('p'), None, 'o') => Some(vec![(String::from_str("ポ"), BufferState::Stop)]),
            (None, None, 'b') => Some(vec![(String::from_str("b"), BufferState::Continue)]),
            (Some('b'), None, 'a') => Some(vec![(String::from_str("バ"), BufferState::Stop)]),
            (Some('b'), None, 'i') => Some(vec![(String::from_str("ビ"), BufferState::Stop)]),
            (Some('b'), None, 'u') => Some(vec![(String::from_str("ブ"), BufferState::Stop)]),
            (Some('b'), None, 'e') => Some(vec![(String::from_str("ベ"), BufferState::Stop)]),
            (Some('b'), None, 'o') => Some(vec![(String::from_str("ボ"), BufferState::Stop)]),
            (None, None, 'f') => Some(vec![(String::from_str("f"), BufferState::Continue)]),
            (Some('f'), None, 'a') => Some(vec![(String::from_str("フ"), BufferState::Stop), (String::from_str("ァ"), BufferState::Stop)]),
            (Some('f'), None, 'i') => Some(vec![(String::from_str("フ"), BufferState::Stop), (String::from_str("ィ"), BufferState::Stop)]),
            (Some('f'), None, 'u') => Some(vec![(String::from_str("フ"), BufferState::Stop)]),
            (Some('f'), None, 'e') => Some(vec![(String::from_str("フ"), BufferState::Stop), (String::from_str("ェ"), BufferState::Stop)]),
            (Some('f'), None, 'o') => Some(vec![(String::from_str("フ"), BufferState::Stop), (String::from_str("ォ"), BufferState::Stop)]),
            (None, None, 'm') => Some(vec![(String::from_str("m"), BufferState::Continue)]),
            (Some('m'), None, 'a') => Some(vec![(String::from_str("マ"), BufferState::Stop)]),
            (Some('m'), None, 'i') => Some(vec![(String::from_str("ミ"), BufferState::Stop)]),
            (Some('m'), None, 'u') => Some(vec![(String::from_str("ム"), BufferState::Stop)]),
            (Some('m'), None, 'e') => Some(vec![(String::from_str("メ"), BufferState::Stop)]),
            (Some('m'), None, 'o') => Some(vec![(String::from_str("モ"), BufferState::Stop)]),
            (None, None, 'y') => Some(vec![(String::from_str("y"), BufferState::Continue)]),
            (Some('y'), None, 'a') => Some(vec![(String::from_str("ヤ"), BufferState::Stop)]),
            (Some('y'), None, 'i') => Some(vec![(String::from_str("イ"), BufferState::Stop)]),
            (Some('y'), None, 'u') => Some(vec![(String::from_str("ユ"), BufferState::Stop)]),
            (Some('y'), None, 'e') => Some(vec![(String::from_str("ェ"), BufferState::Stop), (String::from_str("ェ"), BufferState::Stop)]),
            (Some('y'), None, 'o') => Some(vec![(String::from_str("ヨ"), BufferState::Stop)]),
            (None, None, 'j') => Some(vec![(String::from_str("j"), BufferState::Continue)]),
            (Some('j'), None, 'a') => Some(vec![(String::from_str("ジ"), BufferState::Stop), (String::from_str("ャ"), BufferState::Stop)]),
            (Some('j'), None, 'i') => Some(vec![(String::from_str("ジ"), BufferState::Stop)]),
            (Some('j'), None, 'u') => Some(vec![(String::from_str("ジ"), BufferState::Stop), (String::from_str("ュ"), BufferState::Stop)]),
            (Some('j'), None, 'e') => Some(vec![(String::from_str("ジ"), BufferState::Stop), (String::from_str("ェ"), BufferState::Stop)]),
            (Some('j'), None, 'o') => Some(vec![(String::from_str("ジ"), BufferState::Stop), (String::from_str("ョ"), BufferState::Stop)]),
            (Some('j'), None, 'y') => Some(vec![(String::from_str("jy"), BufferState::Continue)]),
            (Some('j'), Some('y'), 'a') => Some(vec![(String::from_str("ジ"), BufferState::Stop), (String::from_str("ャ"), BufferState::Stop)]),
            (Some('j'), Some('y'), 'i') => Some(vec![(String::from_str("ジ"), BufferState::Stop), (String::from_str("ィ"), BufferState::Stop)]),
            (Some('j'), Some('y'), 'u') => Some(vec![(String::from_str("ジ"), BufferState::Stop), (String::from_str("ュ"), BufferState::Stop)]),
            (Some('j'), Some('y'), 'e') => Some(vec![(String::from_str("ジ"), BufferState::Stop), (String::from_str("ェ"), BufferState::Stop)]),
            (Some('j'), Some('y'), 'o') => Some(vec![(String::from_str("ジ"), BufferState::Stop), (String::from_str("ョ"), BufferState::Stop)]),
            (None, None, 'r') => Some(vec![(String::from_str("r"), BufferState::Continue)]),
            (Some('r'), None, 'a') => Some(vec![(String::from_str("ラ"), BufferState::Stop)]),
            (Some('r'), None, 'i') => Some(vec![(String::from_str("リ"), BufferState::Stop)]),
            (Some('r'), None, 'u') => Some(vec![(String::from_str("ル"), BufferState::Stop)]),
            (Some('r'), None, 'e') => Some(vec![(String::from_str("レ"), BufferState::Stop)]),
            (Some('r'), None, 'o') => Some(vec![(String::from_str("ロ"), BufferState::Stop)]),
            (None, None, 'w') => Some(vec![(String::from_str("w"), BufferState::Continue)]),
            (Some('w'), None, 'a') => Some(vec![(String::from_str("ワ"), BufferState::Stop)]),
            (Some('w'), None, 'i') => Some(vec![(String::from_str("ウ"), BufferState::Stop), (String::from_str("ィ"), BufferState::Stop)]),
            (Some('w'), None, 'u') => Some(vec![(String::from_str("ウ"), BufferState::Stop)]),
            (Some('w'), None, 'e') => Some(vec![(String::from_str("ウ"), BufferState::Stop), (String::from_str("ェ"), BufferState::Stop)]),
            (Some('w'), None, 'o') => Some(vec![(String::from_str("ヲ"), BufferState::Stop)]),
            (None, None, 'v') => Some(vec![(String::from_str("v"), BufferState::Continue)]),
            (Some('v'), None, 'a') => Some(vec![(String::from_str("ヴ"), BufferState::Stop), (String::from_str("ァ"), BufferState::Stop)]),
            (Some('v'), None, 'i') => Some(vec![(String::from_str("ヴ"), BufferState::Stop), (String::from_str("ィ"), BufferState::Stop)]),
            (Some('v'), None, 'u') => Some(vec![(String::from_str("ヴ"), BufferState::Stop)]),
            (Some('v'), None, 'e') => Some(vec![(String::from_str("ヴ"), BufferState::Stop), (String::from_str("ェ"), BufferState::Stop)]),
            (Some('v'), None, 'o') => Some(vec![(String::from_str("ヴ"), BufferState::Stop)]),
            (None, None, 'x') => Some(vec![(String::from_str("x"), BufferState::Continue)]),
            (Some('x'), None, 'a') => Some(vec![(String::from_str("ァ"), BufferState::Stop)]),
            (Some('x'), None, 'i') => Some(vec![(String::from_str("ィ"), BufferState::Stop)]),
            (Some('x'), None, 'u') => Some(vec![(String::from_str("ゥ"), BufferState::Stop)]),
            (Some('x'), None, 'e') => Some(vec![(String::from_str("ェ"), BufferState::Stop)]),
            (Some('x'), None, 'o') => Some(vec![(String::from_str("ォ"), BufferState::Stop)]),
            (Some('x'), None, 'y') => Some(vec![(String::from_str("xy"), BufferState::Continue)]),
            (Some('x'), Some('y'), 'a') => Some(vec![(String::from_str("ャ"), BufferState::Stop)]),
            (Some('x'), Some('y'), 'i') => Some(vec![(String::from_str("イ"), BufferState::Stop)]),
            (Some('x'), Some('y'), 'u') => Some(vec![(String::from_str("ュ"), BufferState::Stop)]),
            (Some('x'), Some('y'), 'e') => Some(vec![(String::from_str("エ"), BufferState::Stop)]),
            (Some('x'), Some('y'), 'o') => Some(vec![(String::from_str("ョ"), BufferState::Stop)]),
            (Some('w'), None, 'w') => Some(vec![(String::from_str("ッ"), BufferState::Stop), (String::from_str("w"), BufferState::Continue)]),
            (Some('r'), None, 'r') => Some(vec![(String::from_str("ッ"), BufferState::Stop), (String::from_str("r"), BufferState::Continue)]),
            (Some('t'), None, 't') => Some(vec![(String::from_str("ッ"), BufferState::Stop), (String::from_str("t"), BufferState::Continue)]),
            (Some('y'), None, 'y') => Some(vec![(String::from_str("ッ"), BufferState::Stop), (String::from_str("y"), BufferState::Continue)]),
            (Some('p'), None, 'p') => Some(vec![(String::from_str("ッ"), BufferState::Stop), (String::from_str("p"), BufferState::Continue)]),
            (Some('s'), None, 's') => Some(vec![(String::from_str("ッ"), BufferState::Stop), (String::from_str("s"), BufferState::Continue)]),
            (Some('d'), None, 'd') => Some(vec![(String::from_str("ッ"), BufferState::Stop), (String::from_str("d"), BufferState::Continue)]),
            (Some('g'), None, 'g') => Some(vec![(String::from_str("ッ"), BufferState::Stop), (String::from_str("g"), BufferState::Continue)]),
            (Some('h'), None, 'h') => Some(vec![(String::from_str("ッ"), BufferState::Stop), (String::from_str("h"), BufferState::Continue)]),
            (Some('j'), None, 'j') => Some(vec![(String::from_str("ッ"), BufferState::Stop), (String::from_str("j"), BufferState::Continue)]),
            (Some('k'), None, 'k') => Some(vec![(String::from_str("ッ"), BufferState::Stop), (String::from_str("k"), BufferState::Continue)]),
            (Some('l'), None, 'l') => Some(vec![(String::from_str("ッ"), BufferState::Stop), (String::from_str("l"), BufferState::Continue)]),
            (Some('z'), None, 'z') => Some(vec![(String::from_str("ッ"), BufferState::Stop), (String::from_str("z"), BufferState::Continue)]),
            (Some('x'), None, 'x') => Some(vec![(String::from_str("ッ"), BufferState::Stop), (String::from_str("x"), BufferState::Continue)]),
            (Some('c'), None, 'c') => Some(vec![(String::from_str("ッ"), BufferState::Stop), (String::from_str("c"), BufferState::Continue)]),
            (Some('v'), None, 'v') => Some(vec![(String::from_str("ッ"), BufferState::Stop), (String::from_str("v"), BufferState::Continue)]),
            (Some('b'), None, 'b') => Some(vec![(String::from_str("ッ"), BufferState::Stop), (String::from_str("b"), BufferState::Continue)]),
            (Some('m'), None, 'm') => Some(vec![(String::from_str("ッ"), BufferState::Stop), (String::from_str("m"), BufferState::Continue)]),
            (Some('n'), None, 'w') => Some(vec![(String::from_str("ン"), BufferState::Stop), (String::from_str("w"), BufferState::Continue)]),
            (Some('n'), None, 'r') => Some(vec![(String::from_str("ン"), BufferState::Stop), (String::from_str("r"), BufferState::Continue)]),
            (Some('n'), None, 't') => Some(vec![(String::from_str("ン"), BufferState::Stop), (String::from_str("t"), BufferState::Continue)]),
            (Some('n'), None, 'y') => Some(vec![(String::from_str("ン"), BufferState::Stop), (String::from_str("y"), BufferState::Continue)]),
            (Some('n'), None, 'p') => Some(vec![(String::from_str("ン"), BufferState::Stop), (String::from_str("p"), BufferState::Continue)]),
            (Some('n'), None, 's') => Some(vec![(String::from_str("ン"), BufferState::Stop), (String::from_str("s"), BufferState::Continue)]),
            (Some('n'), None, 'd') => Some(vec![(String::from_str("ン"), BufferState::Stop), (String::from_str("d"), BufferState::Continue)]),
            (Some('n'), None, 'g') => Some(vec![(String::from_str("ン"), BufferState::Stop), (String::from_str("g"), BufferState::Continue)]),
            (Some('n'), None, 'h') => Some(vec![(String::from_str("ン"), BufferState::Stop), (String::from_str("h"), BufferState::Continue)]),
            (Some('n'), None, 'j') => Some(vec![(String::from_str("ン"), BufferState::Stop), (String::from_str("j"), BufferState::Continue)]),
            (Some('n'), None, 'k') => Some(vec![(String::from_str("ン"), BufferState::Stop), (String::from_str("k"), BufferState::Continue)]),
            (Some('n'), None, 'l') => Some(vec![(String::from_str("ン"), BufferState::Stop), (String::from_str("l"), BufferState::Continue)]),
            (Some('n'), None, 'z') => Some(vec![(String::from_str("ン"), BufferState::Stop), (String::from_str("z"), BufferState::Continue)]),
            (Some('n'), None, 'x') => Some(vec![(String::from_str("ン"), BufferState::Stop), (String::from_str("x"), BufferState::Continue)]),
            (Some('n'), None, 'c') => Some(vec![(String::from_str("ン"), BufferState::Stop), (String::from_str("c"), BufferState::Continue)]),
            (Some('n'), None, 'v') => Some(vec![(String::from_str("ン"), BufferState::Stop), (String::from_str("v"), BufferState::Continue)]),
            (Some('n'), None, 'b') => Some(vec![(String::from_str("ン"), BufferState::Stop), (String::from_str("b"), BufferState::Continue)]),
            (Some('n'), None, 'm') => Some(vec![(String::from_str("ン"), BufferState::Stop), (String::from_str("m"), BufferState::Continue)]),
            (None, None, '1') => Some(vec![(String::from_str("1"), BufferState::Stop)]),
            (None, None, '2') => Some(vec![(String::from_str("2"), BufferState::Stop)]),
            (None, None, '3') => Some(vec![(String::from_str("3"), BufferState::Stop)]),
            (None, None, '4') => Some(vec![(String::from_str("4"), BufferState::Stop)]),
            (None, None, '5') => Some(vec![(String::from_str("5"), BufferState::Stop)]),
            (None, None, '6') => Some(vec![(String::from_str("6"), BufferState::Stop)]),
            (None, None, '7') => Some(vec![(String::from_str("7"), BufferState::Stop)]),
            (None, None, '8') => Some(vec![(String::from_str("8"), BufferState::Stop)]),
            (None, None, '9') => Some(vec![(String::from_str("9"), BufferState::Stop)]),
            (None, None, '0') => Some(vec![(String::from_str("0"), BufferState::Stop)]),
            (None, None, ',') => Some(vec![(String::from_str("、"), BufferState::Stop)]),
            (None, None, '.') => Some(vec![(String::from_str("。"), BufferState::Stop)]),
            (None, None, '?') => Some(vec![(String::from_str("？"), BufferState::Stop)]),
            (None, None, '/') => Some(vec![(String::from_str("/"), BufferState::Stop)]),
            (None, None, ';') => Some(vec![(String::from_str(";"), BufferState::Stop)]),
            (None, None, ':') => Some(vec![(String::from_str(":"), BufferState::Stop)]),
            (None, None, '\'') => Some(vec![(String::from_str("\\"), BufferState::Stop)]),
            (None, None, '`') => Some(vec![(String::from_str("`"), BufferState::Stop)]),
            (None, None, '~') => Some(vec![(String::from_str("~"), BufferState::Stop)]),
            (None, None, '!') => Some(vec![(String::from_str("！"), BufferState::Stop)]),
            (None, None, '@') => Some(vec![(String::from_str("@"), BufferState::Stop)]),
            (None, None, '#') => Some(vec![(String::from_str("#"), BufferState::Stop)]),
            (None, None, '$') => Some(vec![(String::from_str("$"), BufferState::Stop)]),
            (None, None, '%') => Some(vec![(String::from_str("%"), BufferState::Stop)]),
            (None, None, '^') => Some(vec![(String::from_str("^"), BufferState::Stop)]),
            (None, None, '&') => Some(vec![(String::from_str("&"), BufferState::Stop)]),
            (None, None, '*') => Some(vec![(String::from_str("*"), BufferState::Stop)]),
            (None, None, '\\') => Some(vec![(String::from_str("\\"), BufferState::Stop)]),
            (None, None, '|') => Some(vec![(String::from_str("|"), BufferState::Stop)]),
            (None, None, '(') => Some(vec![(String::from_str("（"), BufferState::Stop)]),
            (None, None, ')') => Some(vec![(String::from_str("）"), BufferState::Stop)]),
            (None, None, '[') => Some(vec![(String::from_str("「"), BufferState::Stop)]),
            (None, None, ']') => Some(vec![(String::from_str("」"), BufferState::Stop)]),
            (None, None, '{') => Some(vec![(String::from_str("{"), BufferState::Stop)]),
            (None, None, '}') => Some(vec![(String::from_str("}"), BufferState::Stop)]),
            (None, None, '<') => Some(vec![(String::from_str("<"), BufferState::Stop)]),
            (None, None, '>') => Some(vec![(String::from_str(">"), BufferState::Stop)]),
            (Some('z'), None, ' ') => Some(vec![(String::from_str("　"), BufferState::Stop)]),
            (Some('z'), None, '[') => Some(vec![(String::from_str("『"), BufferState::Stop)]),
            (Some('z'), None, ']') => Some(vec![(String::from_str("』"), BufferState::Stop)]),
            (Some('z'), None, ',') => Some(vec![(String::from_str("‥"), BufferState::Stop)]),
            (Some('z'), None, '.') => Some(vec![(String::from_str("…"), BufferState::Stop)]),
            (Some('z'), None, '/') => Some(vec![(String::from_str("・"), BufferState::Stop)]),
            (Some('z'), None, 'h') => Some(vec![(String::from_str("←"), BufferState::Stop)]),
            (Some('z'), None, 'j') => Some(vec![(String::from_str("↓"), BufferState::Stop)]),
            (Some('z'), None, 'k') => Some(vec![(String::from_str("↑"), BufferState::Stop)]),
            (Some('z'), None, 'l') => Some(vec![(String::from_str("→"), BufferState::Stop)]),
        _ => None,
    }
}

/// Converts the pending buffer of a pair and a typed character with the
/// katakana table.
pub fn convert(current_buffer: &str, character: char) -> (r: Option<Vec<BufferPair>>)
    ensures
        super::pairs_match_rule(r, LetterType::Katakana, super::conversion(LetterType::Katakana, current_buffer@, character)),
{
    let character = lowercase_first(character);
    let n: usize = current_buffer.unicode_len();
    if n > 2 {
        return None;
    }
    let p0 = if n >= 1 { Some(current_buffer.get_char(0)) } else { None };
    let p1 = if n >= 2 { Some(current_buffer.get_char(1)) } else { None };
    let rule = katakana_rule(p0, p1, character);
    pairs_from_rule(LetterType::Katakana, rule, Ghost(katakana_table(p0, p1, character)))
}

} // verus!
