//! What the romaji tables give, stated by the layout of the kana blocks of
//! Unicode: the kana of each row stand at fixed distances from the row's
//! first kana, and the katakana block is the hiragana block moved 0x60
//! further on.
use vstd::prelude::*;
use super::hiragana::hiragana_table;
use super::katakana::katakana_table;
use crate::transformers::BufferState;

verus! {

/// The place of a vowel in the kana table: a, i, u, e, o; -1 for others.
pub open spec fn vowel_index(v: char) -> int {
    if v == 'a' {
        0
    } else if v == 'i' {
        1
    } else if v == 'u' {
        2
    } else if v == 'e' {
        3
    } else if v == 'o' {
        4
    } else {
        -1
    }
}

pub open spec fn is_vowel(v: char) -> bool {
    vowel_index(v) >= 0
}

/// The code of a vowel's hiragana: あ, い, う, え, お stand two apart.
pub open spec fn vowel_code(v: char) -> int {
    0x3042 + 2 * vowel_index(v)
}

/// The consonants of the regular rows of the kana table.
pub open spec fn is_row_consonant(c: char) -> bool {
    c == 'k' || c == 'g' || c == 's' || c == 'z' || c == 't' || c == 'd' || c == 'n' || c == 'h' || c == 'b'
        || c == 'p' || c == 'm' || c == 'r'
}

/// The code of the first hiragana of a consonant's row (its `a` column).
pub open spec fn row_start(c: char) -> int {
    if c == 'k' {
        0x304B
    } else if c == 'g' {
        0x304C
    } else if c == 's' {
        0x3055
    } else if c == 'z' {
        0x3056
    } else if c == 't' {
        0x305F
    } else if c == 'd' {
        0x3060
    } else if c == 'n' {
        0x306A
    } else if c == 'h' {
        0x306F
    } else if c == 'b' {
        0x3070
    } else if c == 'p' {
        0x3071
    } else if c == 'm' {
        0x307E
    } else {
        0x3089
    }
}

/// How far the kana of a column stands from its row's first kana: rows
/// with voiced forms keep them in between (two apart; three for the h row,
/// which also has the p forms), the t row also holds the small っ after
/// ち, and the n, m and r rows stand one apart.
pub open spec fn column_offset(c: char, i: int) -> int {
    if c == 'k' || c == 'g' || c == 's' || c == 'z' {
        2 * i
    } else if c == 'h' || c == 'b' || c == 'p' {
        3 * i
    } else if c == 't' || c == 'd' {
        if i <= 1 {
            2 * i
        } else {
            2 * i + 1
        }
    } else {
        i
    }
}

/// The code of the hiragana of a consonant and a vowel.
pub open spec fn syllable_code(c: char, v: char) -> int {
    row_start(c) + column_offset(c, vowel_index(v))
}

/// The code of the hiragana of the y row: や, ゆ, よ stand two apart.
pub open spec fn y_code(v: char) -> int {
    if v == 'a' {
        0x3084
    } else if v == 'u' {
        0x3086
    } else {
        0x3088
    }
}

/// The code of the katakana at the place of a hiragana: the katakana
/// block is the hiragana block moved 0x60 further on.
pub open spec fn katakana_of(code: int) -> int {
    code + 0x60
}

/// The letters that wait for the next one.
pub open spec fn is_starter(c: char) -> bool {
    c == 'b' || c == 'c' || c == 'd' || c == 'f' || c == 'g' || c == 'h' || c == 'j' || c == 'k' || c == 'm' || c == 'n' || c == 'p' || c == 'r' || c == 's' || c == 't' || c == 'v' || c == 'w' || c == 'x' || c == 'y' || c == 'z'
}

/// A rule that gives one finished kana of a code.
pub open spec fn one_kana(r: Option<Seq<(Seq<char>, BufferState)>>, code: int) -> bool {
    &&& r is Some
    &&& r->0.len() == 1
    &&& r->0[0].1 == BufferState::Stop
    &&& r->0[0].0.len() == 1
    &&& r->0[0].0[0] as int == code
}

/// A rule that keeps a letter pending.
pub open spec fn waits(r: Option<Seq<(Seq<char>, BufferState)>>, c: char) -> bool {
    &&& r is Some
    &&& r->0.len() == 1
    &&& r->0[0].1 == BufferState::Continue
    &&& r->0[0].0 =~= seq![c]
}

/// A rule that gives one finished kana of a code, then keeps a letter
/// pending.
pub open spec fn kana_then_waits(r: Option<Seq<(Seq<char>, BufferState)>>, code: int, c: char) -> bool {
    &&& r is Some
    &&& r->0.len() == 2
    &&& r->0[0].1 == BufferState::Stop
    &&& r->0[0].0.len() == 1
    &&& r->0[0].0[0] as int == code
    &&& r->0[1].1 == BufferState::Continue
    &&& r->0[1].0 =~= seq![c]
}

/// Typing the romaji of a syllable in hiragana: a vowel gives its kana; a
/// consonant of a regular row then a vowel gives the kana of that row and
/// column (but ze and zo, which the table sends to で and ど); y and w
/// with the vowels of their rows give や, ゆ, よ, わ and を.
pub proof fn law_hiragana_syllables(c: char, v: char)
    ensures
        is_vowel(v) ==> one_kana(hiragana_table(None, None, v), vowel_code(v)),
        is_row_consonant(c) && is_vowel(v) && !(c == 'z' && (v == 'e' || v == 'o')) ==> one_kana(hiragana_table(Some(c), None, v), syllable_code(c, v)),
        c == 'y' && (v == 'a' || v == 'u' || v == 'o') ==> one_kana(hiragana_table(Some(c), None, v), y_code(v)),
        c == 'w' && v == 'a' ==> one_kana(hiragana_table(Some(c), None, v), 0x308F),
        c == 'w' && v == 'o' ==> one_kana(hiragana_table(Some(c), None, v), 0x3092),
{
    if is_vowel(v) {
        reveal_strlit("あ");
        reveal_strlit("い");
        reveal_strlit("う");
        reveal_strlit("え");
        reveal_strlit("お");
    }
    if !is_vowel(v) {
    } else if c == 'k' && v == 'a' {
        reveal_strlit("か");
    } else if c == 'k' && v == 'i' {
        reveal_strlit("き");
    } else if c == 'k' && v == 'u' {
        reveal_strlit("く");
    } else if c == 'k' && v == 'e' {
        reveal_strlit("け");
    } else if c == 'k' && v == 'o' {
        reveal_strlit("こ");
    } else if c == 'g' && v == 'a' {
        reveal_strlit("が");
    } else if c == 'g' && v == 'i' {
        reveal_strlit("ぎ");
    } else if c == 'g' && v == 'u' {
        reveal_strlit("ぐ");
    } else if c == 'g' && v == 'e' {
        reveal_strlit("げ");
    } else if c == 'g' && v == 'o' {
        reveal_strlit("ご");
    } else if c == 's' && v == 'a' {
        reveal_strlit("さ");
    } else if c == 's' && v == 'i' {
        reveal_strlit("し");
    } else if c == 's' && v == 'u' {
        reveal_strlit("す");
    } else if c == 's' && v == 'e' {
        reveal_strlit("せ");
    } else if c == 's' && v == 'o' {
        reveal_strlit("そ");
    } else if c == 'z' && v == 'a' {
        reveal_strlit("ざ");
    } else if c == 'z' && v == 'i' {
        reveal_strlit("じ");
    } else if c == 'z' && v == 'u' {
        reveal_strlit("ず");
    } else if c == 't' && v == 'a' {
        reveal_strlit("た");
    } else if c == 't' && v == 'i' {
        reveal_strlit("ち");
    } else if c == 't' && v == 'u' {
        reveal_strlit("つ");
    } else if c == 't' && v == 'e' {
        reveal_strlit("て");
    } else if c == 't' && v == 'o' {
        reveal_strlit("と");
    } else if c == 'd' && v == 'a' {
        reveal_strlit("だ");
    } else if c == 'd' && v == 'i' {
        reveal_strlit("ぢ");
    } else if c == 'd' && v == 'u' {
        reveal_strlit("づ");
    } else if c == 'd' && v == 'e' {
        reveal_strlit("で");
    } else if c == 'd' && v == 'o' {
        reveal_strlit("ど");
    } else if c == 'n' && v == 'a' {
        reveal_strlit("な");
    } else if c == 'n' && v == 'i' {
        reveal_strlit("に");
    } else if c == 'n' && v == 'u' {
        reveal_strlit("ぬ");
    } else if c == 'n' && v == 'e' {
        reveal_strlit("ね");
    } else if c == 'n' && v == 'o' {
        reveal_strlit("の");
    } else if c == 'h' && v == 'a' {
        reveal_strlit("は");
    } else if c == 'h' && v == 'i' {
        reveal_strlit("ひ");
    } else if c == 'h' && v == 'u' {
        reveal_strlit("ふ");
    } else if c == 'h' && v == 'e' {
        reveal_strlit("へ");
    } else if c == 'h' && v == 'o' {
        reveal_strlit("ほ");
    } else if c == 'b' && v == 'a' {
        reveal_strlit("ば");
    } else if c == 'b' && v == 'i' {
        reveal_strlit("び");
    } else if c == 'b' && v == 'u' {
        reveal_strlit("ぶ");
    } else if c == 'b' && v == 'e' {
        reveal_strlit("べ");
    } else if c == 'b' && v == 'o' {
        reveal_strlit("ぼ");
    } else if c == 'p' && v == 'a' {
        reveal_strlit("ぱ");
    } else if c == 'p' && v == 'i' {
        reveal_strlit("ぴ");
    } else if c == 'p' && v == 'u' {
        reveal_strlit("ぷ");
    } else if c == 'p' && v == 'e' {
        reveal_strlit("ぺ");
    } else if c == 'p' && v == 'o' {
        reveal_strlit("ぽ");
    } else if c == 'm' && v == 'a' {
        reveal_strlit("ま");
    } else if c == 'm' && v == 'i' {
        reveal_strlit("み");
    } else if c == 'm' && v == 'u' {
        reveal_strlit("む");
    } else if c == 'm' && v == 'e' {
        reveal_strlit("め");
    } else if c == 'm' && v == 'o' {
        reveal_strlit("も");
    } else if c == 'r' && v == 'a' {
        reveal_strlit("ら");
    } else if c == 'r' && v == 'i' {
        reveal_strlit("り");
    } else if c == 'r' && v == 'u' {
        reveal_strlit("る");
    } else if c == 'r' && v == 'e' {
        reveal_strlit("れ");
    } else if c == 'r' && v == 'o' {
        reveal_strlit("ろ");
    } else if c == 'y' && v == 'a' {
        reveal_strlit("や");
    } else if c == 'y' && v == 'u' {
        reveal_strlit("ゆ");
    } else if c == 'y' && v == 'o' {
        reveal_strlit("よ");
    } else if c == 'w' && v == 'a' {
        reveal_strlit("わ");
    } else if c == 'w' && v == 'o' {
        reveal_strlit("を");
    }
}

/// Typing the romaji of a syllable in katakana: a vowel gives its kana; a
/// consonant of a regular row then a vowel gives the kana of that row and
/// column; y and w with the vowels of their rows give や, ゆ, よ, わ and を.
/// Each kana is the one at the hiragana's place in the katakana block.
pub proof fn law_katakana_syllables(c: char, v: char)
    ensures
        is_vowel(v) ==> one_kana(katakana_table(None, None, v), katakana_of(vowel_code(v))),
        is_row_consonant(c) && is_vowel(v) ==> one_kana(katakana_table(Some(c), None, v), katakana_of(syllable_code(c, v))),
        c == 'y' && (v == 'a' || v == 'u' || v == 'o') ==> one_kana(katakana_table(Some(c), None, v), katakana_of(y_code(v))),
        c == 'w' && v == 'a' ==> one_kana(katakana_table(Some(c), None, v), katakana_of(0x308F)),
        c == 'w' && v == 'o' ==> one_kana(katakana_table(Some(c), None, v), katakana_of(0x3092)),
{
    if is_vowel(v) {
        reveal_strlit("ア");
        reveal_strlit("イ");
        reveal_strlit("ウ");
        reveal_strlit("エ");
        reveal_strlit("オ");
    }
    if !is_vowel(v) {
    } else if c == 'k' && v == 'a' {
        reveal_strlit("カ");
    } else if c == 'k' && v == 'i' {
        reveal_strlit("キ");
    } else if c == 'k' && v == 'u' {
        reveal_strlit("ク");
    } else if c == 'k' && v == 'e' {
        reveal_strlit("ケ");
    } else if c == 'k' && v == 'o' {
        reveal_strlit("コ");
    } else if c == 'g' && v == 'a' {
        reveal_strlit("ガ");
    } else if c == 'g' && v == 'i' {
        reveal_strlit("ギ");
    } else if c == 'g' && v == 'u' {
        reveal_strlit("グ");
    } else if c == 'g' && v == 'e' {
        reveal_strlit("ゲ");
    } else if c == 'g' && v == 'o' {
        reveal_strlit("ゴ");
    } else if c == 's' && v == 'a' {
        reveal_strlit("サ");
    } else if c == 's' && v == 'i' {
        reveal_strlit("シ");
    } else if c == 's' && v == 'u' {
        reveal_strlit("ス");
    } else if c == 's' && v == 'e' {
        reveal_strlit("セ");
    } else if c == 's' && v == 'o' {
        reveal_strlit("ソ");
    } else if c == 'z' && v == 'a' {
        reveal_strlit("ザ");
    } else if c == 'z' && v == 'i' {
        reveal_strlit("ジ");
    } else if c == 'z' && v == 'u' {
        reveal_strlit("ズ");
    } else if c == 'z' && v == 'e' {
        reveal_strlit("ゼ");
    } else if c == 'z' && v == 'o' {
        reveal_strlit("ゾ");
    } else if c == 't' && v == 'a' {
        reveal_strlit("タ");
    } else if c == 't' && v == 'i' {
        reveal_strlit("チ");
    } else if c == 't' && v == 'u' {
        reveal_strlit("ツ");
    } else if c == 't' && v == 'e' {
        reveal_strlit("テ");
    } else if c == 't' && v == 'o' {
        reveal_strlit("ト");
    } else if c == 'd' && v == 'a' {
        reveal_strlit("ダ");
    } else if c == 'd' && v == 'i' {
        reveal_strlit("ヂ");
    } else if c == 'd' && v == 'u' {
        reveal_strlit("ヅ");
    } else if c == 'd' && v == 'e' {
        reveal_strlit("デ");
    } else if c == 'd' && v == 'o' {
        reveal_strlit("ド");
    } else if c == 'n' && v == 'a' {
        reveal_strlit("ナ");
    } else if c == 'n' && v == 'i' {
        reveal_strlit("ニ");
    } else if c == 'n' && v == 'u' {
        reveal_strlit("ヌ");
    } else if c == 'n' && v == 'e' {
        reveal_strlit("ネ");
    } else if c == 'n' && v == 'o' {
        reveal_strlit("ノ");
    } else if c == 'h' && v == 'a' {
        reveal_strlit("ハ");
    } else if c == 'h' && v == 'i' {
        reveal_strlit("ヒ");
    } else if c == 'h' && v == 'u' {
        reveal_strlit("フ");
    } else if c == 'h' && v == 'e' {
        reveal_strlit("ヘ");
    } else if c == 'h' && v == 'o' {
        reveal_strlit("ホ");
    } else if c == 'b' && v == 'a' {
        reveal_strlit("バ");
    } else if c == 'b' && v == 'i' {
        reveal_strlit("ビ");
    } else if c == 'b' && v == 'u' {
        reveal_strlit("ブ");
    } else if c == 'b' && v == 'e' {
        reveal_strlit("ベ");
    } else if c == 'b' && v == 'o' {
        reveal_strlit("ボ");
    } else if c == 'p' && v == 'a' {
        reveal_strlit("パ");
    } else if c == 'p' && v == 'i' {
        reveal_strlit("ピ");
    } else if c == 'p' && v == 'u' {
        reveal_strlit("プ");
    } else if c == 'p' && v == 'e' {
        reveal_strlit("ペ");
    } else if c == 'p' && v == 'o' {
        reveal_strlit("ポ");
    } else if c == 'm' && v == 'a' {
        reveal_strlit("マ");
    } else if c == 'm' && v == 'i' {
        reveal_strlit("ミ");
    } else if c == 'm' && v == 'u' {
        reveal_strlit("ム");
    } else if c == 'm' && v == 'e' {
        reveal_strlit("メ");
    } else if c == 'm' && v == 'o' {
        reveal_strlit("モ");
    } else if c == 'r' && v == 'a' {
        reveal_strlit("ラ");
    } else if c == 'r' && v == 'i' {
        reveal_strlit("リ");
    } else if c == 'r' && v == 'u' {
        reveal_strlit("ル");
    } else if c == 'r' && v == 'e' {
        reveal_strlit("レ");
    } else if c == 'r' && v == 'o' {
        reveal_strlit("ロ");
    } else if c == 'y' && v == 'a' {
        reveal_strlit("ヤ");
    } else if c == 'y' && v == 'u' {
        reveal_strlit("ユ");
    } else if c == 'y' && v == 'o' {
        reveal_strlit("ヨ");
    } else if c == 'w' && v == 'a' {
        reveal_strlit("ワ");
    } else if c == 'w' && v == 'o' {
        reveal_strlit("ヲ");
    }
}

/// Consonants in hiragana: a consonant alone waits for what follows; typed
/// twice, it gives a small っ and waits again (all but n and f); after n
/// it gives ん and waits (all but n, y and f); and nn gives ん.
pub proof fn law_hiragana_consonants(c: char)
    ensures
        is_starter(c) ==> waits(hiragana_table(None, None, c), c),
        is_starter(c) && c != 'n' && c != 'f' ==> kana_then_waits(hiragana_table(Some(c), None, c), 0x3063, c),
        is_starter(c) && c != 'n' && c != 'y' && c != 'f' ==> kana_then_waits(hiragana_table(Some('n'), None, c), 0x3093, c),
        one_kana(hiragana_table(Some('n'), None, 'n'), 0x3093),
{
    reveal_strlit("ん");
    if !is_starter(c) {
    } else if c == 'b' {
        reveal_strlit("b");
        reveal_strlit("っ");
        reveal_strlit("ん");
    } else if c == 'c' {
        reveal_strlit("c");
        reveal_strlit("っ");
        reveal_strlit("ん");
    } else if c == 'd' {
        reveal_strlit("d");
        reveal_strlit("っ");
        reveal_strlit("ん");
    } else if c == 'f' {
        reveal_strlit("f");
    } else if c == 'g' {
        reveal_strlit("g");
        reveal_strlit("っ");
        reveal_strlit("ん");
    } else if c == 'h' {
        reveal_strlit("h");
        reveal_strlit("っ");
        reveal_strlit("ん");
    } else if c == 'j' {
        reveal_strlit("j");
        reveal_strlit("っ");
        reveal_strlit("ん");
    } else if c == 'k' {
        reveal_strlit("k");
        reveal_strlit("っ");
        reveal_strlit("ん");
    } else if c == 'm' {
        reveal_strlit("m");
        reveal_strlit("っ");
        reveal_strlit("ん");
    } else if c == 'n' {
        reveal_strlit("n");
        reveal_strlit("ん");
    } else if c == 'p' {
        reveal_strlit("p");
        reveal_strlit("っ");
        reveal_strlit("ん");
    } else if c == 'r' {
        reveal_strlit("r");
        reveal_strlit("っ");
        reveal_strlit("ん");
    } else if c == 's' {
        reveal_strlit("s");
        reveal_strlit("っ");
        reveal_strlit("ん");
    } else if c == 't' {
        reveal_strlit("t");
        reveal_strlit("っ");
        reveal_strlit("ん");
    } else if c == 'v' {
        reveal_strlit("v");
        reveal_strlit("っ");
        reveal_strlit("ん");
    } else if c == 'w' {
        reveal_strlit("w");
        reveal_strlit("っ");
        reveal_strlit("ん");
    } else if c == 'x' {
        reveal_strlit("x");
        reveal_strlit("っ");
        reveal_strlit("ん");
    } else if c == 'y' {
        reveal_strlit("y");
        reveal_strlit("っ");
        reveal_strlit("ん");
    } else if c == 'z' {
        reveal_strlit("z");
        reveal_strlit("っ");
        reveal_strlit("ん");
    }
}

/// Consonants in katakana: a consonant alone waits for what follows; typed
/// twice, it gives a small っ and waits again (all but n and f); after n
/// it gives ん and waits (all but n, y and f); and nn gives ん.
/// Each kana is the one at the hiragana's place in the katakana block.
pub proof fn law_katakana_consonants(c: char)
    ensures
        is_starter(c) ==> waits(katakana_table(None, None, c), c),
        is_starter(c) && c != 'n' && c != 'f' ==> kana_then_waits(katakana_table(Some(c), None, c), katakana_of(0x3063), c),
        is_starter(c) && c != 'n' && c != 'y' && c != 'f' ==> kana_then_waits(katakana_table(Some('n'), None, c), katakana_of(0x3093), c),
        one_kana(katakana_table(Some('n'), None, 'n'), katakana_of(0x3093)),
{
    reveal_strlit("ン");
    if !is_starter(c) {
    } else if c == 'b' {
        reveal_strlit("b");
        reveal_strlit("ッ");
        reveal_strlit("ン");
    } else if c == 'c' {
        reveal_strlit("c");
        reveal_strlit("ッ");
        reveal_strlit("ン");
    } else if c == 'd' {
        reveal_strlit("d");
        reveal_strlit("ッ");
        reveal_strlit("ン");
    } else if c == 'f' {
        reveal_strlit("f");
    } else if c == 'g' {
        reveal_strlit("g");
        reveal_strlit("ッ");
        reveal_strlit("ン");
    } else if c == 'h' {
        reveal_strlit("h");
        reveal_strlit("ッ");
        reveal_strlit("ン");
    } else if c == 'j' {
        reveal_strlit("j");
        reveal_strlit("ッ");
        reveal_strlit("ン");
    } else if c == 'k' {
        reveal_strlit("k");
        reveal_strlit("ッ");
        reveal_strlit("ン");
    } else if c == 'm' {
        reveal_strlit("m");
        reveal_strlit("ッ");
        reveal_strlit("ン");
    } else if c == 'n' {
        reveal_strlit("n");
        reveal_strlit("ン");
    } else if c == 'p' {
        reveal_strlit("p");
        reveal_strlit("ッ");
        reveal_strlit("ン");
    } else if c == 'r' {
        reveal_strlit("r");
        reveal_strlit("ッ");
        reveal_strlit("ン");
    } else if c == 's' {
        reveal_strlit("s");
        reveal_strlit("ッ");
        reveal_strlit("ン");
    } else if c == 't' {
        reveal_strlit("t");
        reveal_strlit("ッ");
        reveal_strlit("ン");
    } else if c == 'v' {
        reveal_strlit("v");
        reveal_strlit("ッ");
        reveal_strlit("ン");
    } else if c == 'w' {
        reveal_strlit("w");
        reveal_strlit("ッ");
        reveal_strlit("ン");
    } else if c == 'x' {
        reveal_strlit("x");
        reveal_strlit("ッ");
        reveal_strlit("ン");
    } else if c == 'y' {
        reveal_strlit("y");
        reveal_strlit("ッ");
        reveal_strlit("ン");
    } else if c == 'z' {
        reveal_strlit("z");
        reveal_strlit("ッ");
        reveal_strlit("ン");
    }
}

} // verus!
