use rskk::transformers::tables::{BufferPair, BufferPairs, LetterType};
use rskk::transformers::BufferState;

#[test]
fn buffer_pair_push() {
    let pair = BufferPair::new_empty(LetterType::Hiragana);
    assert_eq!(pair.push('a'), Some(vec![BufferPair::new(LetterType::Hiragana, "あ", BufferState::Stop)]));

    let pair = BufferPair::new_empty(LetterType::Hiragana);
    assert_eq!(pair.push('t'), Some(vec![BufferPair::new(LetterType::Hiragana, "t", BufferState::Continue)]));

    let pair = BufferPair::new(LetterType::Hiragana, "t", BufferState::Continue);
    assert_eq!(pair.push('a'), Some(vec![BufferPair::new(LetterType::Hiragana, "た", BufferState::Stop)]));

    let pair = BufferPair::new(LetterType::Hiragana, "t", BufferState::Continue);
    assert_eq!(
        pair.push('t'),
        Some(vec![
            BufferPair::new(LetterType::Hiragana, "っ", BufferState::Stop),
            BufferPair::new(LetterType::Hiragana, "t", BufferState::Continue),
        ])
    );
}

#[test]
fn is_stopped() {
    assert_eq!(BufferPairs::from((LetterType::Hiragana, "")).is_stopped(), false);
    assert_eq!(BufferPairs::from((LetterType::Hiragana, "a")).is_stopped(), true);
    assert_eq!(BufferPairs::from((LetterType::Hiragana, "k")).is_stopped(), false);
    assert_eq!(BufferPairs::from((LetterType::Hiragana, "ka")).is_stopped(), true);
    assert_eq!(BufferPairs::from((LetterType::Hiragana, "tt")).is_stopped(), false);
    assert_eq!(BufferPairs::from((LetterType::Hiragana, "tte")).is_stopped(), true);
    assert_eq!(BufferPairs::from((LetterType::Hiragana, "atte")).is_stopped(), true);
}

#[test]
fn from() {
    assert_eq!(&BufferPairs::from((LetterType::Hiragana, "")).to_string(), "");
    assert_eq!(&BufferPairs::from((LetterType::Hiragana, "a")).to_string(), "あ");
    assert_eq!(&BufferPairs::from((LetterType::Hiragana, "k")).to_string(), "k");
    assert_eq!(&BufferPairs::from((LetterType::Hiragana, "ka")).to_string(), "か");
    assert_eq!(&BufferPairs::from((LetterType::Hiragana, "tte")).to_string(), "って");
    assert_eq!(&BufferPairs::from((LetterType::Hiragana, "hogehoge")).to_string(), "ほげほげ");
}

#[test]
fn remove_last() {
    let mut pairs = BufferPairs::from((LetterType::Hiragana, ""));
    assert_eq!(pairs.remove_last(), None);
    assert_eq!(pairs.pairs(), &vec![]);

    let mut pairs = BufferPairs::from((LetterType::Hiragana, "a"));
    assert_eq!(pairs.remove_last(), Some(BufferPair::new(pairs.letter_type(), "あ", BufferState::Stop)));
    assert_eq!(pairs.pairs(), &vec![]);

    let mut pairs = BufferPairs::from((LetterType::Hiragana, "ts"));
    assert_eq!(pairs.remove_last(), Some(BufferPair::new(pairs.letter_type(), "s", BufferState::Stop)));
    assert_eq!(pairs.pairs(), &vec![BufferPair::new(pairs.letter_type(), "t", BufferState::Continue)]);

    let mut pairs = BufferPairs::from((LetterType::Hiragana, "tt"));
    assert_eq!(pairs.remove_last(), Some(BufferPair::new(pairs.letter_type(), "t", BufferState::Stop)));
    assert_eq!(pairs.pairs(), &vec![BufferPair::new(pairs.letter_type(), "っ", BufferState::Stop)]);
}

#[test]
fn katakana_and_direct_tables() {
    assert_eq!(&BufferPairs::from((LetterType::Katakana, "katakana")).to_string(), "カタカナ");
    assert_eq!(&BufferPairs::from((LetterType::Direct, "Ab!")).to_string(), "Ab!");
    let (stopped, pending) = BufferPairs::from((LetterType::Hiragana, "kak")).partition_by_state();
    assert_eq!(&stopped.to_string(), "か");
    assert_eq!(&pending.to_string(), "k");
}

#[test]
fn a_character_with_no_rule_drops_the_pending_romaji() {
    assert_eq!(&BufferPairs::from((LetterType::Hiragana, "kq")).to_string(), "");
    assert_eq!(BufferPair::new_empty(LetterType::Hiragana).push('q'), None);
}
