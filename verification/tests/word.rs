use rskk::transformers::tables::LetterType;
use rskk::transformers::word::{Word, YomiPair};

#[test]
fn to_dic_read() {
    assert_eq!(Word::from((LetterType::Hiragana, "")).to_dic_read(), None);
    assert_eq!(&Word::from((LetterType::Hiragana, "a")).to_dic_read().unwrap(), "あ");
    assert_eq!(&Word::from((LetterType::Hiragana, "aTte")).to_dic_read().unwrap(), "あt");

    assert_eq!(Word::from((LetterType::Katakana, "")).to_dic_read(), None);
    assert_eq!(&Word::from((LetterType::Katakana, "a")).to_dic_read().unwrap(), "あ");
    assert_eq!(&Word::from((LetterType::Katakana, "aTte")).to_dic_read().unwrap(), "あt");
}

#[test]
fn to_string_pair() {
    assert_eq!(Word::from((LetterType::Hiragana, "")).to_string_pair(), ("".to_owned(), None));
    assert_eq!(Word::from((LetterType::Hiragana, "a")).to_string_pair(), ("あ".to_owned(), None));
    assert_eq!(
        Word::from((LetterType::Hiragana, "aTte")).to_string_pair(),
        ("あ".to_owned(), Some("って".to_owned()))
    );
    assert_eq!(
        Word::from((LetterType::Hiragana, "okuR")).to_string_pair(),
        ("おく".to_owned(), Some("r".to_owned()))
    );

    assert_eq!(Word::from((LetterType::Katakana, "")).to_string_pair(), ("".to_owned(), None));
    assert_eq!(Word::from((LetterType::Katakana, "a")).to_string_pair(), ("ア".to_owned(), None));
    assert_eq!(
        Word::from((LetterType::Katakana, "aTte")).to_string_pair(),
        ("ア".to_owned(), Some("ッテ".to_owned()))
    );
    assert_eq!(
        Word::from((LetterType::Katakana, "okuR")).to_string_pair(),
        ("オク".to_owned(), Some("r".to_owned()))
    );
}

#[test]
fn display_string() {
    assert_eq!(&Word::from((LetterType::Hiragana, "")).display_string(), "");
    assert_eq!(&Word::from((LetterType::Hiragana, "hiragana")).display_string(), "ひらがな");
    assert_eq!(&Word::from((LetterType::Hiragana, "aTte")).display_string(), "あ*って");
    assert_eq!(&Word::from((LetterType::Hiragana, "okuR")).display_string(), "おく*r");

    assert_eq!(&Word::from((LetterType::Katakana, "")).display_string(), "");
    assert_eq!(&Word::from((LetterType::Katakana, "hiragana")).display_string(), "ヒラガナ");
    assert_eq!(&Word::from((LetterType::Katakana, "aTte")).display_string(), "ア*ッテ");
    assert_eq!(&Word::from((LetterType::Katakana, "okuR")).display_string(), "オク*r");
}

#[test]
fn word_pop_removes_okuri_then_the_reading_and_its_key() {
    let mut word = Word::from((LetterType::Hiragana, "michiGo"));
    assert!(word.has_okuri());
    assert_eq!(&word.buffer_content(), "みちご");
    word.pop();
    assert!(!word.has_okuri());
    assert_eq!(&word.display_string(), "みち");
    assert_eq!(&word.to_dic_read().unwrap(), "みち");
    word.pop();
    assert_eq!(&word.to_dic_read().unwrap(), "み");
    word.pop();
    assert!(word.is_empty());
    assert_eq!(word.to_dic_read(), None);
}

#[test]
fn word_remove_okuri_and_abbreviation() {
    let mut word = Word::from((LetterType::Hiragana, "okuRi"));
    assert!(word.is_stopped());
    assert_eq!(&word.to_dic_read().unwrap(), "おくr");
    word.remove_okuri();
    assert_eq!(&word.display_string(), "おく");
    assert_eq!(&word.to_dic_read().unwrap(), "おく");

    let abbr = Word::new_abbr("hoge");
    assert_eq!(&abbr.display_string(), "hoge");
    assert_eq!(&abbr.to_dic_read().unwrap(), "hoge");
}

#[test]
fn yomi_pair_push_and_pop() {
    let mut pair = YomiPair::from((LetterType::Hiragana, "ka"));
    assert!(!pair.is_stopped());
    pair.start_okuri();
    pair.push('t');
    pair.push('t');
    pair.push('e');
    assert!(pair.is_stopped());
    pair.pop();
    assert!(!pair.is_stopped());
    assert!(!pair.is_empty());
    pair.pop();
    assert!(pair.is_empty());
}
