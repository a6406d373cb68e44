use rskk::dictionary::{Candidate, Dictionary, DictionaryEntry, TransformEntry};

#[test]
fn candidate_parse() {
    let item = Candidate::parse("a;b");
    assert_eq!(item, Some(Candidate::new("a", Some("b"))));

    let item = Candidate::parse("a");
    assert_eq!(item, Some(Candidate::new("a", None)));

    let item = Candidate::parse("");
    assert_eq!(item, None);

    let item = Candidate::parse(" ");
    assert_eq!(item, None);
}

#[test]
fn dictionary_entry_parse() {
    let item = DictionaryEntry::parse("a/b;c/d/");
    assert_eq!(
        item,
        Some(DictionaryEntry::new("a", vec![Candidate::new("b", Some("c")), Candidate::new("d", None)]))
    );

    let item = DictionaryEntry::parse("a/b");
    assert_eq!(item, Some(DictionaryEntry::new("a", vec![Candidate::new("b", None)])));

    let item = DictionaryEntry::parse(" a / b /");
    assert_eq!(item, Some(DictionaryEntry::new("a", vec![Candidate::new("b", None)])));

    let item = DictionaryEntry::parse("a//b//");
    assert_eq!(item, Some(DictionaryEntry::new("a", vec![Candidate::new("b", None)])));

    let item = DictionaryEntry::parse("a/");
    assert_eq!(item, None);

    let item = DictionaryEntry::parse(";;");
    assert_eq!(item, None);

    let item = DictionaryEntry::parse(" ;;");
    assert_eq!(item, None);

    let item = DictionaryEntry::parse("");
    assert_eq!(item, None);

    let item = DictionaryEntry::parse(" ");
    assert_eq!(item, None);
}

#[test]
fn transform() {
    let kanji = DictionaryEntry::new("かんじ", vec![Candidate::new("漢字", None)]);
    let kanji2 = kanji.clone();
    let okuri = DictionaryEntry::new("おくr", vec![Candidate::new("送", None)]);
    let okuri2 = okuri.clone();
    let dic = Dictionary::new(vec![kanji2, okuri2]);

    let entry = dic.transform("かんじ");
    assert_eq!(entry, Some(&kanji));

    let entry = dic.transform("おくr");
    assert_eq!(entry, Some(&okuri));

    let entry = dic.transform("みとうろく");
    assert_eq!(entry, None);
}

#[test]
fn mod_parse() {
    let item = Dictionary::parse("a/b;c/d/");
    assert_eq!(
        item,
        Dictionary::new(vec![DictionaryEntry::new(
            "a",
            vec![Candidate::new("b", Some("c")), Candidate::new("d", None)],
        )]),
    );

    let item = Dictionary::parse("a/b/\nc/d/");
    assert_eq!(
        item,
        Dictionary::new(vec![
            DictionaryEntry::new("a", vec![Candidate::new("b", None)]),
            DictionaryEntry::new("c", vec![Candidate::new("d", None)]),
        ]),
    );

    let item = Dictionary::parse("a/b/\r\nc/d/");
    assert_eq!(
        item,
        Dictionary::new(vec![
            DictionaryEntry::new("a", vec![Candidate::new("b", None)]),
            DictionaryEntry::new("c", vec![Candidate::new("d", None)]),
        ]),
    );

    let item = Dictionary::parse("a/");
    assert_eq!(item, Dictionary::new(vec![]));

    let item = Dictionary::parse(";;");
    assert_eq!(item, Dictionary::new(vec![]));

    let item = Dictionary::parse("");
    assert_eq!(item, Dictionary::new(vec![]));

    let item = Dictionary::parse(" ");
    assert_eq!(item, Dictionary::new(vec![]));
}

#[test]
fn transform_entry_parse() {
    let item = TransformEntry::parse("a;b");
    assert_eq!(item, Some(TransformEntry::new("a".to_string(), Some("b".to_string()))));

    let item = TransformEntry::parse("a");
    assert_eq!(item, Some(TransformEntry::new("a".to_string(), None)));

    let item = TransformEntry::parse("");
    assert_eq!(item, None);

    let item = TransformEntry::parse(" ");
    assert_eq!(item, None);
}

#[test]
fn dictionary_keeps_each_entry_once_and_finds_the_first() {
    let a = DictionaryEntry::new("みち", vec![Candidate::new("未知", None)]);
    let b = DictionaryEntry::new("みち", vec![Candidate::new("道", None)]);
    let mut dic = Dictionary::new(vec![a.clone(), a.clone(), b.clone()]);
    assert_eq!(dic, Dictionary::new(vec![a.clone(), b.clone()]));
    assert_eq!(dic.transform("みち"), Some(&a));
    dic.insert(b.clone());
    assert_eq!(dic, Dictionary::new(vec![a.clone(), b.clone()]));
}

#[test]
fn dictionary_parse_skips_comments_and_bad_lines() {
    let dic = Dictionary::parse(";; comment\nかんじ/漢字/感じ;feeling/\nbad\n");
    assert_eq!(
        dic,
        Dictionary::new(vec![DictionaryEntry::new(
            "かんじ",
            vec![Candidate::new("漢字", None), Candidate::new("感じ", Some("feeling"))],
        )])
    );
}
