use std::rc::Rc;

use rskk::composition::Composition;
use rskk::context::Context;
use rskk::dictionary::{Candidate, Dictionary, DictionaryEntry};
use rskk::keyboards::notation::str_to_key_code_vector;
use rskk::keyboards::KeyCode;
use rskk::rskk_config::RSKKConfig;
use rskk::transformers::tables::LetterType;
use rskk::transformers::word::Word;
use rskk::transformers::{
    make_exec, AbbrTransformer, Candidates, ContinuousTransformer, HenkanTransformer, SelectCandidateTransformer,
    StoppedReason, Transformer, TransformerTypes, UnknownWordTransformer, YomiTransformer,
};

const COMPLETED: TransformerTypes = TransformerTypes::Stopped(StoppedReason::Compleated);
const CANCELED: TransformerTypes = TransformerTypes::Stopped(StoppedReason::Canceled);

fn dummy_context() -> Context {
    Context::new(
        Rc::new(RSKKConfig::default_config()),
        Rc::new(Dictionary::parse("\nかんじ/漢字/\nみち/未知/道/\nご/語/\nおくr/送/\n    ")),
    )
}

fn empty_context() -> Context {
    Context::new(Rc::new(RSKKConfig::default_config()), Rc::new(Dictionary::new(vec![])))
}

/// The transformer that typing the keys of a text leaves.
fn run(tf: &Transformer, input: &str) -> Transformer {
    let mut composition = Composition::new_from_transformer(tf.clone_context().new_empty(), tf.clone());
    composition.push_key_events(&str_to_key_code_vector(input));
    composition.transformer()
}

fn stopped_buffer(tf: &Transformer) -> Option<String> {
    tf.context().result().stopped_buffer()
}

/// Checks each case: what is shown, the finished text and the type, where given.
fn batch(tf: Transformer, cases: Vec<(&str, Option<&str>, Option<&str>, Option<TransformerTypes>)>) {
    let mut failures = String::new();
    for (i, (input, display, stopped, ty)) in cases.iter().enumerate() {
        let t = run(&tf, input);
        if let Some(d) = display {
            let actual = t.display_string();
            if &actual != d {
                failures += &format!("{}: input {:?}: display {:?} == {:?}\n", i + 1, input, d, actual);
            }
        }
        if let Some(s) = stopped {
            let actual = stopped_buffer(&t);
            if actual.as_deref() != Some(*s) {
                failures += &format!("{}: input {:?}: stopped_buffer {:?} == {:?}\n", i + 1, input, s, actual);
            }
        }
        if let Some(ty) = ty {
            let actual = t.transformer_type();
            if actual != *ty {
                failures += &format!("{}: input {:?}: transformer_type {:?} == {:?}\n", i + 1, input, ty, actual);
            }
        }
    }
    if !failures.is_empty() {
        panic!("{}", failures);
    }
}

fn last(items: Option<Vec<Transformer>>) -> Transformer {
    items.unwrap().pop().unwrap()
}

#[test]
fn direct_it_works() {
    let tf = make_exec(dummy_context(), TransformerTypes::Direct);
    batch(tf, vec![
        ("[escape]", Some(""), None, Some(TransformerTypes::Direct)),
        ("a", Some(""), Some("a"), Some(COMPLETED)),
        ("A", Some(""), Some("A"), Some(COMPLETED)),
        ("!", Some(""), Some("!"), Some(COMPLETED)),
    ]);
}

#[test]
fn hiragana_it_works() {
    let tf = make_exec(dummy_context(), TransformerTypes::Hiragana);
    batch(tf, vec![
        ("a", Some(""), Some("あ"), Some(COMPLETED)),
        ("k", Some("k"), None, Some(TransformerTypes::Hiragana)),
        ("k[escape]", Some(""), None, Some(CANCELED)),
        ("k[backspace]", Some(""), None, Some(CANCELED)),
        ("ts[backspace]", Some("t"), None, Some(TransformerTypes::Hiragana)),
        ("ka", Some(""), Some("か"), Some(COMPLETED)),
        ("tt", Some("t"), Some("っ"), Some(TransformerTypes::Hiragana)),
        ("tt[backspace]", Some(""), Some("っ"), Some(COMPLETED)),
        ("tte", Some(""), Some("って"), Some(COMPLETED)),
        ("Kannji", Some("▽かんじ"), None, Some(TransformerTypes::Henkan)),
        ("Kanji", Some("▽かんじ"), None, Some(TransformerTypes::Henkan)),
    ]);
}

#[test]
fn stack() {
    let tf = make_exec(dummy_context(), TransformerTypes::Hiragana);
    let t = match run(&tf, "") {
        Transformer::Hiragana(h) => h.pop(),
        _ => panic!("not hiragana"),
    };
    assert_eq!(t.transformer_type(), CANCELED);
    assert_eq!(&t.buffer_content(), "");

    let t = match run(&tf, "ts") {
        Transformer::Hiragana(h) => h.pop(),
        _ => panic!("not hiragana"),
    };
    assert_eq!(t.transformer_type(), TransformerTypes::Hiragana);
    assert_eq!(&t.buffer_content(), "t");
}

#[test]
fn katakana_it_works() {
    let tf = make_exec(dummy_context(), TransformerTypes::Katakana);
    batch(tf, vec![
        ("a", Some(""), Some("ア"), Some(COMPLETED)),
        ("k", Some("k"), None, Some(TransformerTypes::Katakana)),
        ("k[escape]", Some(""), None, Some(CANCELED)),
        ("k[backspace]", Some(""), None, Some(CANCELED)),
        ("ts[backspace]", Some("t"), None, Some(TransformerTypes::Katakana)),
        ("ka", Some(""), Some("カ"), Some(COMPLETED)),
        ("tt", Some("t"), Some("ッ"), Some(TransformerTypes::Katakana)),
        ("tt[backspace]", Some(""), Some("ッ"), Some(CANCELED)),
        ("tte", Some(""), Some("テ"), Some(COMPLETED)),
        ("Kannji", Some("▽カンジ"), None, Some(TransformerTypes::Henkan)),
        ("Kanji", Some("▽カンジ"), None, Some(TransformerTypes::Henkan)),
    ]);
}

#[test]
fn henkan_it_works() {
    let tf = Transformer::Henkan(HenkanTransformer::new(dummy_context(), TransformerTypes::Hiragana));
    let h = Some(TransformerTypes::Henkan);
    batch(tf, vec![
        ("hiragana", Some("▽ひらがな"), None, h),
        ("hiragana\n", None, Some("ひらがな"), Some(COMPLETED)),
        ("hiragana[escape]", Some(""), None, Some(CANCELED)),
        ("kannji ", Some("▼漢字"), None, h),
        ("kannji [backspace]", Some("▽かんじ"), None, h),
        ("kannji \n", None, Some("漢字"), Some(COMPLETED)),
        ("okuR", Some("▽おく*r"), None, h),
        ("okuR\n", None, Some("おく"), Some(COMPLETED)),
        ("okuR[escape]", Some("▽おく"), None, h),
        ("okuRi", Some("▼送り"), None, h),
        ("okuRi[escape]", Some("▽おく"), None, h),
        ("okuRi\n", None, Some("送り"), Some(COMPLETED)),
        ("michigo ", Some("[登録: みちご]"), None, h),
        ("aA", Some("[登録: あ*あ]"), None, h),
        ("michigo [backspace]", Some("[登録: みちご]"), None, h),
        ("aa[backspace]", Some("▽あ"), None, h),
        ("aa[backspace][backspace]", Some("▽"), None, h),
        ("aa[backspace][backspace][backspace]", Some(""), None, Some(CANCELED)),
        ("aA", Some("[登録: あ*あ]"), None, h),
        ("aA[escape]", Some("▽あ"), None, h),
        ("aKa", Some("[登録: あ*か]"), None, h),
        ("aKa[escape]", Some("▽あ"), None, h),
        ("aTte", Some("[登録: あ*って]"), None, h),
        ("aTte[escape]", Some("▽あ"), None, h),
        ("aTsu", Some("[登録: あ*つ]"), None, h),
        ("aTsu[escape]", Some("▽あ"), None, h),
        ("Kanji\n", Some(""), Some("かんじ"), Some(COMPLETED)),
        ("Kanji \n", Some(""), Some("漢字"), Some(COMPLETED)),
        ("Kanji a", Some(""), Some("漢字あ"), Some(COMPLETED)),
        ("Kanji A", Some("▽あ"), Some("漢字"), h),
        ("Kanji k", Some("k"), Some("漢字"), Some(TransformerTypes::Hiragana)),
        ("Kanji K", Some("▽k"), Some("漢字"), h),
        ("Kanji Kanji", Some("▽かんじ"), Some("漢字"), h),
        ("Michi \n", Some(""), Some("未知"), Some(COMPLETED)),
        ("Michigo ", Some("[登録: みちご]"), None, h),
        ("Michigo [escape]", Some("▽みちご"), None, h),
        ("Michigo [escape][backspace]", Some("▽みち"), None, h),
        ("Michigo [escape][backspace] ", Some("▼未知"), None, h),
        ("Michigo [escape][backspace] \n", Some(""), Some("未知"), Some(COMPLETED)),
        ("Michigo  [escape]", Some("▽みちご"), None, h),
        ("Michigo  [escape][escape]", Some(""), None, Some(CANCELED)),
        ("Michigo  [escape]a", Some("▽みちごあ"), None, h),
    ]);
}

#[test]
fn yomi_it_works() {
    let tf = Transformer::Yomi(YomiTransformer::new(dummy_context(), TransformerTypes::Hiragana));
    let y = Some(TransformerTypes::Yomi);
    let u = Some(TransformerTypes::UnknownWord);
    batch(tf, vec![
        ("[escape]", Some(""), None, Some(CANCELED)),
        ("hiragana", Some("▽ひらがな"), None, y),
        ("hiragana\n", None, Some("ひらがな"), Some(COMPLETED)),
        ("oku[escape]", Some(""), None, Some(CANCELED)),
        ("okuR", Some("▽おく*r"), None, y),
        ("okuR[escape]", Some("▽おく"), None, y),
        ("okuR\n", None, Some("おく"), Some(COMPLETED)),
        ("okuRi", Some("▼送り"), None, Some(TransformerTypes::SelectCandidate)),
        ("kannji ", Some("▼漢字"), None, Some(TransformerTypes::SelectCandidate)),
        ("kannji [escape]", Some(""), None, Some(CANCELED)),
        ("michigo ", Some("[登録: みちご]"), None, u),
        ("aA", Some("[登録: あ*あ]"), None, u),
        ("aKa", Some("[登録: あ*か]"), None, u),
        ("aTte", Some("[登録: あ*って]"), None, u),
        ("aTsu", Some("[登録: あ*つ]"), None, u),
        ("a[backspace]", Some("▽"), None, y),
        ("aa[backspace]", Some("▽あ"), None, y),
        ("aa[backspace]a", Some("▽ああ"), None, y),
        ("aa[backspace][backspace]i", Some("▽い"), None, y),
        ("a[backspace][backspace]", Some(""), None, Some(CANCELED)),
        ("aK", Some("▽あ*k"), None, y),
        ("aK[backspace]", Some("▽あ"), None, y),
        ("aK[backspace][backspace]", Some("▽"), None, y),
        ("aK[backspace][backspace]a", Some("▽あ"), None, y),
        ("aK[backspace][backspace]K", Some("▽k"), None, y),
        ("henka[backspace][backspace]", Some("▽へ"), None, y),
        ("katakanaq", None, Some("カタカナ"), Some(COMPLETED)),
    ]);
}

#[test]
fn yomi_push() {
    let tf = Transformer::Yomi(YomiTransformer::new(empty_context(), TransformerTypes::Hiragana));
    let tf = last(tf.push_character('a'));
    assert_eq!(&tf.buffer_content(), "あ");
    let tf = last(tf.push_character('k'));
    assert_eq!(&tf.display_string(), "▽あk");
}

#[test]
fn continuous_it_works() {
    let tf = Transformer::Continuous(ContinuousTransformer::new(dummy_context(), TransformerTypes::Hiragana));
    let c = Some(TransformerTypes::Continuous);
    batch(tf, vec![
        ("[backspace]", Some(""), None, Some(CANCELED)),
        ("a", Some("あ"), None, c),
        ("a\n", Some(""), Some("あ"), Some(COMPLETED)),
        ("aa", Some("ああ"), None, c),
        ("aa[backspace]", Some("あ"), None, c),
        ("ak[backspace]", Some("あ"), None, c),
        ("aa[backspace]i", Some("あい"), None, c),
        ("ak\n", Some("あ"), None, c),
        ("hiragana", Some("ひらがな"), None, c),
        ("hiragana\n", None, Some("ひらがな"), Some(COMPLETED)),
        ("Kannji", Some("▽かんじ"), None, c),
        ("Kannji \n", Some("漢字"), None, c),
        ("Kannji \n\n", None, Some("漢字"), Some(COMPLETED)),
        ("Kannji \n[backspace]", Some("漢"), None, c),
        ("Kannji \n[backspace]a", Some("漢あ"), None, c),
    ]);
}

#[test]
fn push_character() {
    let tf = Transformer::Continuous(ContinuousTransformer::new(empty_context(), TransformerTypes::Hiragana));
    let mut tf = tf;
    for c in "hiragana".chars() {
        tf = last(tf.push_character(c));
    }
    assert_eq!(&tf.display_string(), "ひらがな");
    assert_eq!(tf.transformer_type(), TransformerTypes::Continuous);

    let tf = last(tf.push_enter());
    assert_eq!(stopped_buffer(&tf), Some("ひらがな".to_owned()));
    assert_eq!(tf.transformer_type(), COMPLETED);
}

#[test]
fn unknown_word_it_works() {
    let tf = Transformer::UnknownWord(UnknownWordTransformer::new(
        dummy_context(),
        Word::from((LetterType::Hiragana, "michigo")),
    ));
    let u = Some(TransformerTypes::UnknownWord);
    batch(tf, vec![
        ("[escape]", Some(""), None, Some(CANCELED)),
        ("hiragana", Some("[登録: みちご]ひらがな"), None, u),
        ("Kannji", Some("[登録: みちご]▽かんじ"), None, u),
        ("Kannji ", Some("[登録: みちご]▼漢字"), None, u),
        ("Kannji \n", Some("[登録: みちご]漢字"), None, u),
        ("Kannji \n\n", None, Some("漢字"), Some(COMPLETED)),
        ("Michi \nGo", Some("[登録: みちご]未知▽ご"), None, u),
        ("Michi \nGo ", Some("[登録: みちご]未知▼語"), None, u),
        ("Michi \nGo \n", Some("[登録: みちご]未知語"), None, u),
        ("Michi \nGo \n[backspace]", Some("[登録: みちご]未知"), None, u),
        ("Michi \nGo \n[backspace][backspace]", Some("[登録: みちご]未"), None, u),
        ("Michi \nGo \n\n", None, Some("未知語"), Some(COMPLETED)),
        ("AK", Some("[登録: みちご]▽あ*k"), None, u),
        ("AA", Some("[登録: みちご][登録: あ*あ]"), None, u),
        ("AAA", Some("[登録: みちご][登録: あ*あ]▽あ"), None, u),
        ("AAOkuRi", Some("[登録: みちご][登録: あ*あ]▼送り"), None, u),
        ("AAOkuRi[escape]", Some("[登録: みちご][登録: あ*あ]▽おく"), None, u),
        ("AAOkuRi[escape][escape]", Some("[登録: みちご][登録: あ*あ]"), None, u),
        ("AAOkuRi[escape][escape][escape]", Some("[登録: みちご]▽あ"), None, u),
        ("AAOkuRi[escape][escape][escape][escape]", Some("[登録: みちご]"), None, u),
        ("AAOkuRi[escape][escape][escape][escape][escape]", Some(""), None, Some(CANCELED)),
    ]);
}

#[test]
fn abbr_it_works() {
    let tf = Transformer::Abbr(AbbrTransformer::new(dummy_context()));
    let a = Some(TransformerTypes::Abbr);
    batch(tf, vec![
        ("[backspace]", Some(""), None, Some(CANCELED)),
        ("[escape]", Some(""), None, Some(CANCELED)),
        ("a[backspace]", Some("▽"), None, a),
        ("test", Some("▽test"), None, a),
        ("test\n", Some(""), Some("test"), Some(COMPLETED)),
        ("hoge ", Some("[登録: hoge]"), None, a),
        ("hoge [escape]", Some("▽hoge"), None, a),
        ("hoge [backspace]", Some("[登録: hoge]"), None, a),
        ("hoge fuga", Some("[登録: hoge]ふが"), None, a),
        ("hoge fuga\n", Some(""), Some("ふが"), Some(COMPLETED)),
    ]);
}

fn ab_entry() -> DictionaryEntry {
    DictionaryEntry::new("test", vec![Candidate::new("a", None), Candidate::new("b", None)])
}

#[test]
fn select_candidate_it_works() {
    let tf = Transformer::SelectCandidate(SelectCandidateTransformer::new(
        empty_context(),
        &ab_entry(),
        Word::from((LetterType::Hiragana, "michigo")),
    ));
    let s = Some(TransformerTypes::SelectCandidate);
    batch(tf, vec![
        ("", Some("▼a"), None, s),
        ("[backspace]", Some(""), None, Some(CANCELED)),
        ("[escape]", Some(""), None, Some(CANCELED)),
        ("\n", Some(""), Some("a"), Some(COMPLETED)),
        (" ", Some("▼b"), None, s),
        (" [backspace]", Some("▼a"), None, s),
        ("  ", Some("[登録: みちご]"), None, Some(TransformerTypes::UnknownWord)),
        ("  [escape]", Some(""), None, Some(CANCELED)),
        ("  a", Some("[登録: みちご]あ"), None, Some(TransformerTypes::UnknownWord)),
        ("  a\n", Some(""), Some("あ"), Some(COMPLETED)),
    ]);
}

#[test]
fn space() {
    let tf = Transformer::SelectCandidate(SelectCandidateTransformer::new(
        empty_context(),
        &ab_entry(),
        Word::new(LetterType::Hiragana),
    ));
    assert_eq!(&tf.buffer_content(), "a");
    assert_eq!(&tf.push_key(&KeyCode::from("space")).unwrap().buffer_content(), "b");
}

#[test]
fn enter() {
    let entry = DictionaryEntry::new("test", vec![Candidate::new("a", None)]);
    let tf = Transformer::SelectCandidate(SelectCandidateTransformer::new(
        empty_context(),
        &entry,
        Word::new(LetterType::Hiragana),
    ));
    let stopped = tf.push_key(&KeyCode::from("enter")).unwrap();
    assert_eq!(stopped.transformer_type(), COMPLETED);
    assert_eq!(stopped_buffer(&stopped), Some("a".to_owned()));
}

#[test]
fn delete() {
    let tf = Transformer::SelectCandidate(SelectCandidateTransformer::new(
        empty_context(),
        &ab_entry(),
        Word::new(LetterType::Hiragana),
    ));
    let tf = tf.push_key(&KeyCode::from("space")).unwrap();
    let tf = tf.push_key(&KeyCode::from("delete")).unwrap();
    assert_eq!(&tf.buffer_content(), "a");

    let canceled = tf.push_key(&KeyCode::from("delete")).unwrap();
    assert_eq!(canceled.transformer_type(), CANCELED);
}

#[test]
fn select_candidate_prev() {
    let candidate1 = Candidate::new("a", None);
    let candidate2 = Candidate::new("b", None);
    let vec = vec![candidate1.clone(), candidate2.clone()];
    let mut candidates = Candidates::new(&vec);

    assert_eq!(candidates.current(), Some(candidate1.clone()));
    assert_eq!(candidates.next(), Some(candidate2.clone()));
    assert_eq!(candidates.current(), Some(candidate2.clone()));
    assert_eq!(candidates.next(), None);
    assert_eq!(candidates.next(), None);
    assert_eq!(candidates.current(), None);
    assert_eq!(candidates.prev(), Some(candidate2.clone()));
    assert_eq!(candidates.current(), Some(candidate2.clone()));
    assert_eq!(candidates.prev(), Some(candidate1.clone()));
    assert_eq!(candidates.current(), Some(candidate1.clone()));
    assert_eq!(candidates.prev(), None);
    assert_eq!(candidates.prev(), None);
}

#[test]
fn prev() {
    let candidate1 = Candidate::new("a", None);
    let candidate2 = Candidate::new("b", None);
    let vec = vec![candidate1.clone(), candidate2.clone()];
    let mut candidates = Candidates::new(&vec);

    assert_eq!(candidates.current(), Some(candidate1.clone()));
    assert_eq!(candidates.next(), Some(candidate2.clone()));
    assert_eq!(candidates.current(), Some(candidate2.clone()));
    assert_eq!(candidates.next(), None);
    assert_eq!(candidates.next(), None);
    assert_eq!(candidates.current(), None);
    assert_eq!(candidates.prev(), Some(candidate2.clone()));
    assert_eq!(candidates.current(), Some(candidate2.clone()));
    assert_eq!(candidates.prev(), Some(candidate1.clone()));
    assert_eq!(candidates.current(), Some(candidate1.clone()));
    assert_eq!(candidates.prev(), None);
    assert_eq!(candidates.prev(), None);
}

#[test]
fn kana_conversion() {
    assert_eq!(&rskk::transformers::yomi::hira2kata("ひらがなとabc"), "ヒラガナトabc");
    assert_eq!(&rskk::transformers::yomi::kata2hira("カタカナとABC"), "かたかなとABC");
}

#[test]
fn henkan_in_katakana() {
    let tf = Transformer::Henkan(HenkanTransformer::new(dummy_context(), TransformerTypes::Katakana));
    batch(tf, vec![
        ("kannji", Some("▽カンジ"), None, Some(TransformerTypes::Henkan)),
        ("kannji ", Some("▼漢字"), None, Some(TransformerTypes::Henkan)),
        ("kannjiq", Some(""), Some("かんじ"), Some(COMPLETED)),
    ]);
}

#[test]
fn it_works() {
    let tf = Transformer::UnknownWord(UnknownWordTransformer::new(
        dummy_context(),
        Word::from((LetterType::Hiragana, "michigo")),
    ));
    let u = Some(TransformerTypes::UnknownWord);
    batch(tf, vec![
        ("[escape]", Some(""), None, Some(CANCELED)),
        ("hiragana", Some("[登録: みちご]ひらがな"), None, u),
        ("Kannji", Some("[登録: みちご]▽かんじ"), None, u),
        ("Kannji ", Some("[登録: みちご]▼漢字"), None, u),
        ("Kannji \n", Some("[登録: みちご]漢字"), None, u),
        ("Kannji \n\n", None, Some("漢字"), Some(COMPLETED)),
        ("Michi \nGo", Some("[登録: みちご]未知▽ご"), None, u),
        ("Michi \nGo ", Some("[登録: みちご]未知▼語"), None, u),
        ("Michi \nGo \n", Some("[登録: みちご]未知語"), None, u),
        ("Michi \nGo \n\n", None, Some("未知語"), Some(COMPLETED)),
    ]);
}
