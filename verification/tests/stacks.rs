use rskk::composition_result::CompositionResult;
use rskk::dictionary::Candidate;
use rskk::transformers::Candidates;
use std::rc::Rc;

use rskk::composition::Composition;
use rskk::context::{Context, Contexts};
use rskk::dictionary::Dictionary;
use rskk::keyboards::notation::str_to_key_code_vector;
use rskk::rskk_config::RSKKConfig;
use rskk::transformers::tables::LetterType;
use rskk::transformers::word::Word;
use rskk::transformers::yomi::{hira2kata, kata2hira};
use rskk::transformers::{
    make_exec, AbbrTransformer, ContinuousTransformer, HenkanTransformer, StoppedReason, Transformer, TransformerTypes,
    UnknownWordTransformer,
};

fn dummy_context() -> Context {
    Context::new(
        Rc::new(RSKKConfig::default_config()),
        Rc::new(Dictionary::parse("\nかんじ/漢字/\nみち/未知/道/\n")),
    )
}

fn run(tf: &Transformer, input: &str) -> Transformer {
    let mut composition = Composition::new_from_transformer(tf.clone_context().new_empty(), tf.clone());
    composition.push_key_events(&str_to_key_code_vector(input));
    composition.transformer()
}

fn henkan() -> Transformer {
    Transformer::Henkan(HenkanTransformer::new(dummy_context(), TransformerTypes::Hiragana))
}

#[test]
fn print_stack_of_a_leaf_and_of_a_conversion() {
    let hiragana = make_exec(dummy_context(), TransformerTypes::Hiragana);
    assert_eq!(hiragana.print_stack(0), "[Hiragana: (empty)]");
    assert_eq!(hiragana.print_stack(2), "\t\t[Hiragana: (empty)]");

    let t = run(&henkan(), "kannji");
    assert_eq!(t.transformer_type(), TransformerTypes::Henkan);
    assert_eq!(t.print_stack(0), "[Henkan: かんじ\n\t[Yomi: かんじ]\n]");
    assert_eq!(t.print_stack(1), "\t[Henkan: かんじ\n\t\t[Yomi: かんじ]\n\t]");
}

#[test]
fn print_stack_of_a_registration() {
    let tf = Transformer::UnknownWord(UnknownWordTransformer::new(
        dummy_context(),
        Word::from((LetterType::Hiragana, "michigo")),
    ));
    let t = run(&tf, "a");
    assert_eq!(t.transformer_type(), TransformerTypes::UnknownWord);
    assert_eq!(
        t.print_stack(0),
        "[UnknownWord: あ\n\t[Continuous: あ\n\t\t[Hiragana: (empty)]\n\t]\n]"
    );
}

#[test]
fn push_then_pop_gives_back_the_item() {
    let t = run(&henkan(), "kannji");
    let item = make_exec(dummy_context(), TransformerTypes::Direct);
    let pushed = t.push(item);
    assert_eq!(pushed.stack().len(), 2);
    assert_eq!(pushed.send_target().transformer_type(), TransformerTypes::Direct);
    let (back, popped) = pushed.pop();
    assert_eq!(popped.map(|p| p.transformer_type()), Some(TransformerTypes::Direct));
    assert_eq!(back.print_stack(0), t.print_stack(0));
}

#[test]
fn popping_the_last_element_cancels_a_conversion() {
    let t = henkan();
    assert_eq!(t.stack().len(), 1);
    let (back, popped) = t.pop();
    assert_eq!(back.transformer_type(), TransformerTypes::Stopped(StoppedReason::Canceled));
    assert_eq!(popped.map(|p| p.transformer_type()), Some(TransformerTypes::Yomi));
}

#[test]
fn send_target_of_each_kind() {
    let t = henkan();
    assert_eq!(t.send_target().transformer_type(), TransformerTypes::Yomi);

    let abbr = Transformer::Abbr(AbbrTransformer::new(dummy_context()));
    assert_eq!(abbr.send_target().transformer_type(), TransformerTypes::Continuous);

    let unknown = Transformer::UnknownWord(UnknownWordTransformer::new(
        dummy_context(),
        Word::from((LetterType::Hiragana, "michigo")),
    ));
    assert_eq!(unknown.stack().len(), 0);
    assert_eq!(unknown.send_target().transformer_type(), TransformerTypes::Continuous);

    let leaf = make_exec(dummy_context(), TransformerTypes::Katakana);
    assert_eq!(leaf.send_target().transformer_type(), TransformerTypes::Katakana);
    assert_eq!(leaf.as_trait().transformer_type(), TransformerTypes::Katakana);
}

#[test]
fn is_all_stopped_looks_at_every_element() {
    let leaf = make_exec(dummy_context(), TransformerTypes::Hiragana);
    assert!(leaf.is_all_stopped());

    let t = henkan();
    assert!(!t.is_all_stopped());
    let with_stopped = t.replace_last_element(vec![leaf.to_completed()]);
    assert_eq!(with_stopped.len(), 1);
    assert!(with_stopped[0].is_all_stopped());
}

#[test]
fn replacing_the_last_element_by_nothing_leaves_no_conversion() {
    let t = henkan();
    assert_eq!(t.replace_last_element(vec![]).len(), 0);
    let leaf = make_exec(dummy_context(), TransformerTypes::Direct);
    let r = t.replace_last_element(vec![leaf]);
    assert_eq!(r.len(), 1);
    assert_eq!(r[0].send_target().transformer_type(), TransformerTypes::Direct);
}

#[test]
fn space_then_backspace_goes_back_to_the_reading() {
    let before = run(&henkan(), "kannji");
    let after = run(&henkan(), "kannji [backspace]");
    assert_eq!(after.display_string(), before.display_string());
    assert_eq!(after.print_stack(0), before.print_stack(0));
}

#[test]
fn kana_conversions_undo_each_other() {
    let hira = "ひらがなとカタカナ、abc";
    assert_eq!(kata2hira(&hira2kata(hira)), "ひらがなとかたかな、abc");
    assert_eq!(hira2kata(&kata2hira("カタカナ")), "カタカナ");
    assert_eq!(kata2hira(&hira2kata("ゔぁ")), "ゔぁ");
}

#[test]
fn every_input_keeps_the_dictionary() {
    let t = run(&henkan(), "kannji ");
    assert_eq!(t.display_string(), "▼漢字");
    let entry = t.context().lookup("みち");
    assert!(entry.is_some());
}

#[test]
fn continuous_input_of_conversions() {
    let tf = Transformer::Continuous(ContinuousTransformer::new(dummy_context(), TransformerTypes::Henkan));
    assert_eq!(tf.child_transformer_type(), TransformerTypes::Henkan);
    let t = run(&tf, "kannji \n");
    assert_eq!(t.transformer_type(), TransformerTypes::Continuous);
    assert_eq!(t.display_string(), "漢字▽");
    assert_eq!(t.child_transformer_type(), TransformerTypes::Henkan);
    let t = run(&tf, "kannji \nmichi \n\n");
    assert_eq!(t.transformer_type(), TransformerTypes::Stopped(StoppedReason::Compleated));
    assert_eq!(t.context().result().stopped_buffer(), Some("漢字未知".to_owned()));
}

#[test]
fn contexts_join_texts_and_updates() {
    let entry = rskk::dictionary::DictionaryEntry::new("あ", vec![rskk::dictionary::Candidate::new("亜", None)]);
    let a = dummy_context().push_result_string("あ").push_dictionary_updates(&vec![entry.clone()]);
    let b = dummy_context();
    let c = dummy_context().push_result_string("い");
    let all = Contexts::from_contexts(&vec![a, b.clone(), c]);
    assert_eq!(all.stopped_buffer(), Some("あい".to_owned()));
    assert_eq!(all.dictionary_updates(), vec![entry]);

    let none = Contexts::from_contexts(&vec![b.clone(), b]);
    assert_eq!(none.stopped_buffer(), None);
    assert_eq!(none.dictionary_updates(), vec![]);

    let done = run(&make_exec(dummy_context(), TransformerTypes::Hiragana), "ka");
    let tfs = Contexts::from_transformers(&vec![done.clone(), henkan(), done]);
    assert_eq!(tfs.stopped_buffer(), Some("かか".to_owned()));
}

#[test]
fn child_transformer_type_follows_where_typing_goes() {
    let leaf = make_exec(dummy_context(), TransformerTypes::Katakana);
    assert_eq!(leaf.child_transformer_type(), TransformerTypes::Katakana);
    let tf = Transformer::UnknownWord(UnknownWordTransformer::new(
        dummy_context(),
        Word::from((LetterType::Hiragana, "michigo")),
    ));
    let t = run(&tf, "a");
    assert_eq!(t.child_transformer_type(), TransformerTypes::Hiragana);
    let t = run(&tf, "K");
    assert_eq!(t.child_transformer_type(), TransformerTypes::Henkan);
}

#[test]
fn laws_on_concrete_values() {
    let r = CompositionResult::new().push_buffer("あ").pop_stopped_buffer();
    assert_eq!(r.stopped_buffer(), None);
    assert_eq!(CompositionResult::new().push_buffer("").stopped_buffer(), None);

    let mut w = Word::new(LetterType::Hiragana);
    for c in "okuR".chars() {
        w.push(c);
    }
    assert_eq!(w.has_okuri(), w.okuri_string().is_some());
    assert!(w.has_okuri());
    w.pop();
    assert_eq!(w.has_okuri(), w.okuri_string().is_some());
    assert!(!w.has_okuri());

    let mut c = Candidates::new(&vec![Candidate::new("a", None)]);
    assert!(c.current().is_some());
    assert!(c.next().is_none());
    assert!(c.current().is_none());
    assert!(c.next().is_none());
    assert!(c.prev().is_some());
    assert!(c.current().is_some());
}
