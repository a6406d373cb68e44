use std::rc::Rc;

use rskk::composition::Composition;
use rskk::context::Context;
use rskk::dictionary::Dictionary;
use rskk::keyboards::notation::str_to_key_code_vector;
use rskk::keyboards::{KeyCode, MetaKey};
use rskk::rskk_config::RSKKConfig;
use rskk::transformers::{make_exec, StoppedReason, TransformerTypes};
use rskk::RSKK;

const COMPLETED: TransformerTypes = TransformerTypes::Stopped(StoppedReason::Compleated);

fn dummy_context() -> Context {
    Context::new(
        Rc::new(RSKKConfig::default_config()),
        Rc::new(Dictionary::parse("\nかんじ/漢字/\nみち/未知/道/\nご/語/\nおくr/送/\n    ")),
    )
}

#[test]
fn lib_it_works() {
    let cases: Vec<(&str, &str, Option<&str>, TransformerTypes)> = vec![
        ("a", "", Some("a"), COMPLETED),
        ("A", "", Some("A"), COMPLETED),
        ("[down:ctrl]j[up:ctrl]a", "", Some("あ"), COMPLETED),
        ("[down:ctrl]j[up:ctrl]Henkann", "▽へんかん", None, TransformerTypes::Henkan),
        ("[down:ctrl]j[up:ctrl]Henkann[backspace]", "▽へんか", None, TransformerTypes::Henkan),
        ("[down:ctrl]j[up:ctrl]Henkann[backspace]nn", "▽へんかん", None, TransformerTypes::Henkan),
        ("[down:ctrl]j[up:ctrl]Kanji \n", "", Some("漢字"), COMPLETED),
        ("[down:ctrl]j[up:ctrl]qka", "", Some("カ"), COMPLETED),
        ("[down:ctrl]j[up:ctrl]Katakanaq", "", Some("カタカナ"), COMPLETED),
        ("[down:ctrl]j[up:ctrl]qHiraganaq", "", Some("ひらがな"), COMPLETED),
    ];
    let base = make_exec(dummy_context(), TransformerTypes::Direct);
    for (input, display, stopped, ty) in cases {
        let mut composition = Composition::new_from_transformer(base.clone_context().new_empty(), base.clone());
        composition.push_key_events(&str_to_key_code_vector(input));
        let tf = composition.transformer();
        assert_eq!(&tf.display_string(), display, "input {:?}", input);
        if let Some(s) = stopped {
            assert_eq!(tf.context().result().stopped_buffer(), Some(s.to_owned()), "input {:?}", input);
        }
        assert_eq!(tf.transformer_type(), ty, "input {:?}", input);
    }
}

#[test]
fn rskk_compositions() {
    let mut rskk = RSKK::new(TransformerTypes::Hiragana);
    rskk.parse_dictionary("かんじ/漢字/\n");
    let mut composition = rskk.start_composition();
    assert_eq!(composition.transformer_type(), TransformerTypes::Hiragana);
    composition.push_key_events(&str_to_key_code_vector("Kanji \n"));
    assert!(composition.is_stopped());
    assert_eq!(&composition.stopped_buffer(), "漢字");
    let next = composition.next_composition();
    assert_eq!(next.transformer_type(), TransformerTypes::Hiragana);
    assert!(next.is_empty());
}

#[test]
fn mode_switch_changes_the_next_composition() {
    let rskk = RSKK::new(TransformerTypes::Direct);
    let mut composition = rskk.start_composition();
    let events = str_to_key_code_vector("[down:ctrl][down:j]");
    assert!(!composition.push_key_event(&events[0]));
    assert!(composition.push_key_event(&events[1]));
    assert_eq!(composition.base_transformer_type(), TransformerTypes::Hiragana);
    let next = composition.next_composition();
    assert_eq!(next.transformer_type(), TransformerTypes::Hiragana);
}

#[test]
fn half_width_katakana_keys_come_before_katakana() {
    let config = RSKKConfig::default_config();
    let keys = config.key_config();
    let allow = vec![TransformerTypes::Katakana, TransformerTypes::EnKatakana];
    let ctrl_q = vec![KeyCode::Meta(MetaKey::Ctrl), KeyCode::Printable('q')];
    assert_eq!(keys.try_change_transformer(&allow, &ctrl_q), Some(TransformerTypes::EnKatakana));
    let q = vec![KeyCode::Printable('q')];
    assert_eq!(keys.try_change_transformer(&allow, &q), Some(TransformerTypes::Katakana));
    let l = vec![KeyCode::Printable('l')];
    let allow_all = vec![TransformerTypes::Katakana, TransformerTypes::Direct];
    assert_eq!(keys.try_change_transformer(&allow_all, &l), Some(TransformerTypes::Direct));
}
