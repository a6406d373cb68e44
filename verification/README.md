# rskk

An SKK-style Japanese input method engine, written in Verus: key events go
in, kana and converted kanji come out, and what each key does is stated and
proved.

## Layout

- `src/` — the verified library.
  - `keyboards/` — key codes, the key-event notation, the US layout and the
    keys held down.
  - `dictionary/` — dictionary text, entries and candidates, and lookup.
  - `transformers/` — the input modes (direct, hiragana, katakana, reading,
    conversion, candidate selection, word registration, continuous input,
    abbreviation). `steps.rs` holds the mathematical model: each mode as a
    value, and what every input does to it; the executable transformers are
    proved against it.
  - `composition.rs` — one composition: key events through the keyboard to
    the transformers, until the text is finished or cancelled.
  - `context/`, `composition_result/` — the configuration, dictionary and
    finished text that a composition works with.
  - `rskk_config.rs` — key bindings for switching modes.
- `tests/` — the scenarios, run against the compiled library.
- `app/` — the C interface and reading the JSON configuration.

## Checking

Every function in `src/` is verified by Verus except five small wrappers
around the standard library, whose contracts are trusted: `push_char`
(`String::push`), `lowercase_first` (`char::to_lowercase`), `is_uppercase`
(`char::is_uppercase`) and `char_from_u32` (`char::from_u32`) in
`src/text.rs`, and `share` (`Rc::clone`) in `src/context/mod.rs`. The laws
of the library (what a composition keeps, what one step undoes, how the
parts combine, what each value keeps true) are public proof functions
named `law_*`.
