use srbtr::transcoder::{resolve_step, transcode_pairs, transcode_to_strings, SourceItem, Transcoder};

/// One source element per character: every input used here has one-codepoint
/// graphemes unless a test hands a multi-codepoint grapheme in explicitly.
fn items_of(s: &str) -> Vec<SourceItem> {
    s.chars().map(|c| SourceItem::Grapheme(c.to_string())).collect()
}

fn pairs_of(s: &str) -> Vec<(String, String)> {
    transcode_pairs(items_of(s)).unwrap()
}

fn strings_of(s: &str) -> (String, String) {
    transcode_to_strings(items_of(s)).unwrap()
}

#[test]
fn every_single_letter_maps() {
    let alphabet = [
        ("A", "А"),
        ("a", "а"),
        ("B", "Б"),
        ("b", "б"),
        ("V", "В"),
        ("v", "в"),
        ("G", "Г"),
        ("g", "г"),
        ("D", "Д"),
        ("d", "д"),
        ("Đ", "Ђ"),
        ("đ", "ђ"),
        ("E", "Е"),
        ("e", "е"),
        ("Ž", "Ж"),
        ("ž", "ж"),
        ("Z", "З"),
        ("z", "з"),
        ("I", "И"),
        ("i", "и"),
        ("J", "Ј"),
        ("j", "ј"),
        ("K", "К"),
        ("k", "к"),
        ("L", "Л"),
        ("l", "л"),
        ("M", "М"),
        ("m", "м"),
        ("N", "Н"),
        ("n", "н"),
        ("O", "О"),
        ("o", "о"),
        ("P", "П"),
        ("p", "п"),
        ("R", "Р"),
        ("r", "р"),
        ("S", "С"),
        ("s", "с"),
        ("T", "Т"),
        ("t", "т"),
        ("Ć", "Ћ"),
        ("ć", "ћ"),
        ("U", "У"),
        ("u", "у"),
        ("F", "Ф"),
        ("f", "ф"),
        ("H", "Х"),
        ("h", "х"),
        ("C", "Ц"),
        ("c", "ц"),
        ("Č", "Ч"),
        ("č", "ч"),
        ("Š", "Ш"),
        ("š", "ш"),
    ];
    for (latin, cyrillic) in alphabet {
        let pairs = pairs_of(latin);
        assert_eq!(pairs.len(), 1);
        assert_eq!(pairs[0].0, latin);
        assert_eq!(pairs[0].1, cyrillic);
    }
}

#[test]
fn every_canonical_digraph_maps() {
    let digraphs = [
        ("Lj", "Љ"),
        ("lj", "љ"),
        ("Nj", "Њ"),
        ("nj", "њ"),
        ("Dž", "Џ"),
        ("dž", "џ"),
    ];
    for (latin, cyrillic) in digraphs {
        let pairs = pairs_of(latin);
        assert_eq!(pairs.len(), 1);
        assert_eq!(pairs[0].0, latin);
        assert_eq!(pairs[0].1, cyrillic);
    }
}

#[test]
fn upper_case_digraphs_fold_the_second_letter() {
    // Only the second letter is lower-cased before the table lookup, so an
    // all-upper-case digraph is recognized; the reported original carries
    // the folded second letter.
    let folded = [("LJ", "Lj", "Љ"), ("NJ", "Nj", "Њ"), ("DŽ", "Dž", "Џ")];
    for (input, original, cyrillic) in folded {
        let pairs = pairs_of(input);
        assert_eq!(pairs.len(), 1);
        assert_eq!(pairs[0].0, original);
        assert_eq!(pairs[0].1, cyrillic);
    }
}

#[test]
fn legacy_alias_dj() {
    let pairs = pairs_of("Dj");
    assert_eq!(pairs.len(), 1);
    assert_eq!(pairs[0].0, "Dj");
    assert_eq!(pairs[0].1, "Ђ");

    let pairs = pairs_of("dj");
    assert_eq!(pairs.len(), 1);
    assert_eq!(pairs[0].0, "dj");
    assert_eq!(pairs[0].1, "ђ");
}

#[test]
fn legacy_alias_applies_to_upper_case_second_letter() {
    // "DJ" folds its second letter to "j", forms "Dj", and so takes the
    // legacy alias too: a derived consequence of the folding rule.
    let pairs = pairs_of("DJ");
    assert_eq!(pairs.len(), 1);
    assert_eq!(pairs[0].0, "Dj");
    assert_eq!(pairs[0].1, "Ђ");

    let pairs = pairs_of("dJ");
    assert_eq!(pairs.len(), 1);
    assert_eq!(pairs[0].0, "dj");
    assert_eq!(pairs[0].1, "ђ");
}

#[test]
fn composite_codepoints_decompose_without_lookahead() {
    // The original keeps the source spelling, not the decomposed digraph.
    let composites = [
        ("Ǆ", "Џ"),
        ("ǅ", "Џ"),
        ("ǆ", "џ"),
        ("Ǉ", "Љ"),
        ("ǈ", "Љ"),
        ("ǉ", "љ"),
        ("Ǌ", "Њ"),
        ("ǋ", "Њ"),
        ("ǌ", "њ"),
    ];
    for (input, cyrillic) in composites {
        let pairs = pairs_of(input);
        assert_eq!(pairs.len(), 1);
        assert_eq!(pairs[0].0, input);
        assert_eq!(pairs[0].1, cyrillic);
    }
}

#[test]
fn lookahead_does_not_over_consume() {
    let pairs = pairs_of("Do");
    assert_eq!(pairs.len(), 2);
    assert_eq!(pairs[0].0, "D");
    assert_eq!(pairs[0].1, "Д");
    assert_eq!(pairs[1].0, "o");
    assert_eq!(pairs[1].1, "о");
}

#[test]
fn starter_at_end_of_input_stands_alone() {
    let pairs = pairs_of("l");
    assert_eq!(pairs.len(), 1);
    assert_eq!(pairs[0].0, "l");
    assert_eq!(pairs[0].1, "л");
}

#[test]
fn cyrillic_text_passes_through_unchanged() {
    let (original, translit) = strings_of("Љубав је чудо");
    assert_eq!(original, "Љубав је чудо");
    assert_eq!(translit, "Љубав је чудо");
}

#[test]
fn digits_and_punctuation_pass_through() {
    let (original, translit) = strings_of("3, 2, 1!");
    assert_eq!(original, "3, 2, 1!");
    assert_eq!(translit, "3, 2, 1!");
}

#[test]
fn sentence_with_digraph_and_accents() {
    let (original, translit) = strings_of("Ljubav je čudo");
    assert_eq!(original, "Ljubav je čudo");
    assert_eq!(translit, "Љубав је чудо");
}

#[test]
fn sentence_with_two_digraph_kinds() {
    let (original, translit) = strings_of("Njegov džak");
    assert_eq!(original, "Njegov džak");
    assert_eq!(translit, "Његов џак");
}

#[test]
fn legacy_alias_applies_anywhere_in_a_word() {
    // The alias is applied unconditionally wherever "dj" appears, so the
    // "dj" inside this name converts to "ђ" as well.
    let (original, translit) = strings_of("Medjugorje");
    assert_eq!(original, "Medjugorje");
    assert_eq!(translit, "Међугорје");
}

#[test]
fn combining_marks_are_normalized_before_lookup() {
    // One grapheme of two codepoints: "c" followed by a combining caron.
    // It normalizes to the precomposed "č", which is the reported original.
    let items = vec![SourceItem::Grapheme("c\u{030C}".to_string())];
    let pairs = transcode_pairs(items).unwrap();
    assert_eq!(pairs.len(), 1);
    assert_eq!(pairs[0].0, "\u{010D}");
    assert_eq!(pairs[0].1, "ч");
}

#[test]
fn empty_input_gives_empty_output() {
    let (original, translit) = strings_of("");
    assert_eq!(original, "");
    assert_eq!(translit, "");
    let mut engine = Transcoder::from(Vec::new());
    assert!(engine.next().is_none());
}

#[test]
fn primary_failure_is_reported_and_terminates() {
    let items = vec![
        SourceItem::Grapheme("a".to_string()),
        SourceItem::Failure,
        SourceItem::Grapheme("b".to_string()),
    ];
    assert!(transcode_pairs(items).is_err());

    let items = vec![
        SourceItem::Grapheme("a".to_string()),
        SourceItem::Failure,
        SourceItem::Grapheme("b".to_string()),
    ];
    let mut engine = Transcoder::from(items);
    let first = engine.next().unwrap().unwrap();
    assert_eq!(first.0, "a");
    assert_eq!(first.1, "а");
    assert!(engine.next().unwrap().is_err());
    assert!(engine.next().is_none());
}

#[test]
fn lookahead_failure_does_not_corrupt_the_current_letter() {
    // A failure seen only through the lookahead is swallowed for this step:
    // the starter resolves alone, and the failure surfaces on the next pull.
    let items = vec![SourceItem::Grapheme("l".to_string()), SourceItem::Failure];
    let mut engine = Transcoder::from(items);
    let first = engine.next().unwrap().unwrap();
    assert_eq!(first.0, "l");
    assert_eq!(first.1, "л");
    assert!(engine.next().unwrap().is_err());
    assert!(engine.next().is_none());
}

#[test]
fn digraph_inside_a_word() {
    let (original, translit) = strings_of("konj");
    assert_eq!(original, "konj");
    assert_eq!(translit, "коњ");
}

#[test]
fn incremental_consumption_pair_by_pair() {
    let mut engine = Transcoder::from(items_of("Džak"));
    let first = engine.next().unwrap().unwrap();
    assert_eq!(first.0, "Dž");
    assert_eq!(first.1, "Џ");
    let second = engine.next().unwrap().unwrap();
    assert_eq!(second.0, "a");
    assert_eq!(second.1, "а");
    let third = engine.next().unwrap().unwrap();
    assert_eq!(third.0, "k");
    assert_eq!(third.1, "к");
    assert!(engine.next().is_none());
    assert!(engine.next().is_none());
}

#[test]
fn resolve_step_on_normalized_graphemes() {
    let (original, translit, consumed) = resolve_step("D", Some("j"));
    assert_eq!(original, "Dj");
    assert_eq!(translit, "Ђ");
    assert!(consumed);

    let (original, translit, consumed) = resolve_step("D", Some("o"));
    assert_eq!(original, "D");
    assert_eq!(translit, "Д");
    assert!(!consumed);

    let (original, translit, consumed) = resolve_step("n", Some("j"));
    assert_eq!(original, "nj");
    assert_eq!(translit, "њ");
    assert!(consumed);

    let (original, translit, consumed) = resolve_step("x", None);
    assert_eq!(original, "x");
    assert_eq!(translit, "x");
    assert!(!consumed);
}
