use rbmath::letters::{Classifier, Font, Letter, Script};
use rbmath::math_element::SubscriptType;
use rbmath::strings::BrailleString;
use rbmath::symbol_tables::{braille_symbol, has_affinity, normalize, special_function};

fn dots(s: &BrailleString) -> Vec<String> {
    (0..s.len()).map(|i| s.get(i).to_dots()).collect()
}

fn cls(script: Script, font: Font, capital: bool) -> Classifier {
    Classifier { script, font, capital }
}

#[test]
fn classify_latin_letters() {
    assert_eq!(
        Classifier::classify('a'),
        Some(Letter(0, cls(Script::Latin, Font::Normal, false)))
    );
    assert_eq!(
        Classifier::classify('Z'),
        Some(Letter(25, cls(Script::Latin, Font::Normal, true)))
    );
    assert_eq!(
        Classifier::classify('\u{1d41a}'),
        Some(Letter(0, cls(Script::Latin, Font::Bold, false)))
    );
    assert_eq!(
        Classifier::classify('\u{1d433}'),
        Some(Letter(25, cls(Script::Latin, Font::Bold, false)))
    );
    assert_eq!(
        Classifier::classify('\u{1d51e}'),
        Some(Letter(0, cls(Script::Latin, Font::Fraktur, false)))
    );
    assert_eq!(
        Classifier::classify('\u{1d551}'),
        Some(Letter(25, cls(Script::Latin, Font::Doublestruck, true)))
    );
}

#[test]
fn classify_greek_letters() {
    assert_eq!(
        Classifier::classify('\u{3b1}'),
        Some(Letter(0, cls(Script::Greek, Font::Normal, false)))
    );
    assert_eq!(
        Classifier::classify('\u{3a9}'),
        Some(Letter(24, cls(Script::Greek, Font::Normal, true)))
    );
    assert_eq!(
        Classifier::classify('\u{1d6c2}'),
        Some(Letter(0, cls(Script::Greek, Font::Bold, false)))
    );
}

#[test]
fn classify_rejects_other_code_points() {
    for c in ['1', '+', '@', '`', '{', '\u{3b0}', '\u{3ca}', '\u{1d434}', '\u{1d56c}', '\u{2800}'] {
        assert_eq!(Classifier::classify(c), None);
    }
}

#[test]
fn every_classified_letter_has_a_cell() {
    for code in 0u32..0x1d800 {
        if let Some(c) = char::from_u32(code) {
            if let Some(l) = Classifier::classify(c) {
                let bound = if l.1.script == Script::Latin { 26 } else { 25 };
                assert!(l.0 < bound);
                l.get_rendering();
            }
        }
    }
}

#[test]
fn letter_cells() {
    let x = Classifier::classify('x').unwrap();
    assert_eq!(x.get_rendering().to_dots(), "1346");
    let sigma = Classifier::classify('\u{3c3}').unwrap();
    let final_sigma = Classifier::classify('\u{3c2}').unwrap();
    assert_eq!(sigma.get_rendering(), final_sigma.get_rendering());
    assert_eq!(sigma.get_rendering().to_dots(), "234");
}

#[test]
fn classifier_prefixes() {
    let p = |c: Classifier| dots(&c.get_prefix());
    assert_eq!(p(cls(Script::Latin, Font::Normal, false)), vec!["6"]);
    assert_eq!(p(cls(Script::Latin, Font::Normal, true)), vec!["46"]);
    assert_eq!(p(cls(Script::Greek, Font::Normal, false)), vec!["56"]);
    assert_eq!(p(cls(Script::Greek, Font::Bold, true)), vec!["456", "1456"]);
    assert_eq!(p(cls(Script::Latin, Font::Calligraphic, false)), vec!["6", "346"]);
    assert_eq!(p(cls(Script::Latin, Font::BoldCalligraphic, true)), vec!["46", "3456"]);
    assert_eq!(p(cls(Script::Latin, Font::Doublestruck, true)), vec!["46", "12456"]);
    assert_eq!(p(cls(Script::Latin, Font::Fraktur, true)), vec!["45"]);
    assert_eq!(p(cls(Script::Latin, Font::Fraktur, false)), vec!["5"]);
}

#[test]
fn normalize_drops_invisible_operators() {
    for c in ['\u{2061}', '\u{2062}', '\u{2063}', '\u{2064}'] {
        assert_eq!(normalize(c), None);
    }
    assert_eq!(normalize('\u{2060}'), Some('\u{2060}'));
    assert_eq!(normalize('\u{2065}'), Some('\u{2065}'));
}

#[test]
fn normalize_maps_legacy_forms() {
    assert_eq!(normalize('\u{2212}'), Some('-'));
    assert_eq!(normalize('\u{3d1}'), Some('\u{3b8}'));
    assert_eq!(normalize('\u{2a7e}'), Some('\u{2265}'));
    assert_eq!(normalize('\u{211d}'), Some('\u{1d549}'));
    assert_eq!(normalize('\u{210e}'), Some('\u{1d455}'));
    assert_eq!(normalize('x'), Some('x'));
}

#[test]
fn normalize_is_idempotent() {
    for code in 0u32..0x1e000 {
        if let Some(c) = char::from_u32(code) {
            if let Some(d) = normalize(c) {
                assert_eq!(normalize(d), Some(d));
            }
        }
    }
}

#[test]
fn function_names() {
    assert_eq!(dots(&special_function("sin").unwrap()), vec!["1246", "234"]);
    assert_eq!(dots(&special_function("ctg").unwrap()), vec!["1246", "13", "2345"]);
    assert_eq!(dots(&special_function("cot").unwrap()), vec!["1246", "13", "2345"]);
    assert_eq!(dots(&special_function("lim").unwrap()), vec!["1246", "123", "134"]);
    assert!(special_function("si").is_none());
    assert!(special_function("sinh").is_none());
    assert!(special_function("").is_none());
}

#[test]
fn symbol_cells() {
    assert_eq!(dots(&braille_symbol('+')), vec!["235"]);
    assert_eq!(dots(&braille_symbol('=')), vec!["", "2356"]);
    assert_eq!(dots(&braille_symbol('\u{2208}')), vec!["", "5", "246", ""]);
    assert_eq!(dots(&braille_symbol('\u{222d}')), vec!["2346", "2346", "2346"]);
    assert_eq!(dots(&braille_symbol('?')), vec!["123456"]);
}

#[test]
fn embellishment_affinity() {
    assert!(has_affinity('\u{2032}', SubscriptType::Sup));
    assert!(has_affinity('+', SubscriptType::Sup));
    assert!(!has_affinity('+', SubscriptType::Sub));
    assert!(has_affinity('~', SubscriptType::Over));
    assert!(has_affinity('^', SubscriptType::Over));
    assert!(!has_affinity('^', SubscriptType::Sup));
    assert!(!has_affinity('\u{203e}', SubscriptType::Over));
}
