use rbmath::pattern::BraillePattern;
use rbmath::strings::BrailleString;

const VALID_DOT_NUMBERS: [usize; 64] = [
    0, 1, 2, 12, 3, 13, 23, 123, 4, 14, 24, 124, 34, 134, 234, 1234, 5, 15, 25, 125, 35, 135,
    235, 1235, 45, 145, 245, 1245, 345, 1345, 2345, 12345, 6, 16, 26, 126, 36, 136, 236, 1236,
    46, 146, 246, 1246, 346, 1346, 2346, 12346, 56, 156, 256, 1256, 356, 1356, 2356, 12356, 456,
    1456, 2456, 12456, 3456, 13456, 23456, 123456,
];

#[test]
fn dots_round_trip_for_every_cell() {
    for d in VALID_DOT_NUMBERS {
        let expected = if d == 0 { String::new() } else { d.to_string() };
        assert_eq!(BraillePattern::from_dots(d).to_dots(), expected);
    }
}

#[test]
fn dot_numbers_give_distinct_cells() {
    let mut seen = Vec::new();
    for d in VALID_DOT_NUMBERS {
        let c = BraillePattern::from_dots(d).to_unicode();
        assert!(!seen.contains(&c));
        seen.push(c);
    }
    assert_eq!(seen.len(), 64);
}

#[test]
fn unicode_of_cells() {
    assert_eq!(BraillePattern::from_dots(0).to_unicode(), '\u{2800}');
    assert_eq!(BraillePattern::from_dots(1).to_unicode(), '\u{2801}');
    assert_eq!(BraillePattern::from_dots(146).to_unicode(), '\u{2829}');
    assert_eq!(BraillePattern::from_dots(123456).to_unicode(), '\u{283F}');
    assert_eq!(BraillePattern::newline().to_unicode(), '\n');
    for d in VALID_DOT_NUMBERS {
        let c = BraillePattern::from_dots(d).to_unicode() as u32;
        assert!((0x2800..=0x283F).contains(&c));
    }
}

#[test]
fn union_is_idempotent_and_commutative() {
    let a = BraillePattern::from_dots(14);
    let b = BraillePattern::from_dots(256);
    assert_eq!(a.union(a), a);
    assert_eq!(a.union(b), b.union(a));
    assert_eq!(a.union(b), BraillePattern::from_dots(12456));
    assert_eq!(a.union(b).to_dots(), "12456");
}

#[test]
fn lower_dots() {
    assert!(BraillePattern::from_dots(3).has_lower_dots());
    assert!(BraillePattern::from_dots(6).has_lower_dots());
    assert!(BraillePattern::from_dots(1346).has_lower_dots());
    assert!(!BraillePattern::from_dots(1245).has_lower_dots());
    assert!(!BraillePattern::from_dots(0).has_lower_dots());
    assert!(!BraillePattern::newline().has_lower_dots());
}

#[test]
fn newline_has_no_dots() {
    assert_eq!(BraillePattern::newline().to_dots(), "");
}

#[test]
fn strings_keep_order() {
    let mut s = BrailleString::new();
    assert_eq!(s.len(), 0);
    s.push(BraillePattern::from_dots(1));
    s.push(BraillePattern::from_dots(12));
    let mut t = BrailleString::from_pattern(BraillePattern::from_dots(14));
    t.push_str(&s);
    assert_eq!(t.len(), 3);
    assert_eq!(t.get(0).to_dots(), "14");
    assert_eq!(t.get(2).to_dots(), "12");
    assert_eq!(t.to_unicode(), "\u{2809}\u{2801}\u{2803}");
    let many: Vec<BraillePattern> = (0..40).map(|_| BraillePattern::from_dots(5)).collect();
    let long = BrailleString::from_vec(many);
    assert_eq!(long.len(), 40);
    assert_eq!(long.get(39).to_dots(), "5");
    let listed = BrailleString::from_dot_numbers(&[3456, 1, 0]);
    assert_eq!(listed.to_unicode(), "\u{283C}\u{2801}\u{2800}");
}
