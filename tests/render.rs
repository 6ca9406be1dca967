use rbmath::markup::MarkupNode;
use rbmath::math_element::{ElementType, MathElement};
use rbmath::renderers::BasicRenderer;
use rbmath::strings::BrailleString;
use rbmath::xml::{parse_markup, MarkupError};
use rbmath::{normalize_text, render, render_markup};

fn dots(s: &BrailleString) -> Vec<String> {
    (0..s.len()).map(|i| s.get(i).to_dots()).collect()
}

fn leaf(kind: ElementType, text: &str) -> MathElement {
    MathElement::new(kind, Vec::new(), text.to_string())
}

fn node(kind: ElementType, children: Vec<MathElement>) -> MathElement {
    MathElement::new(kind, children, String::new())
}

fn num(text: &str) -> MathElement {
    leaf(ElementType::Number, text)
}

fn ident(text: &str) -> MathElement {
    leaf(ElementType::Ident, text)
}

fn op(text: &str) -> MathElement {
    leaf(ElementType::Operator, text)
}

fn cells_of(e: &MathElement) -> Vec<String> {
    let mut r = BasicRenderer::new();
    e.render(&mut r);
    dots(&r.finish())
}

fn cells_of_text(ml: &str) -> Vec<String> {
    dots(&render(ml).unwrap())
}

fn expect(v: &[&str]) -> Vec<String> {
    v.iter().map(|s| s.to_string()).collect()
}

#[test]
fn number_has_indicator_and_upper_digits() {
    assert_eq!(cells_of(&num("12")), expect(&["3456", "1", "12"]));
    assert_eq!(cells_of_text("<math><mn>12</mn></math>"), expect(&["3456", "1", "12"]));
}

#[test]
fn number_digits_and_separators() {
    assert_eq!(
        cells_of(&num("3,5.0")),
        expect(&["3456", "14", "2", "15", "2", "245"])
    );
    assert_eq!(cells_of(&num("1a")), expect(&["3456", "1", "123456"]));
}

#[test]
fn identifier_has_prefix_and_letter() {
    assert_eq!(cells_of(&ident("x")), expect(&["6", "1346"]));
    assert_eq!(cells_of_text("<math><mi>x</mi></math>"), expect(&["6", "1346"]));
}

#[test]
fn prefix_repeats_only_on_change() {
    let e = node(ElementType::Row, vec![ident("x"), ident("y"), ident("X")]);
    assert_eq!(cells_of(&e), expect(&["6", "1346", "13456", "46", "1346"]));
}

#[test]
fn prefix_after_number_depends_on_lower_dots() {
    let e = node(ElementType::Row, vec![ident("a"), num("2"), ident("a")]);
    assert_eq!(cells_of(&e), expect(&["6", "1", "3456", "12", "6", "1"]));
    let e = node(ElementType::Row, vec![ident("x"), num("2"), ident("x")]);
    assert_eq!(cells_of(&e), expect(&["6", "1346", "3456", "12", "1346"]));
}

#[test]
fn function_name_clears_last_classifier() {
    let e = node(ElementType::Row, vec![ident("x"), ident("sin"), ident("x")]);
    assert_eq!(
        cells_of(&e),
        expect(&["6", "1346", "1246", "234", "6", "1346"])
    );
}

#[test]
fn fraction_of_two_integers() {
    let e = node(ElementType::Fraction, vec![num("1"), num("2")]);
    assert_eq!(cells_of(&e), expect(&["1", "23"]));
}

#[test]
fn fraction_with_row_numerator() {
    let numerator = node(ElementType::Row, vec![ident("x"), ident("y")]);
    let e = node(ElementType::Fraction, vec![numerator, num("2")]);
    assert_eq!(
        cells_of(&e),
        expect(&["23", "6", "1346", "13456", "", "1256", "23", "56"])
    );
    assert_eq!(
        cells_of_text("<math><mfrac><mrow><mi>x</mi><mi>y</mi></mrow><mn>2</mn></mfrac></math>"),
        expect(&["23", "6", "1346", "13456", "", "1256", "23", "56"])
    );
}

#[test]
fn fraction_of_simple_parts() {
    let e = node(ElementType::Fraction, vec![ident("x"), num("2")]);
    assert_eq!(cells_of(&e), expect(&["6", "1346", "1256", "23"]));
}

#[test]
fn plus_after_number_is_separated() {
    let e = node(ElementType::Row, vec![num("1"), op("+"), num("2")]);
    assert_eq!(
        cells_of(&e),
        expect(&["3456", "1", "", "235", "3456", "12"])
    );
}

#[test]
fn leading_minus_is_not_separated() {
    let e = node(ElementType::Row, vec![op("-"), num("2")]);
    assert_eq!(cells_of(&e), expect(&["36", "3456", "12"]));
    let e = node(ElementType::Row, vec![num("1"), op("="), op("-")]);
    assert_eq!(cells_of(&e), expect(&["3456", "1", "", "2356", "36"]));
}

#[test]
fn unknown_tag_is_dropped_with_its_subtree() {
    let cells = cells_of_text("<math><mi>x</mi><mtext><mi>y</mi></mtext><mn>1</mn></math>");
    assert_eq!(cells, expect(&["6", "1346", "3456", "1"]));
    let inner = MarkupNode::new("mi".to_string(), "y".to_string(), Vec::new());
    let unknown = MarkupNode::new("mstyle".to_string(), String::new(), vec![inner]);
    let x = MarkupNode::new("mi".to_string(), "x".to_string(), Vec::new());
    let root = MarkupNode::new("math".to_string(), String::new(), vec![x, unknown]);
    let e = MathElement::from_xml(&root).unwrap();
    assert_eq!(e.children.len(), 1);
    assert_eq!(dots(&render_markup(&root)), expect(&["6", "1346"]));
}

#[test]
fn unknown_root_is_refused() {
    assert_eq!(render("<svg><mi>x</mi></svg>").err(), Some(MarkupError::UnknownRoot));
    let root = MarkupNode::new("svg".to_string(), String::new(), Vec::new());
    assert!(MathElement::from_xml(&root).is_none());
    assert_eq!(render_markup(&root).len(), 0);
}

#[test]
fn malformed_markup_is_an_error() {
    assert_eq!(render("<math><mi>x</math>").err(), Some(MarkupError::Malformed));
    assert_eq!(parse_markup("").err(), Some(MarkupError::Malformed));
}

#[test]
fn markup_is_read_node_by_node() {
    let root = parse_markup("<math>a<mi>x</mi><!-- c --><mn>12</mn>b</math>").unwrap();
    assert_eq!(root.tag, "math");
    assert_eq!(root.text, "a");
    assert_eq!(root.children.len(), 5);
    assert_eq!(root.children[0].tag, "");
    assert_eq!(root.children[0].text, "a");
    assert_eq!(root.children[1].tag, "mi");
    assert_eq!(root.children[1].text, "x");
    assert_eq!(root.children[1].children.len(), 1);
    assert_eq!(root.children[2].tag, "");
    assert_eq!(root.children[3].text, "12");
    let e = MathElement::from_xml(&root).unwrap();
    assert_eq!(e.children.len(), 2);
    assert_eq!(dots(&render_markup(&root)), expect(&["6", "1346", "3456", "1", "12"]));
}

#[test]
fn invisible_operators_change_nothing() {
    let plain = "<math><mi>f</mi><mrow><mi>x</mi><mi>y</mi></mrow><mn>2</mn></math>";
    let marked = "<math><mi>f</mi>\u{2061}<mrow><mi>x</mi><mo>\u{2062}</mo><mi>y</mi></mrow><mn>2\u{2063}</mn>\u{2064}</math>";
    assert_eq!(dots(&render(plain).unwrap()), dots(&render(marked).unwrap()));
    assert_eq!(
        normalize_text(marked),
        "<math><mi>f</mi><mrow><mi>x</mi><mo></mo><mi>y</mi></mrow><mn>2</mn></math>"
    );
}

#[test]
fn invisible_operators_are_removed_before_parsing() {
    assert_eq!(normalize_text("a\u{2062}b\u{2212}"), "ab-");
    assert_eq!(
        cells_of_text("<math><mi>x</mi><mo>\u{2062}</mo><mi>y</mi></math>"),
        expect(&["6", "1346", "13456"])
    );
    assert_eq!(
        cells_of_text("<math><mn>1</mn><mo>\u{2212}</mo><mn>2</mn></math>"),
        expect(&["3456", "1", "", "36", "3456", "12"])
    );
}

#[test]
fn subscript_and_superscript() {
    let sub = node(ElementType::Subscript, vec![ident("x"), num("2")]);
    assert_eq!(cells_of(&sub), expect(&["6", "1346", "16", "23", "156"]));
    let sup = node(ElementType::Superscript, vec![ident("x"), num("2")]);
    assert_eq!(cells_of(&sup), expect(&["6", "1346", "34", "23"]));
    let both = node(ElementType::SubSuperscript, vec![ident("x"), num("1"), num("2")]);
    assert_eq!(
        cells_of(&both),
        expect(&["6", "1346", "16", "2", "156", "34", "23"])
    );
    let sup_ident = node(ElementType::Superscript, vec![ident("x"), ident("n")]);
    assert_eq!(cells_of(&sup_ident), expect(&["6", "1346", "34", "1345"]));
}

#[test]
fn under_and_over_scripts() {
    let under = node(ElementType::Underscript, vec![ident("x"), num("1")]);
    assert_eq!(cells_of(&under), expect(&["6", "1346", "46", "16", "2", "156"]));
    let both = node(ElementType::UnderOverscript, vec![ident("x"), num("1"), num("2")]);
    assert_eq!(
        cells_of(&both),
        expect(&["6", "1346", "46", "16", "2", "156", "46", "34", "23"])
    );
}

#[test]
fn embellishments() {
    let prime = node(ElementType::Superscript, vec![ident("f"), op("\u{2032}")]);
    assert_eq!(cells_of(&prime), expect(&["6", "124", "35"]));
    let bar = node(ElementType::Overscript, vec![ident("x"), op("\u{203e}")]);
    assert_eq!(cells_of(&bar), expect(&["6", "1346", "45", "25"]));
    let tilde = node(ElementType::Overscript, vec![ident("x"), op("~")]);
    assert_eq!(cells_of(&tilde), expect(&["6", "1346", "26"]));
    let marks = node(ElementType::Subscript, vec![ident("x"), node(ElementType::Row, vec![op("+"), op("-")])]);
    assert_eq!(cells_of(&marks), expect(&["6", "1346", "456", "235", "456", "36"]));
}

#[test]
fn roots() {
    let sqrt = node(ElementType::Sqrt, vec![num("2")]);
    assert_eq!(cells_of(&sqrt), expect(&["146", "3456", "12", "1456"]));
    let root = node(ElementType::Radical, vec![ident("x"), num("3")]);
    assert_eq!(cells_of(&root), expect(&["146", "25", "156", "6", "1346", "1456"]));
    let signed = node(ElementType::Radical, vec![ident("x"), node(ElementType::Row, vec![op("-"), num("3")])]);
    assert_eq!(cells_of(&signed), expect(&["146", "", "36", "25", "156", "6", "1346", "1456"]));
}

#[test]
fn integer_shapes() {
    assert!(num("12").is_integer());
    assert!(num("").is_integer());
    assert!(!num("1.5").is_integer());
    assert!(node(ElementType::Row, vec![num("7")]).is_integer());
    assert!(node(ElementType::Row, vec![op("+"), num("7")]).is_integer());
    assert!(!node(ElementType::Row, vec![op("="), num("7")]).is_integer());
    assert!(!ident("x").is_integer());
    assert!(node(ElementType::Row, vec![ident("x")]).is_single_ident());
    assert!(!node(ElementType::Row, vec![ident("x"), ident("y")]).is_single_ident());
    assert!(node(ElementType::Row, vec![op("+"), op("-")]).is_operators());
    assert!(!node(ElementType::Row, vec![op("+"), num("1")]).is_operators());
}

#[test]
fn renderer_state() {
    let mut r = BasicRenderer::new();
    assert!(r.get_last_element_type().is_none());
    assert!(r.get_last_classifier().is_none());
    r.write_string(BrailleString::from_dot_numbers(&[1, 2]), ElementType::Number);
    assert_eq!(r.get_last_element_type(), Some(ElementType::Number));
    let x = rbmath::letters::Classifier::classify('x').unwrap();
    r.set_last_classifier(Some(x.1));
    assert_eq!(r.get_last_classifier(), Some(x.1));
    assert_eq!(dots(&r.finish()), expect(&["1", "2"]));
}

#[test]
fn display_text_of_a_rendering() {
    let s = render("<math><mn>1</mn></math>").unwrap();
    assert_eq!(s.to_unicode(), "\u{283C}\u{2801}");
}
