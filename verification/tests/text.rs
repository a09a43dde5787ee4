use w90::number::{Binary64, Real};
use w90::text::{Piece, Text};

fn given(x: f64) -> Real {
    Real::Given(Binary64 { bits: x.to_bits() })
}

fn number(r: &Real) -> f64 {
    match r {
        Real::Given(x) => f64::from_bits(x.bits),
        Real::Product(a, b) => f64::from_bits(a.bits) * f64::from_bits(b.bits),
    }
}

fn print(text: &Text) -> String {
    let mut out = String::new();
    for piece in &text.pieces {
        match piece {
            Piece::Text(s) => out.push_str(s),
            Piece::Number(r) => out.push_str(&format!("{}", number(r))),
        }
    }
    out
}

#[test]
fn empty_text() {
    assert_eq!(print(&Text::new()), "");
    assert_eq!(print(&Text::from_str("")), "");
}

#[test]
fn decimal_notation() {
    for (n, expected) in [
        (0u64, "0"),
        (1, "1"),
        (9, "9"),
        (10, "10"),
        (11, "11"),
        (99, "99"),
        (100, "100"),
        (1000, "1000"),
        (1234567890, "1234567890"),
        (u64::MAX, "18446744073709551615"),
    ] {
        let mut text = Text::new();
        text.push_decimal(n);
        assert_eq!(print(&text), expected);
        assert_eq!(print(&text), n.to_string());
    }
}

#[test]
fn characters_and_numbers_in_turn() {
    let mut text = Text::from_str("a = ");
    text.push_number(given(1.5));
    text.push_str(", b = ");
    text.push_decimal(42);
    assert_eq!(print(&text), "a = 1.5, b = 42");
}

#[test]
fn a_number_keeps_its_bits() {
    let r = Real::from_bits(0.1f64.to_bits());
    assert_eq!(r, given(0.1));
    let mut text = Text::new();
    text.push_number(r);
    assert_eq!(text.pieces.len(), 1);
    match &text.pieces[0] {
        Piece::Number(Real::Given(x)) => assert_eq!(x.bits, 0.1f64.to_bits()),
        _ => panic!("not the number that was pushed"),
    }
}

#[test]
fn triples() {
    let mut text = Text::new();
    text.push_triple(&[given(1.0), given(-2.5), given(0.0)], ", ");
    assert_eq!(print(&text), "1, -2.5, 0");
}

#[test]
fn appending_a_text() {
    let mut text = Text::from_str("x=");
    let mut other = Text::new();
    other.push_number(given(3.0));
    other.push_str(";");
    text.append(&other);
    text.append(&Text::new());
    assert_eq!(print(&text), "x=3;");
    assert_eq!(print(&other), "3;");
}

#[test]
fn joining() {
    assert_eq!(print(&Text::join(&Vec::new(), "\n")), "");
    assert_eq!(print(&Text::join(&vec![Text::from_str("one")], "\n")), "one");
    assert_eq!(
        print(&Text::join(
            &vec![Text::from_str("one"), Text::from_str(""), Text::from_str("three")],
            "\n"
        )),
        "one\n\nthree"
    );
    assert_eq!(
        print(&Text::join(&vec![Text::from_str("l=0"), Text::from_str("l=1")], ";")),
        "l=0;l=1"
    );
}

#[test]
fn a_piece_and_its_duplicate() {
    let p = Piece::Text(String::from("begin kpoints"));
    match p.duplicate() {
        Piece::Text(s) => assert_eq!(s, "begin kpoints"),
        _ => panic!("not characters"),
    }
    let q = Piece::Number(given(2.0));
    match q.duplicate() {
        Piece::Number(r) => assert_eq!(r, given(2.0)),
        _ => panic!("not a number"),
    }
}
