//! Text in which the numbers are not yet written out.
use vstd::prelude::*;
use crate::number::Real;

verus! {

/// One place in a text: a character, or a real number that stands there and
/// is still to be printed.
#[derive(Clone, Copy, Debug, PartialEq, Eq, Structural)]
pub enum Glyph {
    Char(char),
    Number(Real),
}

/// The place that holds the character `c`.
pub open spec fn glyph(c: char) -> Glyph {
    Glyph::Char(c)
}

/// The characters of `s`, each as a place of a text.
pub open spec fn chars(s: Seq<char>) -> Seq<Glyph> {
    s.map_values(|c: char| glyph(c))
}

/// The decimal digit for `d`.
pub open spec fn digit(d: nat) -> char
    recommends
        d < 10,
{
    if d == 0 {
        '0'
    } else if d == 1 {
        '1'
    } else if d == 2 {
        '2'
    } else if d == 3 {
        '3'
    } else if d == 4 {
        '4'
    } else if d == 5 {
        '5'
    } else if d == 6 {
        '6'
    } else if d == 7 {
        '7'
    } else if d == 8 {
        '8'
    } else {
        '9'
    }
}

/// `n` in decimal notation, without leading zeros.
pub open spec fn decimal(n: nat) -> Seq<char>
    decreases n,
{
    if n < 10 {
        seq![digit(n)]
    } else {
        decimal(n / 10).push(digit(n % 10))
    }
}

/// A run of a text: characters, or one number.
#[derive(Debug)]
pub enum Piece {
    Text(String),
    Number(Real),
}

impl Piece {
    /// The places that the piece fills.
    pub open spec fn glyphs(self) -> Seq<Glyph> {
        match self {
            Piece::Text(s) => chars(s@),
            Piece::Number(r) => seq![Glyph::Number(r)],
        }
    }

    /// A second piece like this one.
    pub fn duplicate(&self) -> (p: Piece)
        ensures
            p == *self,
    {
        match self {
            Piece::Text(s) => Piece::Text(s.clone()),
            Piece::Number(r) => Piece::Number(*r),
        }
    }
}

/// The places that the pieces fill, one piece after the other.
pub open spec fn flatten(pieces: Seq<Piece>) -> Seq<Glyph>
    decreases pieces.len(),
{
    if pieces.len() == 0 {
        Seq::empty()
    } else {
        flatten(pieces.drop_last()) + pieces.last().glyphs()
    }
}

/// The items one after the other, with `sep` between each two.
pub open spec fn join(items: Seq<Seq<Glyph>>, sep: Seq<Glyph>) -> Seq<Glyph>
    decreases items.len(),
{
    if items.len() == 0 {
        Seq::empty()
    } else if items.len() == 1 {
        items[0]
    } else {
        join(items.drop_last(), sep) + sep + items.last()
    }
}

/// The three numbers of `r`, with the characters `sep` between each two.
pub open spec fn triple(r: [Real; 3], sep: Seq<char>) -> Seq<Glyph> {
    seq![Glyph::Number(r[0])] + chars(sep) + seq![Glyph::Number(r[1])] + chars(sep)
        + seq![Glyph::Number(r[2])]
}

/// A text as the library writes it: characters, and numbers that the caller
/// prints in their places.
#[derive(Debug)]
pub struct Text {
    pub pieces: Vec<Piece>,
}

impl View for Text {
    type V = Seq<Glyph>;

    open spec fn view(&self) -> Seq<Glyph> {
        flatten(self.pieces@)
    }
}

/// What each of the texts says.
pub open spec fn views(texts: Seq<Text>) -> Seq<Seq<Glyph>> {
    texts.map_values(|t: Text| t@)
}

/// The one-character text of a decimal digit.
fn digit_str(d: u64) -> (s: &'static str)
    requires
        d < 10,
    ensures
        s@ == seq![digit(d as nat)],
{
    proof {
        reveal_strlit("0");
        reveal_strlit("1");
        reveal_strlit("2");
        reveal_strlit("3");
        reveal_strlit("4");
        reveal_strlit("5");
        reveal_strlit("6");
        reveal_strlit("7");
        reveal_strlit("8");
        reveal_strlit("9");
    }
    let s = if d == 0 {
        "0"
    } else if d == 1 {
        "1"
    } else if d == 2 {
        "2"
    } else if d == 3 {
        "3"
    } else if d == 4 {
        "4"
    } else if d == 5 {
        "5"
    } else if d == 6 {
        "6"
    } else if d == 7 {
        "7"
    } else if d == 8 {
        "8"
    } else {
        "9"
    };
    assert(s@ =~= seq![digit(d as nat)]);
    s
}

/// Appends `n` in decimal notation to `out`.
fn append_decimal(out: &mut String, n: u64)
    ensures
        final(out)@ == old(out)@ + decimal(n as nat),
    decreases n,
{
    if n >= 10 {
        append_decimal(out, n / 10);
    }
    out.append(digit_str(n % 10));
    assert(final(out)@ =~= old(out)@ + decimal(n as nat));
}

impl Text {
    /// The empty text.
    pub fn new() -> (t: Text)
        ensures
            t@ == Seq::<Glyph>::empty(),
    {
        Text { pieces: Vec::new() }
    }

    /// The text of the characters of `s`.
    pub fn from_str(s: &str) -> (t: Text)
        ensures
            t@ == chars(s@),
    {
        let mut t = Text::new();
        t.push_str(s);
        t
    }

    /// Appends the characters of `s`.
    pub fn push_str(&mut self, s: &str)
        ensures
            final(self)@ == old(self)@ + chars(s@),
    {
        let piece = Piece::Text(String::from_str(s));
        self.pieces.push(piece);
        assert(self.pieces@.drop_last() =~= old(self).pieces@);
    }

    /// Appends a number, to be printed in this place.
    pub fn push_number(&mut self, r: Real)
        ensures
            final(self)@ == old(self)@.push(Glyph::Number(r)),
    {
        self.pieces.push(Piece::Number(r));
        assert(self.pieces@.drop_last() =~= old(self).pieces@);
        assert(old(self)@ + seq![Glyph::Number(r)] =~= old(self)@.push(Glyph::Number(r)));
    }

    /// Appends `n` in decimal notation.
    pub fn push_decimal(&mut self, n: u64)
        ensures
            final(self)@ == old(self)@ + chars(decimal(n as nat)),
    {
        let mut s = String::new();
        append_decimal(&mut s, n);
        assert(s@ =~= decimal(n as nat));
        self.pieces.push(Piece::Text(s));
        assert(self.pieces@.drop_last() =~= old(self).pieces@);
    }

    /// Appends the whole of `other`.
    pub fn append(&mut self, other: &Text)
        ensures
            final(self)@ == old(self)@ + other@,
    {
        let n = other.pieces.len();
        let mut i: usize = 0;
        while i < n
            invariant
                i <= n,
                n == other.pieces@.len(),
                self@ == old(self)@ + flatten(other.pieces@.take(i as int)),
            decreases n - i,
        {
            let piece = other.pieces[i].duplicate();
            let ghost before = self.pieces@;
            self.pieces.push(piece);
            proof {
                assert(self.pieces@.drop_last() =~= before);
                let next = other.pieces@.take(i + 1);
                assert(next.drop_last() =~= other.pieces@.take(i as int));
                assert(next.last() == other.pieces@[i as int]);
                assert(self@ =~= old(self)@ + flatten(next));
            }
            i += 1;
        }
        assert(other.pieces@.take(n as int) =~= other.pieces@);
    }

    /// Appends the three numbers of `r`, with `sep` between each two.
    pub fn push_triple(&mut self, r: &[Real; 3], sep: &str)
        ensures
            final(self)@ == old(self)@ + triple(*r, sep@),
    {
        self.push_number(r[0]);
        self.push_str(sep);
        self.push_number(r[1]);
        self.push_str(sep);
        self.push_number(r[2]);
        assert(final(self)@ =~= old(self)@ + triple(*r, sep@));
    }

    /// The texts one after the other, with `sep` between each two.
    pub fn join(texts: &Vec<Text>, sep: &str) -> (t: Text)
        ensures
            t@ == join(views(texts@), chars(sep@)),
    {
        let n = texts.len();
        let mut t = Text::new();
        let mut i: usize = 0;
        while i < n
            invariant
                i <= n,
                n == texts@.len(),
                t@ == join(views(texts@.take(i as int)), chars(sep@)),
            decreases n - i,
        {
            proof {
                let seen = views(texts@.take(i as int));
                let next = views(texts@.take(i + 1));
                assert(next.drop_last() =~= seen);
                assert(next.last() == texts@[i as int]@);
            }
            if i != 0 {
                t.push_str(sep);
            }
            t.append(&texts[i]);
            proof {
                if i == 0 {
                    assert(t@ =~= texts@[i as int]@);
                }
            }
            i += 1;
        }
        assert(texts@.take(n as int) =~= texts@);
        t
    }
}

} // verus!
