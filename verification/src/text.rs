//! Styled text in plain values, and decimal rendering of integers.
use vstd::prelude::*;

verus! {

/// The named colours that the plugin's texts use.
#[derive(Clone, Copy, Debug, PartialEq, Eq, Structural)]
pub enum NamedColor {
    Red,
    Green,
    Yellow,
    White,
    Gold,
}

/// One styled piece of text: the text, the colour it ends up with (if any)
/// and whether it is bold.
pub struct Segment {
    pub text: String,
    pub color: Option<NamedColor>,
    pub bold: bool,
}

impl Segment {
    /// The segment holds exactly this text and style.
    pub open spec fn has(self, text: Seq<char>, color: Option<NamedColor>, bold: bool) -> bool {
        &&& self.text@ == text
        &&& self.color == color
        &&& self.bold == bold
    }
}

/// Makes a segment from a text and a style.
pub fn segment(text: &str, color: Option<NamedColor>, bold: bool) -> (s: Segment)
    ensures
        s.has(text@, color, bold),
{
    Segment { text: text.to_owned(), color, bold }
}

/// A text component: a root segment followed by its children, in order.
pub struct StyledText {
    pub root: Segment,
    pub children: Vec<Segment>,
}

/// A segment in plain values: text, colour, boldness.
pub type SegmentView = (Seq<char>, Option<NamedColor>, bool);

impl StyledText {
    /// The text component has exactly this root and these children, in order.
    pub open spec fn shows(self, root: SegmentView, children: Seq<SegmentView>) -> bool {
        &&& self.root.has(root.0, root.1, root.2)
        &&& self.children@.len() == children.len()
        &&& forall|i: int|
            0 <= i < children.len() ==> #[trigger] self.children@[i].has(
                children[i].0,
                children[i].1,
                children[i].2,
            )
    }
}

/// The character of a decimal digit.
pub open spec fn digit_char(d: int) -> char {
    if d == 0 { '0' }
    else if d == 1 { '1' }
    else if d == 2 { '2' }
    else if d == 3 { '3' }
    else if d == 4 { '4' }
    else if d == 5 { '5' }
    else if d == 6 { '6' }
    else if d == 7 { '7' }
    else if d == 8 { '8' }
    else { '9' }
}

/// The decimal digits of a natural number, most significant first, without
/// leading zeros ("0" for zero).
pub open spec fn spec_digits(n: nat) -> Seq<char>
    decreases n,
{
    if n < 10 {
        seq![digit_char(n as int)]
    } else {
        spec_digits(n / 10).push(digit_char((n % 10) as int))
    }
}

/// The decimal rendering of an integer, as Rust's `Display` writes it:
/// a minus sign before the digits of the magnitude when negative.
pub open spec fn spec_decimal(n: int) -> Seq<char> {
    if n < 0 {
        seq!['-'] + spec_digits((-n) as nat)
    } else {
        spec_digits(n as nat)
    }
}

/// The value of a decimal digit character.
pub open spec fn digit_value(c: char) -> int {
    c as int - '0' as int
}

/// Reads a sequence of decimal digits as a number, most significant first.
pub open spec fn parse_digits(s: Seq<char>) -> int
    decreases s.len(),
{
    if s.len() == 0 {
        0
    } else {
        parse_digits(s.drop_last()) * 10 + digit_value(s.last())
    }
}

/// Reads a decimal text as a number: an optional leading minus sign, then
/// decimal digits.
pub open spec fn parse_decimal(s: Seq<char>) -> int {
    if s.len() > 0 && s[0] == '-' {
        -parse_digits(s.drop_first())
    } else {
        parse_digits(s)
    }
}

/// A character is a decimal digit.
pub open spec fn is_digit(c: char) -> bool {
    '0' <= c <= '9'
}

proof fn lemma_digit_char(d: int)
    requires
        0 <= d < 10,
    ensures
        digit_value(digit_char(d)) == d,
        is_digit(digit_char(d)),
        d > 0 ==> digit_char(d) != '0',
{
}

proof fn lemma_digits_read_back(n: nat)
    ensures
        parse_digits(spec_digits(n)) == n,
        spec_digits(n).len() >= 1,
        forall|i: int| 0 <= i < spec_digits(n).len() ==> is_digit(#[trigger] spec_digits(n)[i]),
        n > 0 ==> spec_digits(n)[0] != '0',
    decreases n,
{
    if n >= 10 {
        lemma_digits_read_back(n / 10);
        lemma_digit_char((n % 10) as int);
        let d = spec_digits(n / 10);
        assert((n / 10) * 10 + n % 10 == n);
        assert(spec_digits(n).last() == digit_char((n % 10) as int));
        assert(parse_digits(spec_digits(n)) == parse_digits(spec_digits(n).drop_last()) * 10
            + digit_value(spec_digits(n).last()));
        assert(spec_digits(n).drop_last() == d);
        assert(spec_digits(n)[0] == d[0]);
        assert forall|i: int| 0 <= i < spec_digits(n).len() implies is_digit(#[trigger] spec_digits(n)[i]) by {
            if i < d.len() {
                assert(spec_digits(n)[i] == d[i]);
            }
        }
    } else {
        lemma_digit_char(n as int);
        assert(spec_digits(n).drop_last() =~= Seq::<char>::empty());
        assert(parse_digits(Seq::<char>::empty()) == 0);
        assert(spec_digits(n).last() == digit_char(n as int));
    }
}

/// The decimal text of a number reads back as that number; it is a non-empty
/// run of digits without a leading zero (but for 0 itself), after a minus
/// sign exactly when the number is negative.
pub proof fn law_decimal_reads_back(n: int)
    ensures
        parse_decimal(spec_decimal(n)) == n,
        (spec_decimal(n)[0] == '-') == (n < 0),
        forall|i: int|
            (if n < 0 { 1int } else { 0int }) <= i < spec_decimal(n).len() ==> is_digit(
                #[trigger] spec_decimal(n)[i],
            ),
        spec_decimal(n).len() >= 1,
        spec_decimal(n).len() > 1 ==> spec_decimal(n)[if n < 0 { 1int } else { 0int }] != '0',
{
    if n < 0 {
        let d = spec_digits((-n) as nat);
        lemma_digits_read_back((-n) as nat);
        let s = seq!['-'] + d;
        assert(s.drop_first() == d);
        assert forall|i: int| 1 <= i < s.len() implies is_digit(#[trigger] s[i]) by {
            assert(s[i] == d[i - 1]);
        }
        assert(s[1] == d[0]);
    } else {
        lemma_digits_read_back(n as nat);
        assert(is_digit(spec_digits(n as nat)[0]));
        if spec_digits(n as nat).len() > 1 {
            assert(n >= 10) by {
                if n < 10 {
                    assert(spec_digits(n as nat).len() == 1);
                }
            }
        }
    }
}

fn digit_str(d: u64) -> (s: &'static str)
    requires
        d < 10,
    ensures
        s@ == seq![digit_char(d as int)],
{
    proof {
        reveal_strlit("0");
        reveal_strlit("1");
        reveal_strlit("2");
        reveal_strlit("3");
        reveal_strlit("4");
        reveal_strlit("5");
        reveal_strlit("6");
        reveal_strlit("7");
        reveal_strlit("8");
        reveal_strlit("9");
    }
    if d == 0 { "0" }
    else if d == 1 { "1" }
    else if d == 2 { "2" }
    else if d == 3 { "3" }
    else if d == 4 { "4" }
    else if d == 5 { "5" }
    else if d == 6 { "6" }
    else if d == 7 { "7" }
    else if d == 8 { "8" }
    else { "9" }
}

fn push_digits(out: &mut String, m: u64)
    ensures
        final(out)@ == old(out)@ + spec_digits(m as nat),
    decreases m,
{
    if m >= 10 {
        push_digits(out, m / 10);
    }
    let d = digit_str(m % 10);
    out.append(d);
}

/// Renders an integer in decimal, as `to_string` does.
pub fn decimal_string(n: i64) -> (s: String)
    ensures
        s@ == spec_decimal(n as int),
        parse_decimal(s@) == n,
{
    proof {
        law_decimal_reads_back(n as int);
    }
    let mut s = String::new();
    if n < 0 {
        proof { reveal_strlit("-"); }
        s.append("-");
        let wide: i128 = n as i128;
        let m: u64 = (0i128 - wide) as u64;
        push_digits(&mut s, m);
    } else {
        push_digits(&mut s, n as u64);
    }
    s
}

} // verus!
