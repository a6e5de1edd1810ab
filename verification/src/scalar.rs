//! The types a text field can edit.
//!
//! A scalar has a default value, a text that shows a value, and a partial map
//! from text back to values. A field starts from the text of the default and
//! yields a value whenever its text parses.

use vstd::prelude::*;

verus! {

/// A type that a single text field can hold.
pub trait Scalar: View + Sized {
    /// The value a fresh field starts from.
    spec fn default_value() -> Self::V;

    /// The text that shows `value`.
    spec fn text_of(value: Self::V) -> Seq<char>;

    /// The value that `text` stands for, if it stands for one.
    spec fn parsed(text: Seq<char>) -> Option<Self::V>;

    /// Makes the default value.
    fn initial() -> (value: Self)
        ensures
            value@ == Self::default_value(),
    ;

    /// Writes the value out as text.
    fn to_text(&self) -> (text: String)
        ensures
            text@ == Self::text_of(self@),
    ;

    /// Reads a value from text.
    fn parse(text: &str) -> (value: Option<Self>)
        ensures
            match value {
                Some(v) => Self::parsed(text@) == Some(v@),
                None => Self::parsed(text@) is None,
            },
    ;
}

/// Free text: every text is a value, and the default is the empty text.
impl Scalar for String {
    open spec fn default_value() -> Seq<char> {
        Seq::empty()
    }

    open spec fn text_of(value: Seq<char>) -> Seq<char> {
        value
    }

    open spec fn parsed(text: Seq<char>) -> Option<Seq<char>> {
        Some(text)
    }

    fn initial() -> (value: String) {
        String::new()
    }

    fn to_text(&self) -> (text: String) {
        self.clone()
    }

    fn parse(text: &str) -> (value: Option<String>) {
        Some(text.to_owned())
    }
}

/// Whether `c` is one of the ten decimal digits.
pub open spec fn is_digit(c: char) -> bool {
    '0' <= c <= '9'
}

/// The number a decimal digit stands for.
pub open spec fn digit_value(c: char) -> nat {
    (c as u32 - '0' as u32) as nat
}

/// The decimal digit that stands for `d`, for `d` below ten.
pub open spec fn digit_char(d: nat) -> char {
    (d + '0' as u32) as u32 as char
}

/// Whether every character of `s` is a decimal digit.
pub open spec fn all_digits(s: Seq<char>) -> bool {
    forall|i: int| 0 <= i < s.len() ==> is_digit(#[trigger] s[i])
}

/// The number that a run of decimal digits writes, most significant first.
pub open spec fn decimal_value(s: Seq<char>) -> nat
    decreases s.len(),
{
    if s.len() == 0 {
        0
    } else {
        decimal_value(s.drop_last()) * 10 + digit_value(s.last())
    }
}

/// `s` without one leading plus sign.
pub open spec fn unsigned_digits(s: Seq<char>) -> Seq<char> {
    if s.len() > 0 && s[0] == '+' {
        s.subrange(1, s.len() as int)
    } else {
        s
    }
}

/// The unsigned integer that `s` writes: an optional plus sign, then one or
/// more decimal digits and nothing else, with a value that fits a `usize`.
pub open spec fn parsed_unsigned(s: Seq<char>) -> Option<usize> {
    let digits = unsigned_digits(s);
    if digits.len() > 0 && all_digits(digits) && decimal_value(digits) <= usize::MAX {
        Some(decimal_value(digits) as usize)
    } else {
        None
    }
}

/// The decimal text of `n`: no sign, no leading zero, `"0"` for zero.
pub open spec fn decimal_text(n: nat) -> Seq<char>
    decreases n,
{
    if n < 10 {
        seq![digit_char(n)]
    } else {
        decimal_text(n / 10).push(digit_char(n % 10))
    }
}

/// `str::parse::<usize>`: std reads an optional plus sign followed by decimal
/// digits only, and fails on an empty text, on any other character and on a
/// number that does not fit.
#[verifier::external_body]
pub(crate) fn parse_usize(text: &str) -> (value: Option<usize>)
    ensures
        value == parsed_unsigned(text@),
{
    text.parse::<usize>().ok()
}

/// `usize::to_string`: std writes an unsigned integer in decimal, without
/// sign or leading zeros.
#[verifier::external_body]
pub(crate) fn usize_text(n: usize) -> (text: String)
    ensures
        text@ == decimal_text(n as nat),
{
    n.to_string()
}

/// An unsigned integer in decimal; the default is zero.
impl Scalar for usize {
    open spec fn default_value() -> usize {
        0
    }

    open spec fn text_of(value: usize) -> Seq<char> {
        decimal_text(value as nat)
    }

    open spec fn parsed(text: Seq<char>) -> Option<usize> {
        parsed_unsigned(text)
    }

    fn initial() -> (value: usize) {
        0
    }

    fn to_text(&self) -> (text: String) {
        usize_text(*self)
    }

    fn parse(text: &str) -> (value: Option<usize>) {
        parse_usize(text)
    }
}

/// The text of a number is all digits, and writes that number.
pub proof fn lemma_decimal_text_value(n: nat)
    ensures
        decimal_text(n).len() > 0,
        all_digits(decimal_text(n)),
        decimal_value(decimal_text(n)) == n,
        decimal_text(n)[0] != '+',
    decreases n,
{
    if n < 10 {
        let s = decimal_text(n);
        assert(s.drop_last() =~= Seq::<char>::empty());
        assert(decimal_value(s.drop_last()) == 0);
        assert(decimal_value(s) == digit_value(s.last()));
    } else {
        lemma_decimal_text_value(n / 10);
        let head = decimal_text(n / 10);
        let s = decimal_text(n);
        assert(s.drop_last() =~= head);
        assert(s.last() == digit_char(n % 10));
        assert(s[0] == head[0]);
        assert forall|i: int| 0 <= i < s.len() implies is_digit(#[trigger] s[i]) by {
            if i < head.len() {
                assert(s[i] == head[i]);
            }
        }
    }
}

/// An unsigned integer reads back from its own text.
pub proof fn lemma_unsigned_round_trip(n: usize)
    ensures
        parsed_unsigned(decimal_text(n as nat)) == Some(n),
{
    lemma_decimal_text_value(n as nat);
}

/// The default text reads back as itself: a fresh field of free text yields
/// the empty text.
pub proof fn lemma_text_default_round_trips()
    ensures
        <String as Scalar>::parsed(<String as Scalar>::text_of(<String as Scalar>::default_value()))
            == Some(<String as Scalar>::default_value()),
{
}

/// Zero reads back from its own text: a fresh field of an unsigned integer
/// yields zero.
pub proof fn lemma_unsigned_default_round_trips()
    ensures
        <usize as Scalar>::parsed(<usize as Scalar>::text_of(<usize as Scalar>::default_value()))
            == Some(<usize as Scalar>::default_value()),
{
    lemma_unsigned_round_trip(0);
}

} // verus!
