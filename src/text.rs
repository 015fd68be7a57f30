//! A plain-text stand-in backend that is round-trip consistent: a value
//! encodes to its own text form and decodes back from it.
//!
//! A value type takes part through [`TextForm`], which states its text form
//! and its parser and proves that the parser reads the text form back.

use vstd::prelude::*;
use crate::serializable::Serializable;
use crate::serializer::{self, ErrorKind};
use std::marker::PhantomData;

verus! {

/// A type with a text form and a parser that reads it back.
pub trait TextForm: Sized {
    /// The text form of `self`.
    spec fn text(self) -> Seq<char>;

    /// The value that `s` parses to, or `None` where `s` is no text form.
    spec fn parsed(s: Seq<char>) -> Option<Self>;

    /// The parser reads every text form back to its value.
    proof fn lemma_parsed_text(v: Self)
        ensures
            Self::parsed(v.text()) == Some(v),
    ;

    /// Writes the text form of `self`.
    fn to_text(&self) -> (r: String)
        ensures
            r@ == self.text(),
    ;

    /// Parses `s`.
    fn from_text(s: &str) -> (r: Option<Self>)
        ensures
            r == Self::parsed(s@),
    ;
}

/// The character of the decimal digit `d`.
pub open spec fn digit_char(d: nat) -> char {
    if d == 0 {
        '0'
    } else if d == 1 {
        '1'
    } else if d == 2 {
        '2'
    } else if d == 3 {
        '3'
    } else if d == 4 {
        '4'
    } else if d == 5 {
        '5'
    } else if d == 6 {
        '6'
    } else if d == 7 {
        '7'
    } else if d == 8 {
        '8'
    } else {
        '9'
    }
}

/// The value of the decimal digit `c`, or `None` where `c` is no digit.
pub open spec fn digit_value(c: char) -> Option<nat> {
    if c == '0' {
        Some(0)
    } else if c == '1' {
        Some(1)
    } else if c == '2' {
        Some(2)
    } else if c == '3' {
        Some(3)
    } else if c == '4' {
        Some(4)
    } else if c == '5' {
        Some(5)
    } else if c == '6' {
        Some(6)
    } else if c == '7' {
        Some(7)
    } else if c == '8' {
        Some(8)
    } else if c == '9' {
        Some(9)
    } else {
        None
    }
}

/// The decimal digits of `n`, most significant first, without leading zeros.
pub open spec fn decimal(n: nat) -> Seq<char>
    decreases n,
{
    if n < 10 {
        seq![digit_char(n)]
    } else {
        decimal(n / 10).push(digit_char(n % 10))
    }
}

/// The number that a string of decimal digits stands for, or `None` where a
/// character is no digit.
pub open spec fn digits_value(s: Seq<char>) -> Option<nat>
    decreases s.len(),
{
    if s.len() == 0 {
        Some(0)
    } else {
        match (digits_value(s.drop_last()), digit_value(s.last())) {
            (Some(high), Some(low)) => Some(high * 10 + low),
            _ => None,
        }
    }
}

/// What `str::parse::<u64>` reads from `s`: an optional `+` and then one or
/// more decimal digits whose number fits in a `u64`.
pub open spec fn parsed_u64(s: Seq<char>) -> Option<u64> {
    let digits = if s.len() > 0 && s[0] == '+' {
        s.drop_first()
    } else {
        s
    };
    if digits.len() == 0 {
        None
    } else {
        match digits_value(digits) {
            Some(n) => if n <= u64::MAX {
                Some(n as u64)
            } else {
                None
            },
            None => None,
        }
    }
}

/// Relies on `str::parse::<u64>`: an optional `+` followed by decimal digits
/// only, whose number fits in a `u64`; anything else is an error.
#[verifier::external_body]
fn parse_u64(s: &str) -> (r: Option<u64>)
    ensures
        r == parsed_u64(s@),
{
    s.parse::<u64>().ok()
}

/// The text of the digit `d`.
fn digit_text(d: u64) -> (r: &'static str)
    requires
        d < 10,
    ensures
        r@ == seq![digit_char(d as nat)],
{
    proof {
        reveal_strlit("0");
        reveal_strlit("1");
        reveal_strlit("2");
        reveal_strlit("3");
        reveal_strlit("4");
        reveal_strlit("5");
        reveal_strlit("6");
        reveal_strlit("7");
        reveal_strlit("8");
        reveal_strlit("9");
    }
    if d == 0 {
        "0"
    } else if d == 1 {
        "1"
    } else if d == 2 {
        "2"
    } else if d == 3 {
        "3"
    } else if d == 4 {
        "4"
    } else if d == 5 {
        "5"
    } else if d == 6 {
        "6"
    } else if d == 7 {
        "7"
    } else if d == 8 {
        "8"
    } else {
        "9"
    }
}

/// Writes the decimal digits of `n`.
fn decimal_text(n: u64) -> (r: String)
    ensures
        r@ == decimal(n as nat),
    decreases n,
{
    if n < 10 {
        String::from_str(digit_text(n))
    } else {
        decimal_text(n / 10).concat(digit_text(n % 10))
    }
}

/// A digit's character reads back as the digit.
proof fn lemma_digit_value_of_char(d: nat)
    requires
        d < 10,
    ensures
        digit_value(digit_char(d)) == Some(d),
{
}

/// The decimal digits of `n` read back as a number give `n`.
proof fn lemma_decimal_digits_value(n: nat)
    ensures
        decimal(n).len() > 0,
        digits_value(decimal(n)) == Some(n),
        decimal(n)[0] != '+',
    decreases n,
{
    if n < 10 {
        lemma_digit_value_of_char(n);
        assert(decimal(n).drop_last() =~= Seq::<char>::empty());
        assert(digits_value(Seq::<char>::empty()) == Some(0nat));
    } else {
        lemma_decimal_digits_value(n / 10);
        lemma_digit_value_of_char(n % 10);
        assert(decimal(n).drop_last() =~= decimal(n / 10));
        assert(decimal(n).last() == digit_char(n % 10));
        assert(decimal(n)[0] == decimal(n / 10)[0]);
        assert((n / 10) * 10 + n % 10 == n) by (nonlinear_arith);
    }
}

impl TextForm for u64 {
    open spec fn text(self) -> Seq<char> {
        decimal(self as nat)
    }

    open spec fn parsed(s: Seq<char>) -> Option<u64> {
        parsed_u64(s)
    }

    proof fn lemma_parsed_text(v: u64) {
        lemma_decimal_digits_value(v as nat);
    }

    fn to_text(&self) -> (r: String) {
        decimal_text(*self)
    }

    fn from_text(s: &str) -> (r: Option<u64>) {
        parse_u64(s)
    }
}

/// The errors of the text backend.
#[derive(Debug)]
pub enum TextError {
    /// Writing to the given writer failed.
    Write { err: std::io::Error },
    /// Reading from the given reader failed.
    Read { err: std::io::Error },
    /// Flushing the given writer failed.
    Flush { err: std::io::Error },
    /// The text is no text form of the target type.
    Deserialize { raw: String },
}

impl TextError {
    /// The one-line description of the failure, without its cause.
    pub open spec fn description(self) -> Seq<char> {
        match self {
            TextError::Write { .. } => "Failed to write to given writer"@,
            TextError::Read { .. } => "Failed to read from given reader"@,
            TextError::Flush { .. } => "Failed to flush the given writer"@,
            TextError::Deserialize { .. } => "Failed to parse the given text"@,
        }
    }

    /// Describes the failure in one line.
    pub fn message(&self) -> (r: &'static str)
        ensures
            r@ == self.description(),
    {
        match self {
            TextError::Write { .. } => "Failed to write to given writer",
            TextError::Read { .. } => "Failed to read from given reader",
            TextError::Flush { .. } => "Failed to flush the given writer",
            TextError::Deserialize { .. } => "Failed to parse the given text",
        }
    }
}

/// The text backend for values of type `T`; it has no pretty mode.
pub struct Serializer<T>(pub PhantomData<T>);

impl<T: TextForm> serializer::Serializer for Serializer<T> {
    type Target = T;
    type Error = TextError;

    open spec fn encoding(v: T) -> Option<Seq<char>> {
        Some(v.text())
    }

    open spec fn pretty_encoding(v: T) -> Option<Seq<char>> {
        Some(v.text())
    }

    open spec fn decodes(s: Seq<char>, v: T) -> bool {
        T::parsed(s) == Some(v)
    }

    open spec fn rejects(s: Seq<char>) -> bool {
        T::parsed(s) is None
    }

    open spec fn kind(e: TextError) -> ErrorKind {
        match e {
            TextError::Write { .. } => ErrorKind::Write,
            TextError::Read { .. } => ErrorKind::Read,
            TextError::Flush { .. } => ErrorKind::Flush,
            TextError::Deserialize { .. } => ErrorKind::Deserialize,
        }
    }

    open spec fn io_cause(e: TextError) -> Option<std::io::Error> {
        match e {
            TextError::Write { err } => Some(err),
            TextError::Read { err } => Some(err),
            TextError::Flush { err } => Some(err),
            TextError::Deserialize { .. } => None,
        }
    }

    open spec fn wrap_io(kind: ErrorKind, err: std::io::Error) -> TextError {
        match kind {
            ErrorKind::Write => TextError::Write { err },
            ErrorKind::Read => TextError::Read { err },
            _ => TextError::Flush { err },
        }
    }

    proof fn lemma_wrap_io(kind: ErrorKind, err: std::io::Error) {
    }

    fn to_string(value: &T) -> (r: Result<String, TextError>) {
        Ok(value.to_text())
    }

    fn to_string_pretty(value: &T) -> (r: Result<String, TextError>) {
        Ok(value.to_text())
    }

    fn from_str(raw: &str) -> (r: Result<T, TextError>) {
        match T::from_text(raw) {
            Some(v) => Ok(v),
            None => Err(TextError::Deserialize { raw: raw.to_string() }),
        }
    }

    fn io_error(kind: ErrorKind, err: std::io::Error) -> (e: TextError) {
        match kind {
            ErrorKind::Write => TextError::Write { err },
            ErrorKind::Read => TextError::Read { err },
            _ => TextError::Flush { err },
        }
    }
}

impl Serializable<Serializer<u64>> for u64 {
    fn what() -> &'static str {
        "u64"
    }
}

/// Every value encodes, and its text decodes back to that value and to no
/// other, in plain and in pretty mode alike.
pub proof fn lemma_round_trip<T: TextForm>(v: T, w: T)
    ensures
        <Serializer<T> as serializer::Serializer>::encoding(v) is Some,
        <Serializer<T> as serializer::Serializer>::pretty_encoding(v)
            == <Serializer<T> as serializer::Serializer>::encoding(v),
        <Serializer<T> as serializer::Serializer>::decodes(
            <Serializer<T> as serializer::Serializer>::encoding(v)->0,
            w,
        ) <==> w == v,
        !<Serializer<T> as serializer::Serializer>::rejects(
            <Serializer<T> as serializer::Serializer>::encoding(v)->0,
        ),
{
    T::lemma_parsed_text(v);
}

} // verus!
