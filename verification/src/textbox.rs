use vstd::prelude::*;
use crate::decimal::{decimal, lemma_parse_decimal, parse_unsigned};

verus! {

/// The standard library's `ParseIntError`, carried along unopened.
#[verifier::external_type_specification]
#[verifier::external_body]
pub struct ExParseIntError(std::num::ParseIntError);

/// Why the text of a text box does not hold a value of its type.
#[derive(Debug)]
pub enum TextParseError {
    /// The text is not an integer of the box's type; the error of the
    /// standard library's parser is kept.
    Integer(std::num::ParseIntError),
}

/// A value that a text box shows as text and reads back from text.
pub trait TextValue: Sized + View {
    /// The value that `text` denotes, if it denotes one.
    spec fn parses_to(text: Seq<char>) -> Option<Self::V>;

    /// The text that shows the value `v`.
    spec fn rendered(v: Self::V) -> Seq<char>;

    /// Reads a value from `text`.
    fn parse_text(text: &str) -> (r: Result<Self, TextParseError>)
        ensures
            match r {
                Ok(v) => Self::parses_to(text@) == Some(v@),
                Err(_) => Self::parses_to(text@) is None,
            },
    ;

    /// Shows the value as text.
    fn render(&self) -> (r: String)
        ensures
            r@ == Self::rendered(self@),
    ;

    /// The text that shows a value reads back as that value.
    proof fn lemma_rendered_parses(v: Self::V)
        ensures
            Self::parses_to(Self::rendered(v)) == Some(v),
    ;
}

/// `str::parse::<u32>` (that is `<u32 as FromStr>::from_str`) accepts exactly
/// an optional `+` followed by one or more ASCII digits of value at most
/// `u32::MAX`, and returns that value; it fails on every other text.
#[verifier::external_body]
fn std_parse_u32(text: &str) -> (r: Result<u32, std::num::ParseIntError>)
    ensures
        match r {
            Ok(v) => parse_unsigned(text@, u32::MAX as int) == Some(v as int),
            Err(_) => parse_unsigned(text@, u32::MAX as int) is None,
        },
{
    text.parse::<u32>()
}

/// `str::parse::<u64>`, as `std_parse_u32` but up to `u64::MAX`.
#[verifier::external_body]
fn std_parse_u64(text: &str) -> (r: Result<u64, std::num::ParseIntError>)
    ensures
        match r {
            Ok(v) => parse_unsigned(text@, u64::MAX as int) == Some(v as int),
            Err(_) => parse_unsigned(text@, u64::MAX as int) is None,
        },
{
    text.parse::<u64>()
}

/// `str::parse::<usize>`, as `std_parse_u32` but up to `usize::MAX`.
#[verifier::external_body]
fn std_parse_usize(text: &str) -> (r: Result<usize, std::num::ParseIntError>)
    ensures
        match r {
            Ok(v) => parse_unsigned(text@, usize::MAX as int) == Some(v as int),
            Err(_) => parse_unsigned(text@, usize::MAX as int) is None,
        },
{
    text.parse::<usize>()
}

/// `ToString::to_string` on a `u32` (its `Display`) writes the value in
/// decimal without leading zeros.
#[verifier::external_body]
fn std_u32_to_string(v: u32) -> (r: String)
    ensures
        r@ == decimal(v as nat),
{
    v.to_string()
}

/// `ToString::to_string` on a `u64`, as `std_u32_to_string`.
#[verifier::external_body]
fn std_u64_to_string(v: u64) -> (r: String)
    ensures
        r@ == decimal(v as nat),
{
    v.to_string()
}

/// `ToString::to_string` on a `usize`, as `std_u32_to_string`.
#[verifier::external_body]
fn std_usize_to_string(v: usize) -> (r: String)
    ensures
        r@ == decimal(v as nat),
{
    v.to_string()
}

/// The value of type `u32` that `text` denotes.
pub open spec fn parses_to_u32(text: Seq<char>) -> Option<u32> {
    match parse_unsigned(text, u32::MAX as int) {
        Some(n) => Some(n as u32),
        None => None,
    }
}

/// The value of type `u64` that `text` denotes.
pub open spec fn parses_to_u64(text: Seq<char>) -> Option<u64> {
    match parse_unsigned(text, u64::MAX as int) {
        Some(n) => Some(n as u64),
        None => None,
    }
}

/// The value of type `usize` that `text` denotes.
pub open spec fn parses_to_usize(text: Seq<char>) -> Option<usize> {
    match parse_unsigned(text, usize::MAX as int) {
        Some(n) => Some(n as usize),
        None => None,
    }
}

impl TextValue for u32 {
    open spec fn parses_to(text: Seq<char>) -> Option<u32> {
        parses_to_u32(text)
    }

    open spec fn rendered(v: u32) -> Seq<char> {
        decimal(v as nat)
    }

    fn parse_text(text: &str) -> (r: Result<u32, TextParseError>) {
        match std_parse_u32(text) {
            Ok(v) => Ok(v),
            Err(e) => Err(TextParseError::Integer(e)),
        }
    }

    fn render(&self) -> (r: String) {
        std_u32_to_string(*self)
    }

    proof fn lemma_rendered_parses(v: u32) {
        lemma_parse_decimal(v as nat, u32::MAX as int);
    }
}

impl TextValue for u64 {
    open spec fn parses_to(text: Seq<char>) -> Option<u64> {
        parses_to_u64(text)
    }

    open spec fn rendered(v: u64) -> Seq<char> {
        decimal(v as nat)
    }

    fn parse_text(text: &str) -> (r: Result<u64, TextParseError>) {
        match std_parse_u64(text) {
            Ok(v) => Ok(v),
            Err(e) => Err(TextParseError::Integer(e)),
        }
    }

    fn render(&self) -> (r: String) {
        std_u64_to_string(*self)
    }

    proof fn lemma_rendered_parses(v: u64) {
        lemma_parse_decimal(v as nat, u64::MAX as int);
    }
}

impl TextValue for usize {
    open spec fn parses_to(text: Seq<char>) -> Option<usize> {
        parses_to_usize(text)
    }

    open spec fn rendered(v: usize) -> Seq<char> {
        decimal(v as nat)
    }

    fn parse_text(text: &str) -> (r: Result<usize, TextParseError>) {
        match std_parse_usize(text) {
            Ok(v) => Ok(v),
            Err(e) => Err(TextParseError::Integer(e)),
        }
    }

    fn render(&self) -> (r: String) {
        std_usize_to_string(*self)
    }

    proof fn lemma_rendered_parses(v: usize) {
        lemma_parse_decimal(v as nat, usize::MAX as int);
    }
}

/// Any text is a string: reading never fails and gives the text itself.
impl TextValue for String {
    open spec fn parses_to(text: Seq<char>) -> Option<Seq<char>> {
        Some(text)
    }

    open spec fn rendered(v: Seq<char>) -> Seq<char> {
        v
    }

    fn parse_text(text: &str) -> (r: Result<String, TextParseError>) {
        Ok(text.to_owned())
    }

    fn render(&self) -> (r: String) {
        self.clone()
    }

    proof fn lemma_rendered_parses(v: Seq<char>) {
    }
}

/// An editable text together with the last value read from it.
#[derive(Clone)]
pub struct TextboxData<T: TextValue> {
    pub text: String,
    pub value: T,
}

impl<T: TextValue> TextboxData<T> {
    /// A box that holds `val` and shows it.
    pub fn new(val: T) -> (r: Self)
        ensures
            r.value == val,
            r.text@ == T::rendered(val@),
    {
        let text = val.render();
        TextboxData { text, value: val }
    }

    /// Reads the value from the text. When the text denotes a value it
    /// becomes the box's value; otherwise the value is kept and the error is
    /// returned.
    pub fn update(&mut self) -> (r: Result<(), TextParseError>)
        ensures
            final(self).text == old(self).text,
            match T::parses_to(old(self).text@) {
                Some(v) => r is Ok && final(self).value@ == v,
                None => r is Err && final(self).value == old(self).value,
            },
    {
        match T::parse_text(self.text.as_str()) {
            Ok(value) => {
                self.value = value;
                Ok(())
            },
            Err(e) => Err(e),
        }
    }

    /// Whether the text denotes a value, leaving the box unchanged.
    pub fn check_val(&self) -> (r: Result<(), TextParseError>)
        ensures
            r is Ok <==> T::parses_to(self.text@) is Some,
    {
        match T::parse_text(self.text.as_str()) {
            Ok(_) => Ok(()),
            Err(e) => Err(e),
        }
    }
}

/// A box whose text shows its value reads that value back: `check_val`
/// succeeds on it and `update` succeeds without changing the value. This
/// holds of every box made by `TextboxData::new`.
pub proof fn lemma_shown_value_reads_back<T: TextValue>(b: TextboxData<T>)
    requires
        b.text@ == T::rendered(b.value@),
    ensures
        T::parses_to(b.text@) == Some(b.value@),
{
    T::lemma_rendered_parses(b.value@);
}

} // verus!
