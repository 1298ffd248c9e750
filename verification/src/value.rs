//! The values that a field can carry, and the canonical text of each.

use std::borrow::Cow;
use vstd::prelude::*;
use crate::decimal::{decimal_text, signed_decimal, unsigned_decimal};
use crate::quoting::{optionally_quote, quoted_text};

verus! {

/// The value of one field: a scalar of one of the kinds below. A string or a formatted
/// message is written as the quoting policy makes it. A value of any other kind is written
/// as its canonical text and never quoted, whether or not quotes are forced.
#[derive(Clone, Debug)]
pub enum Value {
    Bool(bool),
    Char(char),
    U8(u8),
    U16(u16),
    U32(u32),
    U64(u64),
    U128(u128),
    Usize(usize),
    I8(i8),
    I16(i16),
    I32(i32),
    I64(i64),
    I128(i128),
    Isize(isize),
    /// A floating-point number, carried as the decimal text that stands for it.
    Float(String),
    /// A string.
    Str(String),
    /// A value that carries no information.
    Unit,
    /// An absent value.
    Absent,
    /// A formatted message, evaluated in full to its text.
    Arguments(String),
}

/// A value with its texts as sequences of characters.
pub enum ValueView {
    Bool(bool),
    Char(char),
    U8(u8),
    U16(u16),
    U32(u32),
    U64(u64),
    U128(u128),
    Usize(usize),
    I8(i8),
    I16(i16),
    I32(i32),
    I64(i64),
    I128(i128),
    Isize(isize),
    Float(Seq<char>),
    Str(Seq<char>),
    Unit,
    Absent,
    Arguments(Seq<char>),
}

impl View for Value {
    type V = ValueView;

    open spec fn view(&self) -> ValueView {
        match self {
            Value::Bool(b) => ValueView::Bool(*b),
            Value::Char(c) => ValueView::Char(*c),
            Value::U8(n) => ValueView::U8(*n),
            Value::U16(n) => ValueView::U16(*n),
            Value::U32(n) => ValueView::U32(*n),
            Value::U64(n) => ValueView::U64(*n),
            Value::U128(n) => ValueView::U128(*n),
            Value::Usize(n) => ValueView::Usize(*n),
            Value::I8(n) => ValueView::I8(*n),
            Value::I16(n) => ValueView::I16(*n),
            Value::I32(n) => ValueView::I32(*n),
            Value::I64(n) => ValueView::I64(*n),
            Value::I128(n) => ValueView::I128(*n),
            Value::Isize(n) => ValueView::Isize(*n),
            Value::Float(text) => ValueView::Float(text@),
            Value::Str(text) => ValueView::Str(text@),
            Value::Unit => ValueView::Unit,
            Value::Absent => ValueView::Absent,
            Value::Arguments(text) => ValueView::Arguments(text@),
        }
    }
}

/// The canonical text of a value, with no quotes and no escape: `true` or `false`, the
/// character itself, the decimal text of a number, the text of a string or message, `()`
/// for the unit value and `None` for the absent one.
pub open spec fn canonical_text(value: ValueView) -> Seq<char> {
    match value {
        ValueView::Bool(b) => if b {
            seq!['t', 'r', 'u', 'e']
        } else {
            seq!['f', 'a', 'l', 's', 'e']
        },
        ValueView::Char(c) => seq![c],
        ValueView::U8(n) => decimal_text(n as int),
        ValueView::U16(n) => decimal_text(n as int),
        ValueView::U32(n) => decimal_text(n as int),
        ValueView::U64(n) => decimal_text(n as int),
        ValueView::U128(n) => decimal_text(n as int),
        ValueView::Usize(n) => decimal_text(n as int),
        ValueView::I8(n) => decimal_text(n as int),
        ValueView::I16(n) => decimal_text(n as int),
        ValueView::I32(n) => decimal_text(n as int),
        ValueView::I64(n) => decimal_text(n as int),
        ValueView::I128(n) => decimal_text(n as int),
        ValueView::Isize(n) => decimal_text(n as int),
        ValueView::Float(text) => text,
        ValueView::Str(text) => text,
        ValueView::Unit => seq!['(', ')'],
        ValueView::Absent => seq!['N', 'o', 'n', 'e'],
        ValueView::Arguments(text) => text,
    }
}

/// Whether the value is a text: a string or a formatted message. The quoting policy
/// applies to these alone.
pub open spec fn is_text(value: ValueView) -> bool {
    value is Str || value is Arguments
}

/// The body of the token of a value that is written as it is: what the quoting policy
/// makes of a string or a formatted message, and the canonical text of a value of any
/// other kind, bare, whatever `force`.
pub open spec fn plain_body(value: ValueView, force: bool) -> Seq<char> {
    match value {
        ValueView::Str(text) => quoted_text(text, force),
        ValueView::Arguments(text) => quoted_text(text, force),
        _ => canonical_text(value),
    }
}

impl Value {
    /// Renders the value to its canonical text. A text that the value holds is lent, not
    /// copied.
    pub fn render(&self) -> (text: Cow<'_, str>)
        ensures
            text@ == canonical_text(self@),
    {
        proof {
            reveal_strlit("true");
            reveal_strlit("false");
            reveal_strlit("()");
            reveal_strlit("None");
        }
        match self {
            Value::Bool(b) => if *b {
                Cow::Borrowed("true")
            } else {
                Cow::Borrowed("false")
            },
            Value::Char(c) => {
                let mut text = String::new();
                text.push(*c);
                Cow::Owned(text)
            },
            Value::U8(n) => Cow::Owned(unsigned_decimal(*n as u128)),
            Value::U16(n) => Cow::Owned(unsigned_decimal(*n as u128)),
            Value::U32(n) => Cow::Owned(unsigned_decimal(*n as u128)),
            Value::U64(n) => Cow::Owned(unsigned_decimal(*n as u128)),
            Value::U128(n) => Cow::Owned(unsigned_decimal(*n)),
            Value::Usize(n) => Cow::Owned(unsigned_decimal(*n as u128)),
            Value::I8(n) => Cow::Owned(signed_decimal(*n as i128)),
            Value::I16(n) => Cow::Owned(signed_decimal(*n as i128)),
            Value::I32(n) => Cow::Owned(signed_decimal(*n as i128)),
            Value::I64(n) => Cow::Owned(signed_decimal(*n as i128)),
            Value::I128(n) => Cow::Owned(signed_decimal(*n)),
            Value::Isize(n) => Cow::Owned(signed_decimal(*n as i128)),
            Value::Float(text) => Cow::Borrowed(text.as_str()),
            Value::Str(text) => Cow::Borrowed(text.as_str()),
            Value::Unit => Cow::Borrowed("()"),
            Value::Absent => Cow::Borrowed("None"),
            Value::Arguments(text) => Cow::Borrowed(text.as_str()),
        }
    }

    /// Encodes the value as the body of a token: a string or a formatted message passes
    /// the quoting policy; a value of any other kind is rendered and left as it is.
    pub fn encode(&self, force_quotes: bool) -> (body: Cow<'_, str>)
        ensures
            body@ == plain_body(self@, force_quotes),
    {
        match self {
            Value::Str(text) => optionally_quote(text.as_str(), force_quotes),
            Value::Arguments(text) => optionally_quote(text.as_str(), force_quotes),
            _ => self.render(),
        }
    }
}

} // verus!
