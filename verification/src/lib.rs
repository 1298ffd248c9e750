//! A formatter that renders structured log records as single lines of logfmt text.
//!
//! A line is a prefix, then the fields as tokens `key=value`, with one space between each
//! two of them, then a line feed:
//!
//! ```text
//! DEBG | #tag	hi there	logger=tests foo="bar\'baz\""
//! ```
//!
//! A string stands bare where it holds nothing but letters, digits and a few marks, and
//! between double quotes, escaped, where it holds anything else or where quotes are forced.
//! A number, a boolean, a character, the unit value and an absent value are written as
//! they are, never quoted. A redaction policy decides for each field whether it is
//! written as it is, left out, or written with a replacement in place of its value; a
//! replacement is quoted as a string is.
//!
//! [`Logfmt`] makes the line of a [`Record`] and hands it out as text. It writes nowhere:
//! sending the line to a sink is left to the caller.

pub mod decimal;
pub mod event;
pub mod formatter;
pub mod level;
pub mod line;
pub mod prefix;
pub mod quoting;
pub mod record;
pub mod redaction;
pub mod serializer;
pub mod value;

pub use formatter::{Logfmt, LogfmtBuilder, Options};
pub use level::Level;
pub use prefix::{default_prefix, DefaultPrefix, FnPrefix, NoPrefix, Prefix};
pub use quoting::{all_can_skip_quoting, can_skip_quoting, optionally_quote, wrap_in_quotes};
pub use record::{Field, Record};
pub use redaction::{Decision, KeyRedactor, NoRedaction, Redaction, Redactor};
pub use serializer::LogfmtSerializer;
pub use value::Value;
