//! The prefix of a line: the text that stands before its fields.

use vstd::prelude::*;
use vstd::string::StringExecFns;
use crate::level::{level_short_str, short_code};
use crate::record::{Record, RecordView};

verus! {

/// The default prefix of a record: the code of its level, ` | `, the tag behind `#` and
/// before a tab where the tag is not empty, the message, and a tab.
pub open spec fn default_prefix_text(record: RecordView) -> Seq<char> {
    short_code(record.level) + seq![' ', '|', ' '] + (if record.tag.len() == 0 {
        Seq::empty()
    } else {
        seq!['#'] + record.tag + seq!['\t']
    }) + record.msg + seq!['\t']
}

/// Writes the default prefix of a record. Neither the tag nor the message is quoted.
pub fn default_prefix(record: &Record) -> (text: String)
    ensures
        text@ == default_prefix_text(record@),
{
    proof {
        reveal_strlit(" | ");
        reveal_strlit("#");
        reveal_strlit("\t");
    }
    let mut text = String::from_str(level_short_str(record.level));
    text.append(" | ");
    let tag = record.tag.as_str();
    if !tag.is_empty() {
        text.append("#");
        text.append(tag);
        text.append("\t");
    }
    text.append(record.msg.as_str());
    text.append("\t");
    text
}

/// A source of prefixes.
pub trait Prefix {
    /// The records for which a prefix can be asked.
    spec fn accepts(&self, record: RecordView) -> bool;

    /// The texts that may come as the prefix of a record.
    spec fn yields(&self, record: RecordView, text: Seq<char>) -> bool;

    /// Gives the prefix of a record.
    fn render(&self, record: &Record) -> (text: String)
        requires
            self.accepts(record@),
        ensures
            self.yields(record@, text@),
    ;
}

/// The default prefix: level, tag and message.
#[derive(Clone, Copy, Debug)]
pub struct DefaultPrefix;

impl Prefix for DefaultPrefix {
    open spec fn accepts(&self, record: RecordView) -> bool {
        true
    }

    open spec fn yields(&self, record: RecordView, text: Seq<char>) -> bool {
        text == default_prefix_text(record)
    }

    fn render(&self, record: &Record) -> (text: String) {
        default_prefix(record)
    }
}

/// The empty prefix: a line starts with its first field.
#[derive(Clone, Copy, Debug)]
pub struct NoPrefix;

impl Prefix for NoPrefix {
    open spec fn accepts(&self, record: RecordView) -> bool {
        true
    }

    open spec fn yields(&self, record: RecordView, text: Seq<char>) -> bool {
        text == Seq::<char>::empty()
    }

    fn render(&self, record: &Record) -> (text: String) {
        String::new()
    }
}

/// The function can be called on every record of this view.
pub open spec fn function_accepts<F: Fn(&Record) -> String>(
    function: F,
    record: RecordView,
) -> bool {
    forall|r: &Record| r@ == record ==> #[trigger] call_requires(function, (r,))
}

/// The text is one that the function may return for a record of this view.
pub open spec fn function_yields<F: Fn(&Record) -> String>(
    function: F,
    record: RecordView,
    text: Seq<char>,
) -> bool {
    exists|r: &Record, out: String|
        r@ == record && out@ == text && #[trigger] call_ensures(function, (r,), out)
}

/// The prefix that a function makes of the record.
pub struct FnPrefix<F> {
    pub render: F,
}

impl<F> Prefix for FnPrefix<F> where F: Fn(&Record) -> String {
    open spec fn accepts(&self, record: RecordView) -> bool {
        function_accepts(self.render, record)
    }

    open spec fn yields(&self, record: RecordView, text: Seq<char>) -> bool {
        function_yields(self.render, record, text)
    }

    fn render(&self, record: &Record) -> (text: String) {
        (self.render)(record)
    }
}

} // verus!
