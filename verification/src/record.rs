//! Records and their fields.

use vstd::prelude::*;
use vstd::string::StringExecFns;
use crate::level::Level;
use crate::value::{Value, ValueView};

verus! {

/// One key with its value.
#[derive(Clone, Debug)]
pub struct Field {
    pub key: String,
    pub value: Value,
}

/// A field with its key as a sequence of characters and the view of its value.
pub struct FieldView {
    pub key: Seq<char>,
    pub value: ValueView,
}

impl View for Field {
    type V = FieldView;

    open spec fn view(&self) -> FieldView {
        FieldView { key: self.key@, value: self.value@ }
    }
}

/// The views of a sequence of fields, in the same order.
pub open spec fn fields_view(fields: Seq<Field>) -> Seq<FieldView> {
    fields.map_values(|field: Field| field@)
}

impl Field {
    /// A field of the given key and value.
    pub fn new(key: &str, value: Value) -> (field: Field)
        ensures
            field@ == (FieldView { key: key@, value: value@ }),
    {
        Field { key: String::from_str(key), value }
    }
}

/// One log event: its level, its message evaluated to text, its tag, which may be empty,
/// and the fields given where the event was logged, in the order in which they are written.
#[derive(Clone, Debug)]
pub struct Record {
    pub level: Level,
    pub msg: String,
    pub tag: String,
    pub kv: Vec<Field>,
}

/// A record with its texts as sequences of characters and the views of its fields.
pub struct RecordView {
    pub level: Level,
    pub msg: Seq<char>,
    pub tag: Seq<char>,
    pub kv: Seq<FieldView>,
}

impl View for Record {
    type V = RecordView;

    open spec fn view(&self) -> RecordView {
        RecordView {
            level: self.level,
            msg: self.msg@,
            tag: self.tag@,
            kv: fields_view(self.kv@),
        }
    }
}

impl Record {
    /// A record of the given level, message, tag and fields.
    pub fn new(level: Level, msg: &str, tag: &str, kv: Vec<Field>) -> (record: Record)
        ensures
            record@ == (RecordView { level, msg: msg@, tag: tag@, kv: fields_view(kv@) }),
    {
        Record { level, msg: String::from_str(msg), tag: String::from_str(tag), kv }
    }
}

} // verus!
