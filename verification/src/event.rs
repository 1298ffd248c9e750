//! The fields of one line, and the order in which they are written.

use vstd::prelude::*;
use crate::level::short_code;
use crate::line::{emitted_tokens, lemma_emitted_tokens_concat};
use crate::record::{FieldView, RecordView};
use crate::redaction::DecisionView;
use crate::value::ValueView;

verus! {

/// The key of the added field that holds the level.
pub open spec fn level_key() -> Seq<char> {
    seq!['l', 'e', 'v', 'e', 'l']
}

/// The key of the added field that holds the message.
pub open spec fn msg_key() -> Seq<char> {
    seq!['m', 's', 'g']
}

/// The key of the added field that holds the tag.
pub open spec fn tag_key() -> Seq<char> {
    seq!['t', 'a', 'g']
}

/// The added field `level`: the code of the level, as a string.
pub open spec fn level_field(record: RecordView) -> FieldView {
    FieldView { key: level_key(), value: ValueView::Str(short_code(record.level)) }
}

/// The added field `msg`: the message.
pub open spec fn msg_field(record: RecordView) -> FieldView {
    FieldView { key: msg_key(), value: ValueView::Arguments(record.msg) }
}

/// The added field `tag`: the tag, as a string.
pub open spec fn tag_field(record: RecordView) -> FieldView {
    FieldView { key: tag_key(), value: ValueView::Str(record.tag) }
}

/// The field alone where it is switched on, else no field.
pub open spec fn optional_field(on: bool, field: FieldView) -> Seq<FieldView> {
    if on {
        seq![field]
    } else {
        Seq::empty()
    }
}

/// The fields that a formatter adds from the record itself, for those that are switched
/// on: level, message and tag, in this order.
pub open spec fn synthetic_fields(
    print_level: bool,
    print_msg: bool,
    print_tag: bool,
    record: RecordView,
) -> Seq<FieldView> {
    optional_field(print_level, level_field(record)) + optional_field(
        print_msg,
        msg_field(record),
    ) + optional_field(print_tag, tag_field(record))
}

/// All the fields of one line, in the order in which they are written: the added fields,
/// then the fields of the logger, then the fields of the record.
pub open spec fn event_fields(
    print_level: bool,
    print_msg: bool,
    print_tag: bool,
    record: RecordView,
    logger_values: Seq<FieldView>,
) -> Seq<FieldView> {
    synthetic_fields(print_level, print_msg, print_tag, record) + logger_values + record.kv
}

/// The order of the tokens in a line: first those of the added fields, level before
/// message before tag; then those of the fields of the logger; last those of the fields
/// of the record. Each run keeps the order of its fields.
pub proof fn lemma_field_order(
    print_level: bool,
    print_msg: bool,
    print_tag: bool,
    record: RecordView,
    logger_values: Seq<FieldView>,
    decisions: Seq<DecisionView>,
    force: bool,
)
    requires
        decisions.len() == event_fields(
            print_level,
            print_msg,
            print_tag,
            record,
            logger_values,
        ).len(),
    ensures
        ({
            let level = optional_field(print_level, level_field(record));
            let msg = optional_field(print_msg, msg_field(record));
            let tag = optional_field(print_tag, tag_field(record));
            let a = level.len() as int;
            let b = a + msg.len();
            let c = b + tag.len();
            let d = c + logger_values.len();
            emitted_tokens(
                event_fields(print_level, print_msg, print_tag, record, logger_values),
                decisions,
                force,
            ) == emitted_tokens(level, decisions.subrange(0, a), force) + emitted_tokens(
                msg,
                decisions.subrange(a, b),
                force,
            ) + emitted_tokens(tag, decisions.subrange(b, c), force) + emitted_tokens(
                logger_values,
                decisions.subrange(c, d),
                force,
            ) + emitted_tokens(record.kv, decisions.subrange(d, decisions.len() as int), force)
        }),
{
    let level = optional_field(print_level, level_field(record));
    let msg = optional_field(print_msg, msg_field(record));
    let tag = optional_field(print_tag, tag_field(record));
    let a = level.len() as int;
    let b = a + msg.len();
    let c = b + tag.len();
    let d = c + logger_values.len();
    let n = decisions.len() as int;
    lemma_emitted_tokens_concat(
        level,
        decisions.subrange(0, a),
        msg,
        decisions.subrange(a, b),
        force,
    );
    assert(decisions.subrange(0, a) + decisions.subrange(a, b) =~= decisions.subrange(0, b));
    lemma_emitted_tokens_concat(
        level + msg,
        decisions.subrange(0, b),
        tag,
        decisions.subrange(b, c),
        force,
    );
    assert(decisions.subrange(0, b) + decisions.subrange(b, c) =~= decisions.subrange(0, c));
    lemma_emitted_tokens_concat(
        level + msg + tag,
        decisions.subrange(0, c),
        logger_values,
        decisions.subrange(c, d),
        force,
    );
    assert(decisions.subrange(0, c) + decisions.subrange(c, d) =~= decisions.subrange(0, d));
    lemma_emitted_tokens_concat(
        level + msg + tag + logger_values,
        decisions.subrange(0, d),
        record.kv,
        decisions.subrange(d, n),
        force,
    );
    assert(decisions.subrange(0, d) + decisions.subrange(d, n) =~= decisions);
}

} // verus!
