//! The formatter and its builder.

use vstd::prelude::*;
use vstd::string::StringExecFns;
use crate::event::{event_fields, level_key, msg_key, synthetic_fields, tag_key};
use crate::level::level_short_str;
use crate::line::{
    continued, emitted_tokens, field_token, lemma_continued_is_join, lemma_continued_push,
    line_text,
};
use crate::prefix;
use crate::prefix::{DefaultPrefix, FnPrefix, NoPrefix, Prefix};
use crate::record::{fields_view, Field, FieldView, Record, RecordView};
use crate::redaction;
use crate::redaction::{DecisionView, KeyRedactor, NoRedaction, Redaction, Redactor};
use crate::serializer::LogfmtSerializer;
use crate::value::{Value, ValueView};

verus! {

/// What governs a formatter: the source of its prefixes, the fields that it adds to each
/// line from the record itself, whether it quotes every value, and its redaction policy.
pub struct Options<P, R> {
    pub prefix: P,
    pub print_level: bool,
    pub print_msg: bool,
    pub print_tag: bool,
    pub force_quotes: bool,
    pub redactor: R,
}

impl Default for Options<DefaultPrefix, NoRedaction> {
    /// The default prefix, none of the three added fields, quotes only where needed, and
    /// no redaction.
    fn default() -> (options: Self)
        ensures
            options == (Options {
                prefix: DefaultPrefix,
                print_level: false,
                print_msg: false,
                print_tag: false,
                force_quotes: false,
                redactor: NoRedaction,
            }),
    {
        Options {
            prefix: DefaultPrefix,
            print_level: false,
            print_msg: false,
            print_tag: false,
            force_quotes: false,
            redactor: NoRedaction,
        }
    }
}

/// The policy can be asked about each of the fields.
pub open spec fn accepts_all<R: Redactor>(redactor: &R, fields: Seq<FieldView>) -> bool {
    forall|i: int|
        0 <= i < fields.len() ==> redactor.accepts((#[trigger] fields[i]).key, fields[i].value)
}

/// There is one decision for each field, and each is one that the policy may give for
/// its field.
pub open spec fn decided_by<R: Redactor>(
    redactor: &R,
    fields: Seq<FieldView>,
    decisions: Seq<DecisionView>,
) -> bool {
    &&& decisions.len() == fields.len()
    &&& forall|i: int|
        0 <= i < fields.len() ==> redactor.yields(
            (#[trigger] fields[i]).key,
            fields[i].value,
            decisions[i],
        )
}

/// The serializer has written `tokens`, and nothing else, behind `start`.
spec fn has_written<R: Redactor>(
    serializer: &LogfmtSerializer<R>,
    start: Seq<char>,
    tokens: Seq<Seq<char>>,
) -> bool {
    &&& serializer.text() == continued(start, true, tokens)
    &&& serializer.first() == (tokens.len() == 0)
}

/// Writes the fields in their order, each under the decision of the policy.
fn serialize_fields<R: Redactor>(
    serializer: &mut LogfmtSerializer<R>,
    fields: &[Field],
    Ghost(start): Ghost<Seq<char>>,
    Ghost(done): Ghost<Seq<FieldView>>,
    Ghost(done_decisions): Ghost<Seq<DecisionView>>,
) -> (decisions: Ghost<Seq<DecisionView>>)
    requires
        accepts_all(old(serializer).redactor(), fields_view(fields@)),
        done_decisions.len() == done.len(),
        has_written(
            old(serializer),
            start,
            emitted_tokens(done, done_decisions, old(serializer).force_quotes()),
        ),
    ensures
        decided_by(old(serializer).redactor(), fields_view(fields@), decisions@),
        has_written(
            final(serializer),
            start,
            emitted_tokens(
                done + fields_view(fields@),
                done_decisions + decisions@,
                old(serializer).force_quotes(),
            ),
        ),
        final(serializer).force_quotes() == old(serializer).force_quotes(),
        final(serializer).redactor() == old(serializer).redactor(),
{
    let ghost force = serializer.force_quotes();
    let ghost redactor = serializer.redactor();
    let ghost views = fields_view(fields@);
    let ghost mut decisions: Seq<DecisionView> = Seq::empty();
    let mut i: usize = 0;
    while i < fields.len()
        invariant
            i <= fields.len(),
            views == fields_view(fields@),
            serializer.force_quotes() == force,
            serializer.redactor() == redactor,
            accepts_all(redactor, views),
            done_decisions.len() == done.len(),
            decided_by(redactor, views.take(i as int), decisions),
            has_written(
                serializer,
                start,
                emitted_tokens(done + views.take(i as int), done_decisions + decisions, force),
            ),
        decreases fields.len() - i,
    {
        let field = &fields[i];
        let ghost before = *serializer;
        let ghost view = views[i as int];
        serializer.emit(field.key.as_str(), &field.value);
        proof {
            let decision = choose|decision: DecisionView|
                redactor.yields(view.key, view.value, decision) && #[trigger] serializer.follows(
                    &before,
                    view,
                    decision,
                );
            let fields_before = done + views.take(i as int);
            let decisions_before = done_decisions + decisions;
            let tokens_before = emitted_tokens(fields_before, decisions_before, force);
            let fields_after = done + views.take(i + 1);
            let decisions_after = done_decisions + decisions.push(decision);
            assert(fields_after.drop_last() =~= fields_before);
            assert(decisions_after.drop_last() =~= decisions_before);
            if decision != DecisionView::Skip {
                lemma_continued_push(
                    start,
                    true,
                    tokens_before,
                    field_token(view, decision, force),
                );
            }
            decisions = decisions.push(decision);
        }
        i = i + 1;
    }
    assert(views.take(i as int) =~= views);
    Ghost(decisions)
}

/// A formatter of log records: it turns each record into one line of text.
pub struct Logfmt<P, R> {
    options: Options<P, R>,
}

/// The builder of a formatter.
pub struct LogfmtBuilder<P, R> {
    options: Options<P, R>,
}

impl Logfmt<DefaultPrefix, NoRedaction> {
    /// Starts to build a formatter, with the default options.
    pub fn new() -> (builder: LogfmtBuilder<DefaultPrefix, NoRedaction>)
        ensures
            builder.options() == (Options {
                prefix: DefaultPrefix,
                print_level: false,
                print_msg: false,
                print_tag: false,
                force_quotes: false,
                redactor: NoRedaction,
            }),
    {
        LogfmtBuilder { options: Options::default() }
    }
}

impl<P, R> LogfmtBuilder<P, R> {
    /// The options chosen so far.
    pub closed spec fn options(&self) -> Options<P, R> {
        self.options
    }

    /// Makes the formatter, with the options chosen.
    pub fn build(self) -> (formatter: Logfmt<P, R>)
        ensures
            formatter.options() == self.options(),
    {
        Logfmt { options: self.options }
    }

    /// Takes the prefix of each line from the given function, which need not write it in
    /// the form of fields. The function writes no line feed. The formatter then accepts
    /// the records on which the function can be called, and its prefixes are the texts
    /// that the function may return.
    pub fn set_prefix<F>(self, prefix: F) -> (builder: LogfmtBuilder<FnPrefix<F>, R>) where
        F: Fn(&Record) -> String,

        ensures
            builder.options() == (Options {
                prefix: FnPrefix { render: prefix },
                print_level: self.options().print_level,
                print_msg: self.options().print_msg,
                print_tag: self.options().print_tag,
                force_quotes: self.options().force_quotes,
                redactor: self.options().redactor,
            }),
            forall|record: RecordView| #[trigger]
                builder.options().prefix.accepts(record) == prefix::function_accepts(
                    prefix,
                    record,
                ),
            forall|record: RecordView, text: Seq<char>| #[trigger]
                builder.options().prefix.yields(record, text) == prefix::function_yields(
                    prefix,
                    record,
                    text,
                ),
    {
        LogfmtBuilder {
            options: Options {
                prefix: FnPrefix { render: prefix },
                print_level: self.options.print_level,
                print_msg: self.options.print_msg,
                print_tag: self.options.print_tag,
                force_quotes: self.options.force_quotes,
                redactor: self.options.redactor,
            },
        }
    }

    /// Leaves the prefix out, so that each line starts with its first field.
    pub fn no_prefix(self) -> (builder: LogfmtBuilder<NoPrefix, R>)
        ensures
            builder.options() == (Options {
                prefix: NoPrefix,
                print_level: self.options().print_level,
                print_msg: self.options().print_msg,
                print_tag: self.options().print_tag,
                force_quotes: self.options().force_quotes,
                redactor: self.options().redactor,
            }),
    {
        LogfmtBuilder {
            options: Options {
                prefix: NoPrefix,
                print_level: self.options.print_level,
                print_msg: self.options.print_msg,
                print_tag: self.options.print_tag,
                force_quotes: self.options.force_quotes,
                redactor: self.options.redactor,
            },
        }
    }

    /// Takes the decision on each field from the given function, which is asked about
    /// the key of the field; a replacement function that it answers with is called on
    /// the value of the field. The formatter then accepts the fields on which the two
    /// can be called, and its decisions are those that follow their answers.
    pub fn redact<F, G>(self, redact: F) -> (builder: LogfmtBuilder<P, KeyRedactor<F>>) where
        F: Fn(&str) -> Redaction<G>,
        G: Fn(&Value) -> String,

        ensures
            builder.options() == (Options {
                prefix: self.options().prefix,
                print_level: self.options().print_level,
                print_msg: self.options().print_msg,
                print_tag: self.options().print_tag,
                force_quotes: self.options().force_quotes,
                redactor: KeyRedactor { decide: redact },
            }),
            forall|key: Seq<char>, value: ValueView| #[trigger]
                builder.options().redactor.accepts(key, value) == redaction::function_accepts(
                    redact,
                    key,
                    value,
                ),
            forall|key: Seq<char>, value: ValueView, decision: DecisionView| #[trigger]
                builder.options().redactor.yields(key, value, decision)
                    == redaction::function_yields(redact, key, value, decision),
    {
        LogfmtBuilder {
            options: Options {
                prefix: self.options.prefix,
                print_level: self.options.print_level,
                print_msg: self.options.print_msg,
                print_tag: self.options.print_tag,
                force_quotes: self.options.force_quotes,
                redactor: KeyRedactor { decide: redact },
            },
        }
    }

    /// Chooses whether the message is written as the field `msg`. The default prefix
    /// holds it already, so by default it is not.
    pub fn print_msg(self, print: bool) -> (builder: Self)
        ensures
            builder.options() == (Options { print_msg: print, ..self.options() }),
    {
        let mut builder = self;
        builder.options.print_msg = print;
        builder
    }

    /// Chooses whether the level is written as the field `level`. The default prefix
    /// holds it already, so by default it is not.
    pub fn print_level(self, print: bool) -> (builder: Self)
        ensures
            builder.options() == (Options { print_level: print, ..self.options() }),
    {
        let mut builder = self;
        builder.options.print_level = print;
        builder
    }

    /// Chooses whether the tag is written as the field `tag`. The default prefix holds
    /// it already, so by default it is not.
    pub fn print_tag(self, print: bool) -> (builder: Self)
        ensures
            builder.options() == (Options { print_tag: print, ..self.options() }),
    {
        let mut builder = self;
        builder.options.print_tag = print;
        builder
    }

    /// Quotes every value, also those that hold nothing but unquoted-safe characters,
    /// as in `foo="bar"`.
    pub fn force_quotes(self) -> (builder: Self)
        ensures
            builder.options() == (Options { force_quotes: true, ..self.options() }),
    {
        let mut builder = self;
        builder.options.force_quotes = true;
        builder
    }
}

impl<P, R> Logfmt<P, R> {
    /// The options of the formatter.
    pub closed spec fn options(&self) -> Options<P, R> {
        self.options
    }

    /// All the fields that the formatter writes for a record, in their order.
    pub open spec fn fields_of(&self, record: RecordView, logger_values: Seq<FieldView>) -> Seq<
        FieldView,
    > {
        event_fields(
            self.options().print_level,
            self.options().print_msg,
            self.options().print_tag,
            record,
            logger_values,
        )
    }
}

impl<P: Prefix, R: Redactor> Logfmt<P, R> {
    /// The events that the formatter can be given: its prefix can be asked for the
    /// record, and its redaction policy about each field that it writes.
    pub open spec fn accepts(&self, record: RecordView, logger_values: Seq<FieldView>) -> bool {
        &&& self.options().prefix.accepts(record)
        &&& accepts_all(&self.options().redactor, self.fields_of(record, logger_values))
    }

    /// The lines that may come of an event: for a prefix that the source of prefixes may
    /// give, and for decisions that the redaction policy may give, one for each field,
    /// the line is that prefix, the tokens of the fields that are not skipped, with one
    /// space between neighbours, and a line feed.
    pub open spec fn yields(
        &self,
        record: RecordView,
        logger_values: Seq<FieldView>,
        line: Seq<char>,
    ) -> bool {
        exists|prefix: Seq<char>, decisions: Seq<DecisionView>|
            {
                &&& self.options().prefix.yields(record, prefix)
                &&& decided_by(
                    &self.options().redactor,
                    self.fields_of(record, logger_values),
                    decisions,
                )
                &&& line == #[trigger] line_text(
                    prefix,
                    self.fields_of(record, logger_values),
                    decisions,
                    self.options().force_quotes,
                )
            }
    }
}

impl<P: Prefix, R: Redactor> Logfmt<P, R> {
    /// The fields that the formatter adds from the record itself.
    fn added_fields(&self, record: &Record) -> (fields: Vec<Field>)
        ensures
            fields_view(fields@) == synthetic_fields(
                self.options().print_level,
                self.options().print_msg,
                self.options().print_tag,
                record@,
            ),
    {
        proof {
            reveal_strlit("level");
            reveal_strlit("msg");
            reveal_strlit("tag");
            assert("level"@ =~= level_key());
            assert("msg"@ =~= msg_key());
            assert("tag"@ =~= tag_key());
        }
        let mut fields: Vec<Field> = Vec::new();
        if self.options.print_level {
            let code = String::from_str(level_short_str(record.level));
            fields.push(Field::new("level", Value::Str(code)));
        }
        if self.options.print_msg {
            fields.push(Field::new("msg", Value::Arguments(record.msg.clone())));
        }
        if self.options.print_tag {
            fields.push(Field::new("tag", Value::Str(record.tag.clone())));
        }
        assert(fields_view(fields@) =~= synthetic_fields(
            self.options().print_level,
            self.options().print_msg,
            self.options().print_tag,
            record@,
        ));
        fields
    }

    /// Formats one record, with the fields of its logger, as one line: the prefix, then
    /// the added fields, the fields of the logger and the fields of the record, each
    /// under the decision of the redaction policy, then a line feed.
    pub fn log(&self, record: &Record, logger_values: &[Field]) -> (line: String)
        requires
            self.accepts(record@, fields_view(logger_values@)),
        ensures
            self.yields(record@, fields_view(logger_values@), line@),
    {
        let ghost added_view = synthetic_fields(
            self.options().print_level,
            self.options().print_msg,
            self.options().print_tag,
            record@,
        );
        let ghost logger_view = fields_view(logger_values@);
        let ghost all = self.fields_of(record@, logger_view);
        let ghost force = self.options().force_quotes;
        let prefix = self.options.prefix.render(record);
        let ghost start = prefix@;
        let added = self.added_fields(record);
        let mut serializer = LogfmtSerializer::new(
            prefix,
            self.options.force_quotes,
            &self.options.redactor,
        );
        assert forall|i: int| 0 <= i < added_view.len() implies self.options().redactor.accepts(
            (#[trigger] added_view[i]).key,
            added_view[i].value,
        ) by {
            assert(all[i] == added_view[i]);
        }
        assert forall|i: int| 0 <= i < logger_view.len() implies self.options().redactor.accepts(
            (#[trigger] logger_view[i]).key,
            logger_view[i].value,
        ) by {
            assert(all[added_view.len() + i] == logger_view[i]);
        }
        assert forall|i: int| 0 <= i < record@.kv.len() implies self.options().redactor.accepts(
            (#[trigger] record@.kv[i]).key,
            record@.kv[i].value,
        ) by {
            assert(all[added_view.len() + logger_view.len() + i] == record@.kv[i]);
        }
        let Ghost(first) = serialize_fields(
            &mut serializer,
            added.as_slice(),
            Ghost(start),
            Ghost(Seq::empty()),
            Ghost(Seq::empty()),
        );
        let Ghost(second) = serialize_fields(
            &mut serializer,
            logger_values,
            Ghost(start),
            Ghost(added_view),
            Ghost(first),
        );
        let Ghost(third) = serialize_fields(
            &mut serializer,
            record.kv.as_slice(),
            Ghost(start),
            Ghost(added_view + logger_view),
            Ghost(first + second),
        );
        let ghost decisions = first + second + third;
        let line = serializer.finish();
        proof {
            lemma_continued_is_join(start, emitted_tokens(all, decisions, force));
            assert forall|i: int| 0 <= i < all.len() implies self.options().redactor.yields(
                (#[trigger] all[i]).key,
                all[i].value,
                decisions[i],
            ) by {
                if i < added_view.len() {
                    assert(all[i] == added_view[i] && decisions[i] == first[i]);
                } else if i < added_view.len() + logger_view.len() {
                    let j = i - added_view.len();
                    assert(all[i] == logger_view[j] && decisions[i] == second[j]);
                } else {
                    let j = i - added_view.len() - logger_view.len();
                    assert(all[i] == record@.kv[j] && decisions[i] == third[j]);
                }
            }
            assert(line@ == line_text(start, all, decisions, force));
        }
        line
    }
}

} // verus!
