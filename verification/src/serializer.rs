//! The serializer that writes the fields of one line, one token after the other.

use vstd::prelude::*;
use vstd::string::StringExecFns;
use crate::line::{field_token, separator};
use crate::quoting::{as_str, optionally_quote};
use crate::record::FieldView;
use crate::redaction::{Decision, DecisionView, Redactor};
use crate::value::Value;

verus! {

/// The state of one line while its fields are written: the text so far, whether the
/// next token is the first of the line, and the options that govern each token.
pub struct LogfmtSerializer<'a, R> {
    out: String,
    first: bool,
    force_quotes: bool,
    redactor: &'a R,
}

impl<'a, R: Redactor> LogfmtSerializer<'a, R> {
    /// The text of the line so far.
    pub closed spec fn text(&self) -> Seq<char> {
        self.out@
    }

    /// Whether no token has been written yet.
    pub closed spec fn first(&self) -> bool {
        self.first
    }

    /// Whether every value is quoted.
    pub closed spec fn force_quotes(&self) -> bool {
        self.force_quotes
    }

    /// The redaction policy.
    pub closed spec fn redactor(&self) -> &'a R {
        self.redactor
    }

    /// A serializer for a line that starts with `start` and has no token yet.
    pub fn new(start: String, force_quotes: bool, redactor: &'a R) -> (serializer: Self)
        ensures
            serializer.text() == start@,
            serializer.first(),
            serializer.force_quotes() == force_quotes,
            serializer.redactor() == redactor,
    {
        LogfmtSerializer { out: start, first: true, force_quotes, redactor }
    }

    /// Makes room for the next token: a space, unless the token is the first of the line.
    pub fn next_field(&mut self)
        ensures
            final(self).text() == old(self).text() + separator(old(self).first()),
            !final(self).first(),
            final(self).force_quotes() == old(self).force_quotes(),
            final(self).redactor() == old(self).redactor(),
    {
        if self.first {
            self.first = false;
        } else {
            proof {
                reveal_strlit(" ");
            }
            self.out.append(" ");
        }
    }

    /// Whether this state is `before` after one field was written under `decision`:
    /// unchanged where the field is skipped; else longer by the separator and the token of
    /// the field, and past its first token. The options are the same in both.
    pub open spec fn follows(
        &self,
        before: &Self,
        field: FieldView,
        decision: DecisionView,
    ) -> bool {
        &&& self.force_quotes() == before.force_quotes()
        &&& self.redactor() == before.redactor()
        &&& if decision == DecisionView::Skip {
            self.text() == before.text() && self.first() == before.first()
        } else {
            self.text() == before.text() + separator(before.first()) + field_token(
                field,
                decision,
                before.force_quotes(),
            ) && !self.first()
        }
    }

    /// Writes one field, given what was decided for it: nothing where it is skipped, else
    /// its token behind the separator. A replacement, a string and a formatted message
    /// pass the quoting policy; a value of any other kind that is written as it is stands
    /// bare.
    pub fn emit_decided(&mut self, key: &str, value: &Value, decision: &Decision)
        ensures
            final(self).follows(old(self), (FieldView { key: key@, value: value@ }), decision@),
    {
        let body = match decision {
            Decision::Skip => {
                return ;
            },
            Decision::Plain => value.encode(self.force_quotes),
            Decision::Replace(text) => optionally_quote(text.as_str(), self.force_quotes),
        };
        self.next_field();
        let ghost start = self.out@;
        proof {
            reveal_strlit("=");
        }
        self.out.append(key);
        self.out.append("=");
        self.out.append(as_str(&body));
        assert(self.out@ =~= start + (key@ + seq!['='] + body@));
    }

    /// Writes one field: asks the redaction policy about it, and writes what was decided.
    pub fn emit(&mut self, key: &str, value: &Value)
        requires
            old(self).redactor().accepts(key@, value@),
        ensures
            exists|decision: DecisionView|
                {
                    &&& old(self).redactor().yields(key@, value@, decision)
                    &&& #[trigger] final(self).follows(
                        old(self),
                        (FieldView { key: key@, value: value@ }),
                        decision,
                    )
                },
    {
        let decision = self.redactor.resolve(key, value);
        self.emit_decided(key, value, &decision);
    }

    /// Ends the line with a line feed and hands it out.
    pub fn finish(self) -> (line: String)
        ensures
            line@ == self.text() + seq!['\n'],
    {
        proof {
            reveal_strlit("\n");
        }
        let mut line = self.out;
        line.append("\n");
        line
    }
}

} // verus!
