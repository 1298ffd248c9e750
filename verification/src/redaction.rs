//! Redaction: what is decided for a field before it is written.

use vstd::prelude::*;
use crate::value::{Value, ValueView};

verus! {

/// What a redaction function answers for a key.
pub enum Redaction<G> {
    /// Write the value as it is.
    Plain,
    /// Leave the field out.
    Skip,
    /// Write what the given function makes of the value, in place of the value.
    Redact(G),
}

/// What is decided for one field, once a replacement has been produced.
#[derive(Clone, Debug)]
pub enum Decision {
    /// Write the value as it is.
    Plain,
    /// Leave the field out.
    Skip,
    /// Write this text in place of the value.
    Replace(String),
}

/// A decision with its replacement as a sequence of characters.
pub enum DecisionView {
    Plain,
    Skip,
    Replace(Seq<char>),
}

impl View for Decision {
    type V = DecisionView;

    open spec fn view(&self) -> DecisionView {
        match self {
            Decision::Plain => DecisionView::Plain,
            Decision::Skip => DecisionView::Skip,
            Decision::Replace(text) => DecisionView::Replace(text@),
        }
    }
}

/// A policy that decides, field by field, what is written.
pub trait Redactor {
    /// The fields that the policy can be asked about.
    spec fn accepts(&self, key: Seq<char>, value: ValueView) -> bool;

    /// The decisions that the policy may give for a field.
    spec fn yields(&self, key: Seq<char>, value: ValueView, decision: DecisionView) -> bool;

    /// Decides what is written for the field of this key and value.
    fn resolve(&self, key: &str, value: &Value) -> (decision: Decision)
        requires
            self.accepts(key@, value@),
        ensures
            self.yields(key@, value@, decision@),
    ;
}

/// The policy that writes every field as it is.
#[derive(Clone, Copy, Debug)]
pub struct NoRedaction;

impl Redactor for NoRedaction {
    open spec fn accepts(&self, key: Seq<char>, value: ValueView) -> bool {
        true
    }

    open spec fn yields(&self, key: Seq<char>, value: ValueView, decision: DecisionView) -> bool {
        decision == DecisionView::Plain
    }

    fn resolve(&self, key: &str, value: &Value) -> (decision: Decision) {
        Decision::Plain
    }
}

/// The redaction function can be called on the key, and each replacement function that
/// it may answer with can be called on the value.
pub open spec fn function_accepts<F, G>(decide: F, key: Seq<char>, value: ValueView) -> bool where
    F: Fn(&str) -> Redaction<G>,
    G: Fn(&Value) -> String,
{
    &&& forall|k: &str| k@ == key ==> #[trigger] call_requires(decide, (k,))
    &&& forall|k: &str, v: &Value, g: G|
        k@ == key && v@ == value && #[trigger] call_ensures(decide, (k,), Redaction::Redact(g))
            ==> #[trigger] call_requires(g, (v,))
}

/// The decision follows an answer that the redaction function may give for the key: the
/// same for `Plain` and `Skip`, and for `Redact` a text that its function may return for
/// the value.
pub open spec fn function_yields<F, G>(
    decide: F,
    key: Seq<char>,
    value: ValueView,
    decision: DecisionView,
) -> bool where F: Fn(&str) -> Redaction<G>, G: Fn(&Value) -> String {
    exists|k: &str, v: &Value, answer: Redaction<G>|
        #![trigger call_ensures(decide, (k,), answer), v@]
        {
            &&& k@ == key
            &&& v@ == value
            &&& call_ensures(decide, (k,), answer)
            &&& match answer {
                Redaction::Plain => decision == DecisionView::Plain,
                Redaction::Skip => decision == DecisionView::Skip,
                Redaction::Redact(g) => exists|text: String|
                    #[trigger] call_ensures(g, (v,), text) && decision == DecisionView::Replace(
                        text@,
                    ),
            }
        }
}

/// The policy of a redaction function: the function is asked about the key, and where it
/// answers with a replacement function, that one is called on the value of the field.
pub struct KeyRedactor<F> {
    pub decide: F,
}

impl<F, G> Redactor for KeyRedactor<F> where F: Fn(&str) -> Redaction<G>, G: Fn(&Value) -> String {
    open spec fn accepts(&self, key: Seq<char>, value: ValueView) -> bool {
        function_accepts(self.decide, key, value)
    }

    open spec fn yields(&self, key: Seq<char>, value: ValueView, decision: DecisionView) -> bool {
        function_yields(self.decide, key, value, decision)
    }

    fn resolve(&self, key: &str, value: &Value) -> (decision: Decision) {
        let answer = (self.decide)(key);
        match answer {
            Redaction::Plain => Decision::Plain,
            Redaction::Skip => Decision::Skip,
            Redaction::Redact(replace) => Decision::Replace(replace(value)),
        }
    }
}

} // verus!
