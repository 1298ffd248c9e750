//! The text of a line: tokens of the form `key=value`, one space between two of them.

use vstd::prelude::*;
use crate::quoting::quoted_text;
use crate::record::FieldView;
use crate::redaction::DecisionView;
use crate::value::{canonical_text, is_text, plain_body, ValueView};

verus! {

/// The body of the token of a field: what the quoting policy makes of the replacement
/// where there is one; else the value as it is written: a string or a formatted message
/// through the quoting policy, a value of any other kind as its canonical text, bare.
pub open spec fn token_body(value: ValueView, decision: DecisionView, force: bool) -> Seq<char> {
    match decision {
        DecisionView::Replace(text) => quoted_text(text, force),
        _ => plain_body(value, force),
    }
}

/// The token of a field that is written: its key as it is, `=`, and its body.
pub open spec fn field_token(field: FieldView, decision: DecisionView, force: bool) -> Seq<char> {
    field.key + seq!['='] + token_body(field.value, decision, force)
}

/// A number, a boolean, a character, the unit value or an absent value that is written
/// as it is stands bare in its token, whether or not quotes are forced.
pub proof fn lemma_scalar_is_written_bare(field: FieldView, force: bool)
    requires
        !is_text(field.value),
    ensures
        field_token(field, DecisionView::Plain, force) == field.key + seq!['='] + canonical_text(
            field.value,
        ),
{
}

/// The tokens of the fields that are not skipped, in the order of the fields.
pub open spec fn emitted_tokens(
    fields: Seq<FieldView>,
    decisions: Seq<DecisionView>,
    force: bool,
) -> Seq<Seq<char>>
    recommends
        decisions.len() == fields.len(),
    decreases fields.len(),
{
    if fields.len() == 0 {
        Seq::empty()
    } else {
        let before = emitted_tokens(fields.drop_last(), decisions.drop_last(), force);
        if decisions.last() == DecisionView::Skip {
            before
        } else {
            before.push(field_token(fields.last(), decisions.last(), force))
        }
    }
}

/// What stands before a token: nothing before the first token of a line, one space
/// before every other.
pub open spec fn separator(first: bool) -> Seq<char> {
    if first {
        Seq::empty()
    } else {
        seq![' ']
    }
}

/// A line that holds `text`, after `tokens` have been written behind it; `first` tells
/// whether `text` ends before the first token of the line.
pub open spec fn continued(text: Seq<char>, first: bool, tokens: Seq<Seq<char>>) -> Seq<char>
    decreases tokens.len(),
{
    if tokens.len() == 0 {
        text
    } else {
        continued(text, first, tokens.drop_last()) + separator(first && tokens.len() == 1)
            + tokens.last()
    }
}

/// The tokens in their order, with one space between each two neighbours.
pub open spec fn join_tokens(tokens: Seq<Seq<char>>) -> Seq<char> {
    continued(Seq::empty(), true, tokens)
}

/// A whole line: the prefix, the tokens of the fields that are not skipped, and the line
/// feed.
pub open spec fn line_text(
    prefix: Seq<char>,
    fields: Seq<FieldView>,
    decisions: Seq<DecisionView>,
    force: bool,
) -> Seq<char> {
    prefix + join_tokens(emitted_tokens(fields, decisions, force)) + seq!['\n']
}

/// Writing one more token puts it at the end, behind a space unless it is the first
/// token of the line.
pub proof fn lemma_continued_push(
    text: Seq<char>,
    first: bool,
    tokens: Seq<Seq<char>>,
    token: Seq<char>,
)
    ensures
        continued(text, first, tokens.push(token)) == continued(text, first, tokens) + separator(
            first && tokens.len() == 0,
        ) + token,
{
    assert(tokens.push(token).drop_last() =~= tokens);
}

/// Tokens written behind a text, with no token before them, are the text and then the
/// joined tokens.
pub proof fn lemma_continued_is_join(text: Seq<char>, tokens: Seq<Seq<char>>)
    ensures
        continued(text, true, tokens) == text + join_tokens(tokens),
    decreases tokens.len(),
{
    if tokens.len() > 0 {
        lemma_continued_is_join(text, tokens.drop_last());
        let before = join_tokens(tokens.drop_last());
        assert((text + before) + separator(tokens.len() == 1) + tokens.last() =~= text + (before
            + separator(tokens.len() == 1) + tokens.last()));
    }
}

/// The tokens of two runs of fields, one behind the other, are the tokens of the first
/// run and then those of the second.
pub proof fn lemma_emitted_tokens_concat(
    fields: Seq<FieldView>,
    decisions: Seq<DecisionView>,
    more_fields: Seq<FieldView>,
    more_decisions: Seq<DecisionView>,
    force: bool,
)
    requires
        decisions.len() == fields.len(),
        more_decisions.len() == more_fields.len(),
    ensures
        emitted_tokens(fields + more_fields, decisions + more_decisions, force) == emitted_tokens(
            fields,
            decisions,
            force,
        ) + emitted_tokens(more_fields, more_decisions, force),
    decreases more_fields.len(),
{
    if more_fields.len() > 0 {
        lemma_emitted_tokens_concat(
            fields,
            decisions,
            more_fields.drop_last(),
            more_decisions.drop_last(),
            force,
        );
        assert((fields + more_fields).drop_last() =~= fields + more_fields.drop_last());
        assert((decisions + more_decisions).drop_last() =~= decisions
            + more_decisions.drop_last());
    }
}

/// A skipped field leaves no trace: with it taken out of the fields, the tokens are the
/// same, and so is the line, to the last space.
pub proof fn lemma_skipped_field_leaves_no_trace(
    prefix: Seq<char>,
    fields: Seq<FieldView>,
    decisions: Seq<DecisionView>,
    force: bool,
    i: int,
)
    requires
        decisions.len() == fields.len(),
        0 <= i < fields.len(),
        decisions[i] == DecisionView::Skip,
    ensures
        emitted_tokens(fields.remove(i), decisions.remove(i), force) == emitted_tokens(
            fields,
            decisions,
            force,
        ),
        line_text(prefix, fields.remove(i), decisions.remove(i), force) == line_text(
            prefix,
            fields,
            decisions,
            force,
        ),
    decreases fields.len(),
{
    if i < fields.len() - 1 {
        lemma_skipped_field_leaves_no_trace(
            prefix,
            fields.drop_last(),
            decisions.drop_last(),
            force,
            i,
        );
        assert(fields.remove(i).drop_last() =~= fields.drop_last().remove(i));
        assert(decisions.remove(i).drop_last() =~= decisions.drop_last().remove(i));
    }
}

/// The number of decisions that do not skip their field.
pub open spec fn emitted_count(decisions: Seq<DecisionView>) -> nat
    decreases decisions.len(),
{
    if decisions.len() == 0 {
        0
    } else {
        emitted_count(decisions.drop_last()) + if decisions.last() == DecisionView::Skip {
            0nat
        } else {
            1nat
        }
    }
}

/// One token is written for each field that is not skipped, and none for the others.
pub proof fn lemma_emitted_count(
    fields: Seq<FieldView>,
    decisions: Seq<DecisionView>,
    force: bool,
)
    requires
        decisions.len() == fields.len(),
    ensures
        emitted_tokens(fields, decisions, force).len() == emitted_count(decisions),
    decreases fields.len(),
{
    if fields.len() > 0 {
        lemma_emitted_count(fields.drop_last(), decisions.drop_last(), force);
    }
}

/// The number of characters in all the tokens together.
pub open spec fn tokens_len(tokens: Seq<Seq<char>>) -> nat
    decreases tokens.len(),
{
    if tokens.len() == 0 {
        0
    } else {
        tokens_len(tokens.drop_last()) + tokens.last().len()
    }
}

/// Where the token of index `i` starts in the joined text: behind the tokens before it
/// and one space for each of them.
pub open spec fn token_start(tokens: Seq<Seq<char>>, i: int) -> int
    decreases i,
{
    if i <= 0 {
        0
    } else {
        token_start(tokens, i - 1) + tokens[i - 1].len() + 1
    }
}

/// The joined text of `n` tokens holds the tokens in their order, each as it is, and
/// between each two neighbours exactly one space: `n - 1` separators, and nothing else.
pub proof fn lemma_join_layout(tokens: Seq<Seq<char>>)
    ensures
        tokens.len() == 0 ==> join_tokens(tokens).len() == 0,
        tokens.len() > 0 ==> join_tokens(tokens).len() == tokens_len(tokens) + tokens.len() - 1,
        token_start(tokens, tokens.len() as int) == tokens_len(tokens) + tokens.len(),
        forall|i: int|
            0 <= i < tokens.len() ==> {
                &&& 0 <= #[trigger] token_start(tokens, i)
                &&& token_start(tokens, i) + tokens[i].len() <= join_tokens(tokens).len()
                &&& join_tokens(tokens).subrange(
                    token_start(tokens, i),
                    token_start(tokens, i) + tokens[i].len(),
                ) == tokens[i]
                &&& i > 0 ==> join_tokens(tokens)[token_start(tokens, i) - 1] == ' '
            },
    decreases tokens.len(),
{
    if tokens.len() > 0 {
        let before = tokens.drop_last();
        let n = tokens.len() as int;
        lemma_join_layout(before);
        lemma_token_start_drop_last(tokens, n - 1);
        let joined = join_tokens(tokens);
        let joined_before = join_tokens(before);
        assert forall|i: int| 0 <= i < tokens.len() implies {
            &&& 0 <= #[trigger] token_start(tokens, i)
            &&& token_start(tokens, i) + tokens[i].len() <= joined.len()
            &&& joined.subrange(token_start(tokens, i), token_start(tokens, i) + tokens[i].len())
                == tokens[i]
            &&& i > 0 ==> joined[token_start(tokens, i) - 1] == ' '
        } by {
            let start = token_start(tokens, i);
            if i < n - 1 {
                lemma_token_start_drop_last(tokens, i);
                assert(joined.subrange(start, start + tokens[i].len()) =~= joined_before.subrange(
                    start,
                    start + tokens[i].len(),
                ));
                if i > 0 {
                    lemma_token_start_drop_last(tokens, i - 1);
                }
            }
        }
    }
}

/// The separators of a line: where `n` fields are not skipped, however many are, the
/// line is the prefix, the `n` tokens of those fields with `n - 1` single spaces between
/// them, and the line feed. No space stands before the first token or behind the last.
pub proof fn lemma_separator_invariant(
    prefix: Seq<char>,
    fields: Seq<FieldView>,
    decisions: Seq<DecisionView>,
    force: bool,
)
    requires
        decisions.len() == fields.len(),
    ensures
        ({
            let tokens = emitted_tokens(fields, decisions, force);
            let n = emitted_count(decisions);
            let line = line_text(prefix, fields, decisions, force);
            &&& tokens.len() == n
            &&& line.len() == prefix.len() + tokens_len(tokens) + (if n == 0 {
                0
            } else {
                n - 1
            }) + 1
            &&& line.subrange(0, prefix.len() as int) == prefix
            &&& line.last() == '\n'
            &&& forall|i: int|
                0 <= i < n ==> {
                    let start = prefix.len() + #[trigger] token_start(tokens, i);
                    &&& prefix.len() <= start
                    &&& start + tokens[i].len() < line.len()
                    &&& line.subrange(start, start + tokens[i].len()) == tokens[i]
                    &&& i > 0 ==> line[start - 1] == ' '
                }
        }),
{
    let tokens = emitted_tokens(fields, decisions, force);
    let joined = join_tokens(tokens);
    let line = line_text(prefix, fields, decisions, force);
    lemma_emitted_count(fields, decisions, force);
    lemma_join_layout(tokens);
    assert forall|i: int| 0 <= i < tokens.len() implies {
        let start = prefix.len() + #[trigger] token_start(tokens, i);
        &&& prefix.len() <= start
        &&& start + tokens[i].len() < line.len()
        &&& line.subrange(start, start + tokens[i].len()) == tokens[i]
        &&& i > 0 ==> line[start - 1] == ' '
    } by {
        let offset = token_start(tokens, i);
        let start = prefix.len() + offset;
        assert(line.subrange(start, start + tokens[i].len()) =~= joined.subrange(
            offset,
            offset + tokens[i].len(),
        ));
        if i > 0 {
            assert(0 <= token_start(tokens, i - 1));
        }
    }
}

/// The start of a token does not depend on the tokens behind it.
proof fn lemma_token_start_drop_last(tokens: Seq<Seq<char>>, i: int)
    requires
        0 <= i < tokens.len(),
    ensures
        token_start(tokens.drop_last(), i) == token_start(tokens, i),
    decreases i,
{
    if i > 0 {
        lemma_token_start_drop_last(tokens, i - 1);
    }
}

} // verus!
