//! The quoting policy: which text may stand bare as a value, and how the rest is quoted.

use std::borrow::Cow;
use vstd::prelude::*;
use vstd::string::StringExecFns;

verus! {

/// The characters that may stand in an unquoted value: ASCII letters and digits, and
/// `-`, `.`, `_`, `/`, `@`, `^`, `+`.
pub open spec fn is_unquoted_safe(ch: char) -> bool {
    ||| 'a' <= ch <= 'z'
    ||| 'A' <= ch <= 'Z'
    ||| '0' <= ch <= '9'
    ||| ch == '-'
    ||| ch == '.'
    ||| ch == '_'
    ||| ch == '/'
    ||| ch == '@'
    ||| ch == '^'
    ||| ch == '+'
}

/// Every character of `text` is unquoted-safe. The empty text is.
pub open spec fn all_unquoted_safe(text: Seq<char>) -> bool {
    forall|i: int| 0 <= i < text.len() ==> is_unquoted_safe(#[trigger] text[i])
}

/// What `str::escape_debug` yields for `text`, collected into one text.
pub uninterp spec fn escaped_text(text: Seq<char>) -> Seq<char>;

/// `escaped` between two double quotes.
pub open spec fn in_quotes(escaped: Seq<char>) -> Seq<char> {
    seq!['"'] + escaped + seq!['"']
}

/// Whether the policy quotes `text`: always when forced, else when some character of it
/// is outside the unquoted-safe set.
pub open spec fn needs_quotes(text: Seq<char>, force: bool) -> bool {
    force || !all_unquoted_safe(text)
}

/// The value body that the quoting policy makes of `text`.
pub open spec fn quoted_text(text: Seq<char>, force: bool) -> Seq<char> {
    if needs_quotes(text, force) {
        in_quotes(escaped_text(text))
    } else {
        text
    }
}

/// Tells whether `ch` may stand in an unquoted value.
pub fn can_skip_quoting(ch: char) -> (safe: bool)
    ensures
        safe == is_unquoted_safe(ch),
{
    ('a' <= ch && ch <= 'z') || ('A' <= ch && ch <= 'Z') || ('0' <= ch && ch <= '9') || ch == '-'
        || ch == '.' || ch == '_' || ch == '/' || ch == '@' || ch == '^' || ch == '+'
}

/// Tells whether every character of `input` may stand in an unquoted value.
pub fn all_can_skip_quoting(input: &str) -> (safe: bool)
    ensures
        safe == all_unquoted_safe(input@),
{
    let mut safe = true;
    for ch in it: input.chars()
        invariant
            it.seq() == input@,
            safe == (forall|i: int| 0 <= i < it.index() ==> is_unquoted_safe(#[trigger] input@[i])),
    {
        safe = safe && can_skip_quoting(ch);
    }
    safe
}

/// Calls `str::escape_debug` on `input` and collects what it yields. The result is
/// known by name only: it is the text that `escape_debug` makes of these characters.
#[verifier::external_body]
fn escape_debug(input: &str) -> (escaped: String)
    ensures
        escaped@ == escaped_text(input@),
{
    input.escape_debug().collect()
}

/// Puts an escaped text between two double quotes.
pub fn wrap_in_quotes(escaped: &str) -> (quoted: String)
    ensures
        quoted@ == in_quotes(escaped@),
{
    let mut quoted = String::from_str("\"");
    proof {
        reveal_strlit("\"");
    }
    quoted.append(escaped);
    quoted.append("\"");
    quoted
}

/// The text of a string that is lent or owned.
pub(crate) fn as_str<'a>(text: &'a Cow<'a, str>) -> (slice: &'a str)
    ensures
        slice@ == text@,
{
    match text {
        Cow::Borrowed(borrowed) => borrowed,
        Cow::Owned(owned) => owned.as_str(),
    }
}

/// Applies the quoting policy to `input`: the text itself, borrowed, where nothing forces
/// quotes and every character is unquoted-safe; else its debug-style escape in double quotes.
pub fn optionally_quote<'a>(input: &'a str, force: bool) -> (body: Cow<'a, str>)
    ensures
        body@ == quoted_text(input@, force),
        !needs_quotes(input@, force) ==> body@ == input@ && all_unquoted_safe(body@),
        needs_quotes(input@, force) ==> body@.len() >= 2 && body@.first() == '"' && body@.last()
            == '"',
{
    if !force && all_can_skip_quoting(input) {
        Cow::Borrowed(input)
    } else {
        let escaped = escape_debug(input);
        Cow::Owned(wrap_in_quotes(escaped.as_str()))
    }
}

/// A text of unquoted-safe characters alone passes the policy as it is, with no quotes
/// added, unless quotes are forced.
pub proof fn lemma_safe_text_stays_bare(text: Seq<char>)
    requires
        all_unquoted_safe(text),
    ensures
        quoted_text(text, false) == text,
{
}

/// Under forced quotes every text comes out between two double quotes, and what stands
/// between them is its escape.
pub proof fn lemma_forced_quotes_enclose(text: Seq<char>)
    ensures
        quoted_text(text, true).len() == escaped_text(text).len() + 2,
        quoted_text(text, true).first() == '"',
        quoted_text(text, true).last() == '"',
        quoted_text(text, true).subrange(1, quoted_text(text, true).len() - 1) == escaped_text(
            text,
        ),
{
}

/// What the policy makes of a text either stands between two double quotes or is the
/// text itself, made of unquoted-safe characters alone: a text that the policy leaves
/// bare holds no space, no double quote, no `=` and no line feed.
pub proof fn lemma_body_is_quoted_or_safe(text: Seq<char>, force: bool)
    ensures
        needs_quotes(text, force) ==> {
            &&& quoted_text(text, force).len() >= 2
            &&& quoted_text(text, force).first() == '"'
            &&& quoted_text(text, force).last() == '"'
        },
        !needs_quotes(text, force) ==> {
            &&& quoted_text(text, force) == text
            &&& forall|i: int|
                0 <= i < text.len() ==> {
                    &&& is_unquoted_safe(#[trigger] text[i])
                    &&& text[i] != ' '
                    &&& text[i] != '"'
                    &&& text[i] != '='
                    &&& text[i] != '\n'
                }
        },
{
}

} // verus!
