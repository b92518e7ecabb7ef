//! What the typing page shows: the passage cut into styled pieces.
//!
//! The mapping from a session to its pieces is specified here; `GamePage`
//! computes it.  A renderer turns each piece into a span of its own styling.

use vstd::prelude::*;
use crate::session::TypingSession;

verus! {

/// The roles a piece of text can have on the typing page.
#[derive(Debug, Clone, Copy, PartialEq, Eq, Structural)]
pub enum SpanStyle {
    /// No styling: words still to come, and the space after the current word.
    Plain,
    /// A word that has been completed.
    Completed,
    /// The part of the current word that has been typed correctly.
    CorrectChars,
    /// The part of the current word that was typed from the first error on.
    WrongChars,
    /// The next character to type.
    Cursor,
    /// The next character to type while the buffer holds an error.
    BadCursor,
    /// The rest of the current word.
    ActiveWord,
    /// The prompt in front of the input line.
    InputPrefix,
    /// The prompt while the buffer holds an error.
    InputPrefixError,
    /// The input line itself.
    Input,
}

/// A piece of text with its role.
#[derive(Debug, PartialEq, Eq)]
pub struct StyledSpan {
    pub text: String,
    pub style: SpanStyle,
}

/// A `StyledSpan` as contracts speak of it.
pub struct Span {
    pub text: Seq<char>,
    pub style: SpanStyle,
}

impl View for StyledSpan {
    type V = Span;

    open spec fn view(&self) -> Span {
        Span { text: self.text@, style: self.style }
    }
}

/// The views of a sequence of spans.
pub open spec fn span_views(spans: Seq<StyledSpan>) -> Seq<Span> {
    Seq::new(spans.len(), |i: int| spans[i]@)
}

/// The character under the cursor: the first of `left`, or nothing where
/// nothing is left.
pub open spec fn cursor_of(left: Seq<char>) -> Seq<char> {
    if left.len() > 0 {
        left.take(1)
    } else {
        left
    }
}

/// What follows the cursor.
pub open spec fn after_cursor(left: Seq<char>) -> Seq<char> {
    if left.len() > 0 {
        left.skip(1)
    } else {
        left
    }
}

/// The pieces of the word being typed, for a buffer of `typed` characters.
///
/// Without an error: the part reached so far, the cursor, the rest, a space.
/// With an error at `e`: the part before `e`, the part from `e` to where the
/// buffer (or the word) ends, the cursor, the rest, a space.
pub open spec fn current_word_spans(typed: nat, error: Option<nat>, word: Seq<char>) -> Seq<Span>
    recommends
        error matches Some(e) ==> e <= typed && e <= word.len(),
{
    let reached = if typed <= word.len() { typed as int } else { word.len() as int };
    let left = word.skip(reached);
    match error {
        None => seq![
            Span { text: word.take(reached), style: SpanStyle::CorrectChars },
            Span { text: cursor_of(left), style: SpanStyle::Cursor },
            Span { text: after_cursor(left), style: SpanStyle::ActiveWord },
            Span { text: seq![' '], style: SpanStyle::Plain },
        ],
        Some(e) => seq![
            Span { text: word.take(e as int), style: SpanStyle::CorrectChars },
            Span { text: word.subrange(e as int, reached), style: SpanStyle::WrongChars },
            Span { text: cursor_of(left), style: SpanStyle::BadCursor },
            Span { text: after_cursor(left), style: SpanStyle::ActiveWord },
            Span { text: seq![' '], style: SpanStyle::Plain },
        ],
    }
}

/// The texts of `spans`, one after the other.
pub open spec fn spelled(spans: Seq<Span>) -> Seq<char>
    decreases spans.len(),
{
    if spans.len() == 0 {
        Seq::empty()
    } else {
        spelled(spans.drop_last()) + spans.last().text
    }
}

/// Nothing is lost and nothing is shown twice: the pieces of the current
/// word spell the word and the space after it, whatever has been typed.
pub proof fn lemma_current_word_is_spelled(typed: nat, error: Option<nat>, word: Seq<char>)
    requires
        error matches Some(e) ==> e <= typed && e <= word.len(),
    ensures
        spelled(current_word_spans(typed, error, word)) == word.push(' '),
{
    let spans = current_word_spans(typed, error, word);
    let reached = if typed <= word.len() { typed as int } else { word.len() as int };
    let left = word.skip(reached);
    reveal_with_fuel(spelled, 6);
    assert(cursor_of(left) + after_cursor(left) =~= left);
    assert(word.take(reached) + left =~= word);
    match error {
        None => {
            assert(spans.drop_last().drop_last().drop_last().drop_last().len() == 0);
            assert(spelled(spans) =~= word.take(reached) + (cursor_of(left) + after_cursor(left))
                + seq![' ']);
        },
        Some(e) => {
            assert(spans.drop_last().drop_last().drop_last().drop_last().drop_last().len() == 0);
            assert(word.take(e as int) + word.subrange(e as int, reached) =~= word.take(reached));
            assert(spelled(spans) =~= (word.take(e as int) + word.subrange(e as int, reached)) + (
            cursor_of(left) + after_cursor(left)) + seq![' ']);
        },
    }
    assert(spelled(spans) =~= word.push(' '));
}

/// The pieces that word `i` of the passage is shown as: a completed word and
/// a word still to come are one piece each, with the space that follows them.
pub open spec fn word_spans(s: TypingSession, i: int) -> Seq<Span>
    recommends
        0 <= i < s.words.len(),
{
    if i < s.current_word_index {
        seq![Span { text: s.words[i].push(' '), style: SpanStyle::Completed }]
    } else if i == s.current_word_index {
        current_word_spans(s.input_buffer.len(), s.error, s.words[i])
    } else {
        seq![Span { text: s.words[i].push(' '), style: SpanStyle::Plain }]
    }
}

/// The pieces of the first `n` words of the passage, in order.
pub open spec fn passage_spans(s: TypingSession, n: nat) -> Seq<Span>
    recommends
        n <= s.words.len(),
    decreases n,
{
    if n == 0 {
        Seq::empty()
    } else {
        passage_spans(s, (n - 1) as nat) + word_spans(s, n - 1)
    }
}

/// The input line: the prompt, marked when the buffer holds an error, and
/// what has been typed.
pub open spec fn input_line_spans(s: TypingSession) -> Seq<Span> {
    seq![
        Span {
            text: seq!['>', ' '],
            style: if s.error is Some {
                SpanStyle::InputPrefixError
            } else {
                SpanStyle::InputPrefix
            },
        },
        Span { text: s.input_buffer, style: SpanStyle::Input },
    ]
}

} // verus!
