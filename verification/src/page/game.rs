//! The typing page: a passage to type, the session state, and what is shown
//! for it.

use vstd::prelude::*;
use crate::display::{
    SpanStyle, StyledSpan, Span, span_views, current_word_spans, passage_spans, input_line_spans,
    cursor_of, after_cursor,
};
use crate::input::{InputEvent, KeyCode, KeyEvent};
use crate::session::{
    Lifecycle, TypingSession, elapsed_nanos, words_per_minute, NANOS_PER_MINUTE,
};
use crate::text::{
    common_len, find_mismatch, is_word, lemma_first_mismatch_is_first, lemma_first_mismatch_none,
    split_words, string_views, words_of,
};

verus! {

/// The passage that a new page shows when none is given.
pub const DEFAULT_TEXT: &'static str =
    "the quick brown fox jumps over the lazy dog while the patient typist keeps an even pace and lets accuracy come before speed";

/// The passage of a typing page, cut into words.
#[derive(Debug)]
pub struct GameText {
    pub words: Vec<String>,
}

impl View for GameText {
    type V = Seq<Seq<char>>;

    open spec fn view(&self) -> Seq<Seq<char>> {
        string_views(self.words@)
    }
}

/// A typing session.  Times are readings of a monotonic clock in nanoseconds.
#[derive(Debug)]
pub struct GamePage {
    pub text_state: GameText,
    /// What has been typed of the current word.
    pub input_text: String,
    pub has_error: bool,
    /// Position of the first wrong character; meaningful while `has_error`.
    pub error_at_char: usize,
    /// Index of the word being typed.
    pub current_word: usize,
    pub started: bool,
    pub done: bool,
    pub start_time: Option<u64>,
    pub end_time: Option<u64>,
}

impl View for GamePage {
    type V = TypingSession;

    open spec fn view(&self) -> TypingSession {
        TypingSession {
            words: self.text_state@,
            current_word_index: self.current_word as nat,
            input_buffer: self.input_text@,
            error: if self.has_error {
                Some(self.error_at_char as nat)
            } else {
                None
            },
            lifecycle: if self.done {
                Lifecycle::Done
            } else if self.started {
                Lifecycle::Running
            } else {
                Lifecycle::NotStarted
            },
            start_time: self.start_time,
            end_time: self.end_time,
        }
    }
}

/// A piece that shows the characters of `word` from `from` up to `to`.
fn piece(word: &str, from: usize, to: usize, style: SpanStyle) -> (span: StyledSpan)
    requires
        from <= to <= word@.len(),
    ensures
        span@ == (Span { text: word@.subrange(from as int, to as int), style }),
{
    StyledSpan { text: word.substring_char(from, to).to_owned(), style }
}

/// A piece that shows `word` and the space after it.
fn word_and_space(word: &str, style: SpanStyle) -> (span: StyledSpan)
    ensures
        span@ == (Span { text: word@.push(' '), style }),
{
    let mut text = word.to_owned();
    text.push(' ');
    StyledSpan { text, style }
}

/// A piece that shows one space, without styling.
fn space() -> (span: StyledSpan)
    ensures
        span@ == (Span { text: seq![' '], style: SpanStyle::Plain }),
{
    let mut text = String::new();
    text.push(' ');
    assert(text@ =~= seq![' ']);
    StyledSpan { text, style: SpanStyle::Plain }
}

impl GamePage {
    /// Validity of a page: its session is valid.
    pub open spec fn wf(&self) -> bool {
        self@.wf()
    }

    /// A page for `text`: the passage is the words of `text`, split on
    /// whitespace, and the session has not started.
    pub fn new(text: String) -> (page: GamePage)
        ensures
            page.wf(),
            page@ == TypingSession::fresh(words_of(text@)),
            forall|i: int| 0 <= i < page@.words.len() ==> is_word(#[trigger] page@.words[i]),
    {
        let words = split_words(text.as_str());
        GamePage {
            text_state: GameText { words },
            input_text: String::new(),
            has_error: false,
            error_at_char: 0,
            current_word: 0,
            done: false,
            started: false,
            start_time: None,
            end_time: None,
        }
    }

    /// A page for the built-in passage.
    pub fn default() -> (page: GamePage)
        ensures
            page.wf(),
            page@ == TypingSession::fresh(words_of(DEFAULT_TEXT@)),
    {
        GamePage::new(DEFAULT_TEXT.to_owned())
    }

    /// Verifies the buffer against the current word at time `now`: completes
    /// the word, and the session with the last word, or recomputes the error.
    pub fn verify_word(&mut self, now: u64)
        requires
            old(self)@.consistent(),
            old(self)@.lifecycle is Running,
            old(self)@.has_target(),
        ensures
            final(self).wf(),
            final(self)@ == old(self)@.verified(now),
    {
        assert(self@.words.len() == self.text_state.words.len());
        let has_next = self.current_word + 1 != self.text_state.words.len();
        let complete = if has_next {
            let mut expected = self.text_state.words[self.current_word].clone();
            expected.push(' ');
            self.input_text == expected
        } else {
            self.input_text == self.text_state.words[self.current_word]
        };
        if complete {
            self.current_word = self.current_word + 1;
            self.input_text = String::new();
            self.has_error = false;
            if !has_next {
                self.done = true;
                self.end_time = Some(now);
            }
            proof {
                if self@.has_target() {
                    lemma_first_mismatch_none(self@.input_buffer, self@.target());
                }
            }
        } else {
            match find_mismatch(
                self.input_text.as_str(),
                self.text_state.words[self.current_word].as_str(),
            ) {
                Some(index) => {
                    self.has_error = true;
                    self.error_at_char = index;
                },
                None => {
                    self.has_error = false;
                },
            }
        }
    }

    /// Whether the page can handle a press of `key`: while the session
    /// runs, a key that edits the buffer needs a word to verify it against.
    pub fn accepts_key(&self, key: &KeyEvent) -> (accepted: bool)
        ensures
            accepted == self@.accepts(*key),
    {
        assert(self@.words.len() == self.text_state.words.len());
        let edits = match key.code {
            KeyCode::Backspace => true,
            KeyCode::Char(_) => true,
            _ => false,
        };
        !(self.started && !self.done && edits) || self.current_word < self.text_state.words.len()
    }

    /// Handles one key press at time `now`.
    ///
    /// Before the start only Enter does anything: it starts the session.
    /// While the session runs, Backspace, Control+W and character keys edit
    /// the buffer, which is then verified.  After the end nothing changes.
    pub fn handle_key(&mut self, key: &KeyEvent, now: u64)
        requires
            old(self).wf(),
            old(self)@.accepts(*key),
        ensures
            final(self).wf(),
            final(self)@ == old(self)@.step(*key, now),
    {
        if self.done {
            return ;
        }
        if !self.started {
            if let KeyCode::Enter = key.code {
                self.started = true;
                self.start_time = Some(now);
            }
            return ;
        }
        match key.code {
            KeyCode::Backspace => {
                self.input_text.pop();
                self.verify_word(now);
            },
            KeyCode::Char(c) => {
                if key.control && c == 'w' {
                    self.input_text = String::new();
                } else {
                    self.input_text.push(c);
                }
                self.verify_word(now);
            },
            _ => {},
        }
    }

    /// Handles one terminal event at time `now`: a key press goes to
    /// `handle_key`, anything else is ignored.
    pub fn handle_events(&mut self, event: &InputEvent, now: u64)
        requires
            old(self).wf(),
            event.pressed_key() matches Some(key) ==> old(self)@.accepts(key),
        ensures
            final(self).wf(),
            final(self)@ == match event.pressed_key() {
                Some(key) => old(self)@.step(key, now),
                None => old(self)@,
            },
    {
        match event.as_key_press() {
            Some(key) => {
                self.handle_key(&key, now);
            },
            None => {},
        }
    }

    /// The pieces that `word` is shown as while it is the word being typed.
    pub fn format_current_word(&self, word: &str) -> (spans: Vec<StyledSpan>)
        requires
            self.has_error ==> self.error_at_char <= common_len(self.input_text@, word@),
        ensures
            span_views(spans@) == current_word_spans(self.input_text@.len(), self@.error, word@),
    {
        let word_len: usize = word.unicode_len();
        let typed: usize = self.input_text.as_str().unicode_len();
        let reached: usize = if typed <= word_len {
            typed
        } else {
            word_len
        };
        let cursor_end: usize = if reached < word_len {
            reached + 1
        } else {
            reached
        };
        let ghost left = word@.skip(reached as int);
        assert(cursor_of(left) =~= word@.subrange(reached as int, cursor_end as int));
        assert(after_cursor(left) =~= word@.subrange(cursor_end as int, word_len as int));
        let mut spans: Vec<StyledSpan> = Vec::new();
        if !self.has_error {
            spans.push(piece(word, 0, reached, SpanStyle::CorrectChars));
            spans.push(piece(word, reached, cursor_end, SpanStyle::Cursor));
            spans.push(piece(word, cursor_end, word_len, SpanStyle::ActiveWord));
            spans.push(space());
        } else {
            spans.push(piece(word, 0, self.error_at_char, SpanStyle::CorrectChars));
            spans.push(piece(word, self.error_at_char, reached, SpanStyle::WrongChars));
            spans.push(piece(word, reached, cursor_end, SpanStyle::BadCursor));
            spans.push(piece(word, cursor_end, word_len, SpanStyle::ActiveWord));
            spans.push(space());
        }
        assert(span_views(spans@) =~= current_word_spans(
            self.input_text@.len(),
            self@.error,
            word@,
        ));
        spans
    }

    /// The passage as it is shown: completed words, the word being typed cut
    /// into its pieces, and the words still to come.
    pub fn styled_text(&self) -> (spans: Vec<StyledSpan>)
        requires
            self.wf(),
        ensures
            span_views(spans@) == passage_spans(self@, self@.words.len()),
    {
        let mut spans: Vec<StyledSpan> = Vec::new();
        let mut index: usize = 0;
        assert(span_views(spans@) =~= passage_spans(self@, 0));
        while index < self.text_state.words.len()
            invariant
                self.wf(),
                index <= self.text_state.words.len(),
                span_views(spans@) == passage_spans(self@, index as nat),
            decreases self.text_state.words.len() - index,
        {
            let ghost before = spans@;
            let word = self.text_state.words[index].as_str();
            if index < self.current_word {
                spans.push(word_and_space(word, SpanStyle::Completed));
                assert(span_views(spans@) =~= span_views(before) + seq![spans@.last()@]);
            } else if index == self.current_word {
                proof {
                    lemma_first_mismatch_is_first(self@.input_buffer, self@.target());
                }
                let mut current = self.format_current_word(word);
                let ghost pieces = current@;
                spans.append(&mut current);
                assert(span_views(spans@) =~= span_views(before) + span_views(pieces));
            } else {
                spans.push(word_and_space(word, SpanStyle::Plain));
                assert(span_views(spans@) =~= span_views(before) + seq![spans@.last()@]);
            }
            index = index + 1;
        }
        spans
    }

    /// The input line: the prompt and what has been typed of the current word.
    pub fn input_line(&self) -> (spans: Vec<StyledSpan>)
        ensures
            span_views(spans@) == input_line_spans(self@),
    {
        let mut prompt = String::new();
        prompt.push('>');
        prompt.push(' ');
        assert(prompt@ =~= seq!['>', ' ']);
        let style = if self.has_error {
            SpanStyle::InputPrefixError
        } else {
            SpanStyle::InputPrefix
        };
        let mut spans: Vec<StyledSpan> = Vec::new();
        spans.push(StyledSpan { text: prompt, style });
        spans.push(StyledSpan { text: self.input_text.clone(), style: SpanStyle::Input });
        assert(span_views(spans@) =~= input_line_spans(self@));
        spans
    }

    /// Words per minute of a finished session.
    pub fn words_per_minute(&self) -> (wpm: u32)
        requires
            self.wf(),
            self@.lifecycle is Done,
        ensures
            wpm == words_per_minute(self@.words.len(), elapsed_nanos(self@)),
    {
        let start: u64 = match self.start_time {
            Some(t) => t,
            None => 0,
        };
        let end: u64 = match self.end_time {
            Some(t) => t,
            None => 0,
        };
        let nanos: u64 = if end >= start {
            end - start
        } else {
            0
        };
        if nanos == 0 {
            return u32::MAX;
        }
        let words: u128 = self.text_state.words.len() as u128;
        let per_minute: u128 = NANOS_PER_MINUTE as u128;
        assert(2 * words * per_minute <= 2 * 0xFFFF_FFFF_FFFF_FFFF * 60_000_000_000) by (nonlinear_arith)
            requires
                words <= 0xFFFF_FFFF_FFFF_FFFF,
                per_minute == 60_000_000_000,
        ;
        let rounded: u128 = (2 * words * per_minute + nanos as u128) / (2 * nanos as u128);
        if rounded <= u32::MAX as u128 {
            rounded as u32
        } else {
            u32::MAX
        }
    }
}

} // verus!
