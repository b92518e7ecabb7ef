//! The typing session as a mathematical state machine.
//!
//! Everything here is ghost code: the state that contracts speak of, the
//! transition that one key press causes, and the laws that hold of every run.
//! The executable session is `GamePage`, whose view is a `TypingSession`.

use vstd::prelude::*;
use crate::input::{KeyCode, KeyEvent};
use crate::text::{common_len, first_mismatch, lemma_first_mismatch_none};

verus! {

/// Where a session stands.  `Done` is final.
#[derive(Debug, Clone, Copy, PartialEq, Eq, Structural)]
pub enum Lifecycle {
    NotStarted,
    Running,
    Done,
}

/// State of one typing session.  Times are readings of a monotonic clock in
/// nanoseconds.
pub struct TypingSession {
    /// The passage, word by word.  Never changes.
    pub words: Seq<Seq<char>>,
    /// Number of words completed so far; the word being typed has this index.
    pub current_word_index: nat,
    /// What has been typed of the current word.
    pub input_buffer: Seq<char>,
    /// Position of the first wrong character in the buffer, if there is one.
    pub error: Option<nat>,
    pub lifecycle: Lifecycle,
    pub start_time: Option<u64>,
    pub end_time: Option<u64>,
}

/// One key press together with the clock reading at which it is handled.
pub type Keystroke = (KeyEvent, u64);

impl TypingSession {
    /// The session that a page starts with.
    pub open spec fn fresh(words: Seq<Seq<char>>) -> TypingSession {
        TypingSession {
            words,
            current_word_index: 0,
            input_buffer: Seq::empty(),
            error: None,
            lifecycle: Lifecycle::NotStarted,
            start_time: None,
            end_time: None,
        }
    }

    /// There is a word left to type.
    pub open spec fn has_target(self) -> bool {
        self.current_word_index < self.words.len()
    }

    /// The word being typed.
    pub open spec fn target(self) -> Seq<char>
        recommends
            self.has_target(),
    {
        self.words[self.current_word_index as int]
    }

    /// The word being typed is the last one of the passage.
    pub open spec fn on_last_word(self) -> bool {
        self.current_word_index + 1 == self.words.len()
    }

    /// Everything that holds of a session but the agreement of `error` with
    /// the buffer.  This is what holds between an edit of the buffer and its
    /// verification.
    pub open spec fn consistent(self) -> bool {
        &&& self.current_word_index <= self.words.len()
        &&& (self.lifecycle is NotStarted <==> self.start_time is None)
        &&& (self.lifecycle is Done <==> self.end_time is Some)
        &&& self.lifecycle is NotStarted ==> self.current_word_index == 0
            && self.input_buffer.len() == 0
        &&& self.lifecycle is Done ==> self.words.len() > 0 && !self.has_target()
            && self.input_buffer.len() == 0
        &&& self.lifecycle !is Done && self.words.len() > 0 ==> self.has_target()
    }

    /// Validity of a session.
    pub open spec fn wf(self) -> bool {
        &&& self.consistent()
        &&& self.error == if self.has_target() {
            first_mismatch(self.input_buffer, self.target())
        } else {
            None
        }
    }

    /// The session with the current word completed.
    pub open spec fn advanced(self) -> TypingSession {
        TypingSession {
            current_word_index: self.current_word_index + 1,
            input_buffer: Seq::empty(),
            error: None,
            ..self
        }
    }

    /// Verification of the buffer against the current word at time `now`.
    ///
    /// A word other than the last is completed by the word followed by one
    /// space; the last word by the word itself, which also ends the session.
    /// Otherwise the error is recomputed.  With no word left there is nothing
    /// to verify.
    pub open spec fn verified(self, now: u64) -> TypingSession {
        if !self.has_target() {
            self
        } else if !self.on_last_word() && self.input_buffer == self.target().push(' ') {
            self.advanced()
        } else if self.on_last_word() && self.input_buffer == self.target() {
            TypingSession { lifecycle: Lifecycle::Done, end_time: Some(now), ..self.advanced() }
        } else {
            TypingSession { error: first_mismatch(self.input_buffer, self.target()), ..self }
        }
    }

    /// The buffer after `key`, for the keys that edit it: Backspace removes
    /// the last character, Control+W clears, any other character is appended.
    pub open spec fn edited(self, key: KeyEvent) -> Option<Seq<char>> {
        match key.code {
            KeyCode::Backspace => Some(
                if self.input_buffer.len() > 0 {
                    self.input_buffer.drop_last()
                } else {
                    self.input_buffer
                },
            ),
            KeyCode::Char(c) => Some(
                if key.control && c == 'w' {
                    Seq::empty()
                } else {
                    self.input_buffer.push(c)
                },
            ),
            _ => None,
        }
    }

    /// A running session can handle `key`: a key that edits the buffer needs
    /// a word to verify the buffer against.
    pub open spec fn accepts(self, key: KeyEvent) -> bool {
        self.lifecycle is Running && self.edited(key) is Some ==> self.has_target()
    }

    /// The session after one key press handled at time `now`.
    pub open spec fn step(self, key: KeyEvent, now: u64) -> TypingSession {
        match self.lifecycle {
            Lifecycle::NotStarted => if key.code is Enter {
                TypingSession { lifecycle: Lifecycle::Running, start_time: Some(now), ..self }
            } else {
                self
            },
            Lifecycle::Running => match self.edited(key) {
                Some(buffer) => TypingSession { input_buffer: buffer, ..self }.verified(now),
                None => self,
            },
            Lifecycle::Done => self,
        }
    }

    /// The session after a sequence of key presses, handled in order.
    pub open spec fn run(self, keys: Seq<Keystroke>) -> TypingSession
        decreases keys.len(),
    {
        if keys.len() == 0 {
            self
        } else {
            self.run(keys.drop_last()).step(keys.last().0, keys.last().1)
        }
    }
}

/// `keys` types the characters of `text` one by one: each is a character key
/// that appends its character.
pub open spec fn types_text(keys: Seq<Keystroke>, text: Seq<char>) -> bool {
    &&& keys.len() == text.len()
    &&& forall|i: int|
        0 <= i < keys.len() ==> (#[trigger] keys[i]).0.code == KeyCode::Char(text[i]) && !(keys[i].0.control
            && text[i] == 'w')
}

/// One key press keeps a valid session valid and its passage unchanged, and
/// completes at most one word.
pub proof fn lemma_step_keeps_wf(s: TypingSession, key: KeyEvent, now: u64)
    requires
        s.wf(),
    ensures
        s.step(key, now).wf(),
        s.step(key, now).words == s.words,
        s.current_word_index <= s.step(key, now).current_word_index <= s.current_word_index + 1,
        s.step(key, now).current_word_index <= s.words.len(),
{
    let after = s.step(key, now);
    if after.has_target() {
        if after.input_buffer.len() == 0 {
            lemma_first_mismatch_none(after.input_buffer, after.target());
        }
    }
}

/// A run of key presses keeps a valid session valid and its passage unchanged.
pub proof fn lemma_run_keeps_wf(s: TypingSession, keys: Seq<Keystroke>)
    requires
        s.wf(),
    ensures
        s.run(keys).wf(),
        s.run(keys).words == s.words,
    decreases keys.len(),
{
    if keys.len() > 0 {
        lemma_run_keeps_wf(s, keys.drop_last());
        lemma_step_keeps_wf(s.run(keys.drop_last()), keys.last().0, keys.last().1);
    }
}

/// Progress never goes back.  Over any run of key presses, the number of
/// completed words after the first `i` presses is no more than after the
/// first `j >= i`, which exceeds it by no more than the `j - i` presses in
/// between, and is never more than the number of words in the passage.
pub proof fn lemma_progress_is_monotonic(s: TypingSession, keys: Seq<Keystroke>, i: int, j: int)
    requires
        s.wf(),
        0 <= i <= j <= keys.len(),
    ensures
        s.run(keys.take(i)).current_word_index <= s.run(keys.take(j)).current_word_index,
        s.run(keys.take(j)).current_word_index <= s.run(keys.take(i)).current_word_index + (j - i),
        s.run(keys.take(j)).current_word_index <= s.words.len(),
    decreases j - i,
{
    lemma_run_keeps_wf(s, keys.take(j));
    if i < j {
        lemma_progress_is_monotonic(s, keys, i, j - 1);
        assert(keys.take(j).drop_last() =~= keys.take(j - 1));
        lemma_run_keeps_wf(s, keys.take(j - 1));
        lemma_step_keeps_wf(s.run(keys.take(j - 1)), keys[j - 1].0, keys[j - 1].1);
    }
}

/// Typing the first `k` characters of the current word into an empty buffer
/// leaves those characters in the buffer, without an error, as long as that
/// does not complete the word.
proof fn lemma_typing_a_prefix(s: TypingSession, keys: Seq<Keystroke>, text: Seq<char>, k: int)
    requires
        s.wf(),
        s.lifecycle is Running,
        s.has_target(),
        s.input_buffer.len() == 0,
        types_text(keys, text),
        0 <= k <= text.len(),
        k <= s.target().len(),
        text.take(k) == s.target().take(k),
        k < s.target().len() || !s.on_last_word(),
    ensures
        s.run(keys.take(k)) == (TypingSession {
            input_buffer: s.target().take(k),
            error: None,
            ..s
        }),
    decreases k,
{
    let target = s.target();
    if k == 0 {
        assert(s.input_buffer =~= target.take(0));
        lemma_first_mismatch_none(s.input_buffer, target);
    } else {
        assert(text.take(k - 1) =~= text.take(k).take(k - 1));
        assert(target.take(k - 1) =~= target.take(k).take(k - 1));
        lemma_typing_a_prefix(s, keys, text, k - 1);
        assert(keys.take(k).drop_last() =~= keys.take(k - 1));
        let before = s.run(keys.take(k - 1));
        let key = keys[k - 1];
        assert(keys.take(k).last() == key);
        assert(text[k - 1] == text.take(k)[k - 1]);
        assert(target[k - 1] == target.take(k)[k - 1]);
        let buffer = before.input_buffer.push(text[k - 1]);
        assert(buffer =~= target.take(k));
        assert(before.edited(key.0) == Some(buffer));
        assert(buffer.len() != target.push(' ').len());
        lemma_first_mismatch_none(buffer, target);
    }
}

/// Completing a word.  In a running session with an empty buffer, on a word
/// that is not the last, typing the word and then one space completes exactly
/// that word: one more word is done, the buffer is empty again, there is no
/// error, and nothing else has changed.
pub proof fn lemma_word_and_space_advances(s: TypingSession, keys: Seq<Keystroke>)
    requires
        s.wf(),
        s.lifecycle is Running,
        s.has_target(),
        !s.on_last_word(),
        s.input_buffer.len() == 0,
        types_text(keys, s.target().push(' ')),
    ensures
        s.run(keys) == s.advanced(),
        s.run(keys).current_word_index == s.current_word_index + 1,
        s.run(keys).input_buffer.len() == 0,
        s.run(keys).error is None,
{
    let target = s.target();
    let text = target.push(' ');
    let n = target.len() as int;
    assert(text.take(n) =~= target.take(n));
    lemma_typing_a_prefix(s, keys, text, n);
    assert(keys.drop_last() =~= keys.take(n));
    assert(target.take(n) =~= target);
    let before = s.run(keys.take(n));
    assert(before.edited(keys.last().0) == Some(before.input_buffer.push(' ')));
}

/// Finishing.  In a running session with an empty buffer, on the last word,
/// typing that word (which is not empty) ends the session: it is `Done`, the
/// end time is the time of the last key press, every word is completed and
/// the buffer is empty.
pub proof fn lemma_last_word_finishes(s: TypingSession, keys: Seq<Keystroke>)
    requires
        s.wf(),
        s.lifecycle is Running,
        s.has_target(),
        s.on_last_word(),
        s.target().len() > 0,
        s.input_buffer.len() == 0,
        types_text(keys, s.target()),
    ensures
        s.run(keys) == (TypingSession {
            lifecycle: Lifecycle::Done,
            end_time: Some(keys.last().1),
            ..s.advanced()
        }),
        s.run(keys).lifecycle is Done,
        s.run(keys).current_word_index == s.words.len(),
{
    let target = s.target();
    let n = target.len() as int;
    lemma_typing_a_prefix(s, keys, target, n - 1);
    assert(keys.drop_last() =~= keys.take(n - 1));
    let before = s.run(keys.take(n - 1));
    let buffer = before.input_buffer.push(target[n - 1]);
    assert(buffer =~= target);
    assert(before.edited(keys.last().0) == Some(buffer));
}

/// A finished session stays as it is: no key press changes anything of it.
pub proof fn lemma_done_is_final(s: TypingSession, keys: Seq<Keystroke>)
    requires
        s.lifecycle is Done,
    ensures
        s.run(keys) == s,
    decreases keys.len(),
{
    if keys.len() > 0 {
        lemma_done_is_final(s, keys.drop_last());
    }
}

/// Nanoseconds from the start of a session to its end; zero where the clock
/// reading at the end is not later than the one at the start.
pub open spec fn elapsed_nanos(s: TypingSession) -> nat
    recommends
        s.start_time is Some,
        s.end_time is Some,
{
    let start = s.start_time->0;
    let end = s.end_time->0;
    if end >= start {
        (end - start) as nat
    } else {
        0
    }
}

/// Nanoseconds in a minute.
pub const NANOS_PER_MINUTE: u64 = 60_000_000_000;

/// Words per minute for `words` words typed in `nanos` nanoseconds: the
/// quotient of words by minutes, rounded to the nearest whole number (a half
/// rounds up), and no more than `u32::MAX`.  A session that took no time has
/// no rate; it gets `u32::MAX` too.
pub open spec fn words_per_minute(words: nat, nanos: nat) -> nat {
    if nanos == 0 {
        u32::MAX as nat
    } else {
        let rounded = (2 * words * NANOS_PER_MINUTE + nanos) / (2 * nanos) as int;
        if rounded <= u32::MAX {
            rounded as nat
        } else {
            u32::MAX as nat
        }
    }
}

} // verus!
