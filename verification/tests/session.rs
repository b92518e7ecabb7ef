use stamba::input::{InputEvent, KeyCode, KeyEvent, KeyEventKind};
use stamba::page::game::GamePage;

fn press(code: KeyCode) -> KeyEvent {
    KeyEvent { code, control: false, kind: KeyEventKind::Press }
}

fn ctrl(code: KeyCode) -> KeyEvent {
    KeyEvent { code, control: true, kind: KeyEventKind::Press }
}

fn started(text: &str) -> GamePage {
    let mut page = GamePage::new(text.to_string());
    page.handle_key(&press(KeyCode::Enter), 1_000);
    page
}

fn type_text(page: &mut GamePage, text: &str, now: u64) {
    for c in text.chars() {
        page.handle_key(&press(KeyCode::Char(c)), now);
    }
}

#[test]
fn new_page_has_not_started() {
    let page = GamePage::new("the cat".to_string());
    assert_eq!(page.text_state.words, vec!["the".to_string(), "cat".to_string()]);
    assert_eq!(page.current_word, 0);
    assert_eq!(page.input_text, "");
    assert!(!page.has_error);
    assert!(!page.started);
    assert!(!page.done);
    assert_eq!(page.start_time, None);
    assert_eq!(page.end_time, None);
}

#[test]
fn default_page_shows_the_built_in_passage() {
    let page = GamePage::default();
    let expected: Vec<String> = stamba::page::game::DEFAULT_TEXT
        .split_whitespace()
        .map(|w| w.to_string())
        .collect();
    assert!(!expected.is_empty());
    assert_eq!(page.text_state.words, expected);
    assert!(!page.started);
    assert_eq!(page.current_word, 0);
}

#[test]
fn keys_before_the_start_are_ignored() {
    let mut page = GamePage::new("the cat".to_string());
    page.handle_key(&press(KeyCode::Char('t')), 5);
    page.handle_key(&press(KeyCode::Backspace), 6);
    page.handle_key(&ctrl(KeyCode::Char('w')), 7);
    page.handle_key(&press(KeyCode::Esc), 8);
    assert!(!page.started);
    assert_eq!(page.input_text, "");
    assert_eq!(page.current_word, 0);
    assert_eq!(page.start_time, None);
}

#[test]
fn enter_starts_the_session_and_records_the_time() {
    let mut page = GamePage::new("the cat".to_string());
    page.handle_key(&press(KeyCode::Enter), 42);
    assert!(page.started);
    assert!(!page.done);
    assert_eq!(page.start_time, Some(42));
    assert_eq!(page.end_time, None);
    assert_eq!(page.input_text, "");
}

#[test]
fn enter_while_running_changes_nothing() {
    let mut page = started("the cat");
    type_text(&mut page, "th", 2_000);
    page.handle_key(&press(KeyCode::Enter), 3_000);
    assert_eq!(page.input_text, "th");
    assert_eq!(page.start_time, Some(1_000));
    assert_eq!(page.current_word, 0);
}

#[test]
fn word_and_space_advances_then_last_word_finishes() {
    let mut page = started("the cat");
    type_text(&mut page, "the ", 2_000);
    assert_eq!(page.current_word, 1);
    assert_eq!(page.input_text, "");
    assert!(!page.has_error);
    assert!(!page.done);
    type_text(&mut page, "ca", 3_000);
    assert!(!page.done);
    page.handle_key(&press(KeyCode::Char('t')), 4_000);
    assert!(page.done);
    assert_eq!(page.end_time, Some(4_000));
    assert_eq!(page.current_word, 2);
    assert_eq!(page.input_text, "");
    assert!(!page.has_error);
}

#[test]
fn wrong_character_sets_the_error_at_its_index() {
    let mut page = started("cat");
    page.handle_key(&press(KeyCode::Char('c')), 2_000);
    assert!(!page.has_error);
    page.handle_key(&press(KeyCode::Char('o')), 2_000);
    assert!(page.has_error);
    assert_eq!(page.error_at_char, 1);
    assert_eq!(page.input_text, "co");
}

#[test]
fn error_stays_at_the_first_wrong_character() {
    let mut page = started("cat dog");
    type_text(&mut page, "xyz", 2_000);
    assert!(page.has_error);
    assert_eq!(page.error_at_char, 0);
    page.handle_key(&press(KeyCode::Backspace), 2_000);
    assert_eq!(page.input_text, "xy");
    assert!(page.has_error);
    assert_eq!(page.error_at_char, 0);
}

#[test]
fn backspace_removes_the_error_again() {
    let mut page = started("cat");
    type_text(&mut page, "co", 2_000);
    assert!(page.has_error);
    page.handle_key(&press(KeyCode::Backspace), 2_000);
    assert_eq!(page.input_text, "c");
    assert!(!page.has_error);
}

#[test]
fn backspace_on_an_empty_buffer_is_absorbed() {
    let mut page = started("cat");
    page.handle_key(&press(KeyCode::Backspace), 2_000);
    assert_eq!(page.input_text, "");
    assert!(!page.has_error);
    assert_eq!(page.current_word, 0);
    assert!(!page.done);
}

#[test]
fn control_w_clears_the_buffer() {
    let mut page = started("cat dog");
    type_text(&mut page, "cxx", 2_000);
    assert!(page.has_error);
    page.handle_key(&ctrl(KeyCode::Char('w')), 2_000);
    assert_eq!(page.input_text, "");
    assert!(!page.has_error);
    assert_eq!(page.current_word, 0);
}

#[test]
fn control_with_another_character_still_types_it() {
    let mut page = started("cat");
    page.handle_key(&ctrl(KeyCode::Char('c')), 2_000);
    assert_eq!(page.input_text, "c");
    assert!(!page.has_error);
}

#[test]
fn plain_w_is_typed() {
    let mut page = started("wow");
    page.handle_key(&press(KeyCode::Char('w')), 2_000);
    assert_eq!(page.input_text, "w");
}

#[test]
fn typing_past_the_word_is_no_error_by_itself() {
    let mut page = started("cat dog");
    type_text(&mut page, "catt", 2_000);
    assert_eq!(page.input_text, "catt");
    assert!(!page.has_error);
    assert_eq!(page.current_word, 0);
}

#[test]
fn word_without_space_does_not_advance_unless_last() {
    let mut page = started("cat dog");
    type_text(&mut page, "cat", 2_000);
    assert_eq!(page.current_word, 0);
    assert_eq!(page.input_text, "cat");
    assert!(!page.done);
}

#[test]
fn last_word_followed_by_space_does_not_finish() {
    let mut page = started("cat");
    type_text(&mut page, "ca", 2_000);
    page.handle_key(&press(KeyCode::Char(' ')), 2_000);
    assert!(!page.done);
    assert!(page.has_error);
    assert_eq!(page.error_at_char, 2);
}

#[test]
fn nothing_changes_after_the_end() {
    let mut page = started("cat");
    type_text(&mut page, "cat", 9_000);
    assert!(page.done);
    page.handle_key(&press(KeyCode::Char('x')), 10_000);
    page.handle_key(&press(KeyCode::Backspace), 11_000);
    page.handle_key(&press(KeyCode::Enter), 12_000);
    page.handle_key(&ctrl(KeyCode::Char('w')), 13_000);
    assert!(page.done);
    assert!(page.started);
    assert_eq!(page.input_text, "");
    assert_eq!(page.current_word, 1);
    assert_eq!(page.start_time, Some(1_000));
    assert_eq!(page.end_time, Some(9_000));
}

#[test]
fn progress_never_goes_back() {
    let mut page = started("ab cd ef");
    let keys = "ab xx cd\u{8}\u{8} cdd ef ef";
    let mut last = page.current_word;
    for c in keys.chars() {
        let key = if c == '\u{8}' { press(KeyCode::Backspace) } else { press(KeyCode::Char(c)) };
        page.handle_key(&key, 2_000);
        assert!(page.current_word >= last);
        assert!(page.current_word <= last + 1);
        assert!(page.current_word <= page.text_state.words.len());
        last = page.current_word;
    }
}

#[test]
fn only_key_presses_reach_the_session() {
    let mut page = GamePage::new("cat".to_string());
    let release = KeyEvent { code: KeyCode::Enter, control: false, kind: KeyEventKind::Release };
    let repeat = KeyEvent { code: KeyCode::Enter, control: false, kind: KeyEventKind::Repeat };
    page.handle_events(&InputEvent::Key(release), 1);
    page.handle_events(&InputEvent::Key(repeat), 2);
    page.handle_events(&InputEvent::Other, 3);
    assert!(!page.started);
    page.handle_events(&InputEvent::Key(press(KeyCode::Enter)), 4);
    assert!(page.started);
    assert_eq!(page.start_time, Some(4));
}

#[test]
fn verify_word_completes_a_word_that_the_buffer_holds() {
    let mut page = started("cat dog");
    page.input_text = "cat ".to_string();
    page.verify_word(2_000);
    assert_eq!(page.current_word, 1);
    assert_eq!(page.input_text, "");
    assert!(!page.has_error);
    page.input_text = "dig".to_string();
    page.verify_word(3_000);
    assert_eq!(page.current_word, 1);
    assert!(page.has_error);
    assert_eq!(page.error_at_char, 1);
    page.input_text = "dog".to_string();
    page.verify_word(4_000);
    assert!(page.done);
    assert_eq!(page.end_time, Some(4_000));
    assert_eq!(page.current_word, 2);
}

#[test]
fn empty_passage_can_be_started() {
    let mut page = GamePage::new("   ".to_string());
    assert!(page.text_state.words.is_empty());
    page.handle_key(&press(KeyCode::Enter), 1);
    assert!(page.started);
    assert!(!page.done);
    page.handle_key(&press(KeyCode::Up), 2);
    assert_eq!(page.current_word, 0);
}

#[test]
fn words_per_minute_exact_values() {
    let mut page = GamePage::new("a b c d e f".to_string());
    page.handle_key(&press(KeyCode::Enter), 0);
    type_text(&mut page, "a b c d e ", 1);
    // six words in thirty seconds: twelve a minute
    page.handle_key(&press(KeyCode::Char('f')), 30_000_000_000);
    assert!(page.done);
    assert_eq!(page.words_per_minute(), 12);
}

#[test]
fn words_per_minute_rounds_to_nearest() {
    let mut page = started("a b c");
    page.start_time = Some(0);
    type_text(&mut page, "a b ", 1);
    // three words in 70 s: 2.571... a minute
    page.handle_key(&press(KeyCode::Char('c')), 70_000_000_000);
    assert_eq!(page.words_per_minute(), 3);

    let mut page = started("a b c");
    page.start_time = Some(0);
    type_text(&mut page, "a b ", 1);
    // three words in 80 s: 2.25 a minute
    page.handle_key(&press(KeyCode::Char('c')), 80_000_000_000);
    assert_eq!(page.words_per_minute(), 2);

    let mut page = started("a b c");
    page.start_time = Some(0);
    type_text(&mut page, "a b ", 1);
    // three words in 72 s: exactly 2.5 a minute, which rounds up
    page.handle_key(&press(KeyCode::Char('c')), 72_000_000_000);
    assert_eq!(page.words_per_minute(), 3);
}

#[test]
fn words_per_minute_of_an_instant_session_is_the_largest_value() {
    let mut page = GamePage::new("a".to_string());
    page.handle_key(&press(KeyCode::Enter), 500);
    page.handle_key(&press(KeyCode::Char('a')), 500);
    assert!(page.done);
    assert_eq!(page.words_per_minute(), u32::MAX);
}

#[test]
fn words_per_minute_saturates() {
    let mut page = GamePage::new("a".to_string());
    page.handle_key(&press(KeyCode::Enter), 500);
    page.handle_key(&press(KeyCode::Char('a')), 501);
    // one word in a nanosecond: 6e10 a minute, more than fits
    assert_eq!(page.words_per_minute(), u32::MAX);

    let mut page = GamePage::new("a".to_string());
    page.handle_key(&press(KeyCode::Enter), 0);
    page.handle_key(&press(KeyCode::Char('a')), 14);
    // 60e9 / 14 = 4285714285.7, still below the limit
    assert_eq!(page.words_per_minute(), 4_285_714_286);
}

#[test]
fn clock_that_went_back_counts_as_no_time() {
    let mut page = GamePage::new("a".to_string());
    page.handle_key(&press(KeyCode::Enter), 900);
    page.handle_key(&press(KeyCode::Char('a')), 100);
    assert_eq!(page.words_per_minute(), u32::MAX);
}

#[test]
fn accepts_key_tells_when_a_key_needs_a_word() {
    let mut page = GamePage::new(String::new());
    assert!(page.accepts_key(&press(KeyCode::Char('a'))));
    assert!(page.accepts_key(&press(KeyCode::Enter)));
    page.handle_key(&press(KeyCode::Enter), 1);
    assert!(!page.accepts_key(&press(KeyCode::Char('a'))));
    assert!(!page.accepts_key(&press(KeyCode::Backspace)));
    assert!(!page.accepts_key(&ctrl(KeyCode::Char('w'))));
    assert!(page.accepts_key(&press(KeyCode::Enter)));
    assert!(page.accepts_key(&press(KeyCode::Esc)));

    let mut page = started("cat");
    assert!(page.accepts_key(&press(KeyCode::Char('a'))));
    assert!(page.accepts_key(&press(KeyCode::Backspace)));
    type_text(&mut page, "cat", 2);
    assert!(page.done);
    assert!(page.accepts_key(&press(KeyCode::Char('a'))));
}
