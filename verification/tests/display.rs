use stamba::display::{SpanStyle, StyledSpan};
use stamba::input::{KeyCode, KeyEvent, KeyEventKind};
use stamba::page::game::GamePage;

fn key(c: char) -> KeyEvent {
    KeyEvent { code: KeyCode::Char(c), control: false, kind: KeyEventKind::Press }
}

fn running(text: &str, typed: &str) -> GamePage {
    let mut page = GamePage::new(text.to_string());
    let enter = KeyEvent { code: KeyCode::Enter, control: false, kind: KeyEventKind::Press };
    page.handle_key(&enter, 0);
    for c in typed.chars() {
        page.handle_key(&key(c), 1);
    }
    page
}

fn span(text: &str, style: SpanStyle) -> StyledSpan {
    StyledSpan { text: text.to_string(), style }
}

#[test]
fn current_word_with_nothing_typed() {
    let page = running("cat", "");
    assert_eq!(
        page.format_current_word("cat"),
        vec![
            span("", SpanStyle::CorrectChars),
            span("c", SpanStyle::Cursor),
            span("at", SpanStyle::ActiveWord),
            span(" ", SpanStyle::Plain),
        ]
    );
}

#[test]
fn current_word_partly_typed() {
    let page = running("cat dog", "ca");
    assert_eq!(
        page.format_current_word("cat"),
        vec![
            span("ca", SpanStyle::CorrectChars),
            span("t", SpanStyle::Cursor),
            span("", SpanStyle::ActiveWord),
            span(" ", SpanStyle::Plain),
        ]
    );
}

#[test]
fn current_word_fully_typed_has_empty_cursor_and_rest() {
    let page = running("cat dog", "cat");
    assert_eq!(
        page.format_current_word("cat"),
        vec![
            span("cat", SpanStyle::CorrectChars),
            span("", SpanStyle::Cursor),
            span("", SpanStyle::ActiveWord),
            span(" ", SpanStyle::Plain),
        ]
    );
}

#[test]
fn current_word_typed_past_its_end() {
    let page = running("cat dog", "catty");
    assert_eq!(
        page.format_current_word("cat"),
        vec![
            span("cat", SpanStyle::CorrectChars),
            span("", SpanStyle::Cursor),
            span("", SpanStyle::ActiveWord),
            span(" ", SpanStyle::Plain),
        ]
    );
}

#[test]
fn current_word_with_an_error() {
    let page = running("kitten", "kxyz");
    assert!(page.has_error);
    assert_eq!(page.error_at_char, 1);
    assert_eq!(
        page.format_current_word("kitten"),
        vec![
            span("k", SpanStyle::CorrectChars),
            span("itt", SpanStyle::WrongChars),
            span("e", SpanStyle::BadCursor),
            span("n", SpanStyle::ActiveWord),
            span(" ", SpanStyle::Plain),
        ]
    );
}

#[test]
fn current_word_with_an_error_at_the_start() {
    let page = running("cat", "x");
    assert_eq!(
        page.format_current_word("cat"),
        vec![
            span("", SpanStyle::CorrectChars),
            span("c", SpanStyle::WrongChars),
            span("a", SpanStyle::BadCursor),
            span("t", SpanStyle::ActiveWord),
            span(" ", SpanStyle::Plain),
        ]
    );
}

#[test]
fn current_word_with_an_error_and_the_word_used_up() {
    let page = running("cat dog", "cxxxx");
    assert_eq!(
        page.format_current_word("cat"),
        vec![
            span("c", SpanStyle::CorrectChars),
            span("at", SpanStyle::WrongChars),
            span("", SpanStyle::BadCursor),
            span("", SpanStyle::ActiveWord),
            span(" ", SpanStyle::Plain),
        ]
    );
}

#[test]
fn current_word_counts_characters() {
    let page = running("\u{e9}t\u{e9}s", "\u{e9}t");
    assert_eq!(
        page.format_current_word("\u{e9}t\u{e9}s"),
        vec![
            span("\u{e9}t", SpanStyle::CorrectChars),
            span("\u{e9}", SpanStyle::Cursor),
            span("s", SpanStyle::ActiveWord),
            span(" ", SpanStyle::Plain),
        ]
    );
}

#[test]
fn passage_before_the_start() {
    let page = GamePage::new("ab cd".to_string());
    assert_eq!(
        page.styled_text(),
        vec![
            span("", SpanStyle::CorrectChars),
            span("a", SpanStyle::Cursor),
            span("b", SpanStyle::ActiveWord),
            span(" ", SpanStyle::Plain),
            span("cd ", SpanStyle::Plain),
        ]
    );
}

#[test]
fn passage_in_the_middle() {
    let page = running("ab cd ef gh", "ab cx");
    assert_eq!(page.current_word, 1);
    assert_eq!(
        page.styled_text(),
        vec![
            span("ab ", SpanStyle::Completed),
            span("c", SpanStyle::CorrectChars),
            span("d", SpanStyle::WrongChars),
            span("", SpanStyle::BadCursor),
            span("", SpanStyle::ActiveWord),
            span(" ", SpanStyle::Plain),
            span("ef ", SpanStyle::Plain),
            span("gh ", SpanStyle::Plain),
        ]
    );
}

#[test]
fn passage_after_the_end_is_all_completed() {
    let page = running("ab cd", "ab cd");
    assert!(page.done);
    assert_eq!(
        page.styled_text(),
        vec![span("ab ", SpanStyle::Completed), span("cd ", SpanStyle::Completed)]
    );
}

#[test]
fn passage_of_no_words_is_empty() {
    let page = GamePage::new("".to_string());
    assert!(page.styled_text().is_empty());
}

#[test]
fn input_line_shows_the_buffer() {
    let page = running("cat", "ca");
    assert_eq!(
        page.input_line(),
        vec![span("> ", SpanStyle::InputPrefix), span("ca", SpanStyle::Input)]
    );
}

#[test]
fn input_line_marks_an_error() {
    let page = running("cat", "cx");
    assert_eq!(
        page.input_line(),
        vec![span("> ", SpanStyle::InputPrefixError), span("cx", SpanStyle::Input)]
    );
}

#[test]
fn pieces_of_the_current_word_spell_the_word_and_a_space() {
    for typed in ["", "k", "ki", "kitten", "kittens", "x", "kx", "kixxxxxxx", "kitte "] {
        let page = running("kitten cat", typed);
        if page.current_word != 0 {
            continue;
        }
        let spelled: String =
            page.format_current_word("kitten").iter().map(|piece| piece.text.as_str()).collect();
        assert_eq!(spelled, "kitten ", "typed {:?}", typed);
    }
}

#[test]
fn pieces_of_the_passage_spell_the_passage() {
    let page = running("ab cd ef", "ab cx");
    let spelled: String = page.styled_text().iter().map(|piece| piece.text.as_str()).collect();
    assert_eq!(spelled, "ab cd ef ");
}
