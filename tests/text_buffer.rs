use csci320_swim::directory::DirectoryState;
use csci320_swim::editing::EditingState;
use csci320_swim::input::is_drawable;
use csci320_swim::layout::{PRACTICAL_FILE_BUFFER_SIZE, WINDOW_HEIGHT, WINDOW_WIDTH};
use csci320_swim::typing::TypingBuffer;

fn editor(contents: &[u8]) -> EditingState {
    EditingState::new(&b"notes".to_vec(), &contents.to_vec(), 0)
}

fn padded(text: &[u8]) -> Vec<u8> {
    let mut v = text.to_vec();
    v.resize(WINDOW_WIDTH, b' ');
    v
}

#[test]
fn wrapped_line_count_without_newlines() {
    let e = editor(b"abcdefghij");
    assert_eq!(e.line_count(3), 4);
}

#[test]
fn newline_line_count_and_lines() {
    let e = editor(b"ab\ncd");
    assert_eq!(e.line_count(10), 2);
    assert_eq!(e.read_line(0), Some(padded(b"ab")));
    assert_eq!(e.read_line(1), Some(padded(b"cd")));
    assert_eq!(e.read_line(2), None);
}

#[test]
fn empty_buffer_has_one_line() {
    let e = editor(b"");
    assert_eq!(e.line_count(3), 1);
    assert_eq!(e.read_line(0), Some(padded(b"")));
    assert_eq!(e.read_line(1), None);
}

#[test]
fn newline_right_at_the_wrap_width_makes_no_empty_line() {
    let e = editor(b"abc\nd");
    assert_eq!(e.line_count(3), 2);
}

#[test]
fn consecutive_newlines_each_end_a_line() {
    let e = editor(b"ab\n\ncd");
    assert_eq!(e.line_count(10), 3);
    assert_eq!(e.read_line(1), Some(padded(b"")));
    assert_eq!(e.read_line(2), Some(padded(b"cd")));
}

#[test]
fn trailing_newline_ends_in_an_empty_line() {
    let e = editor(b"ab\n");
    assert_eq!(e.line_count(10), 2);
}

#[test]
fn zero_byte_ends_the_text() {
    let e = editor(b"ab\0cd\nef");
    assert_eq!(e.line_count(10), 1);
    assert_eq!(e.read_line(0), Some(padded(b"ab")));
}

#[test]
fn long_line_wraps_at_window_width() {
    let text: Vec<u8> = (0..40).map(|i| b'a' + (i % 26) as u8).collect();
    let e = editor(&text);
    assert_eq!(e.read_line(0), Some(text[0..WINDOW_WIDTH].to_vec()));
    assert_eq!(e.read_line(1), Some(padded(&text[WINDOW_WIDTH..])));
}

#[test]
fn editor_opens_at_the_end_and_at_the_bottom() {
    let text = b"1\n2\n3\n4\n5\n6\n7\n8\n9\n10\n11\n12";
    let e = editor(text);
    assert_eq!(e.content(), text.to_vec());
    assert_eq!(e.line_count(WINDOW_WIDTH), 12);
    assert_eq!(e.scroll(), 12 - WINDOW_HEIGHT);
    assert_eq!(e.directory_index(), 0);
    let mut name = b"notes".to_vec();
    name.resize(10, 0);
    assert_eq!(e.filename(), name);
}

#[test]
fn typing_and_backspace_edit_the_end() {
    let mut e = editor(b"ab");
    e.type_char('c');
    e.type_char('\n');
    assert_eq!(e.content(), b"abc\n".to_vec());
    assert_eq!(e.line_count(10), 2);
    e.backspace();
    e.backspace();
    e.backspace();
    assert_eq!(e.content(), b"a".to_vec());
}

#[test]
fn backspace_on_empty_editor_does_nothing() {
    let mut e = editor(b"");
    e.backspace();
    assert_eq!(e.content(), Vec::<u8>::new());
}

#[test]
fn typing_into_a_full_editor_changes_nothing() {
    let full = vec![b'x'; PRACTICAL_FILE_BUFFER_SIZE];
    let mut e = editor(&full);
    e.type_char('y');
    assert_eq!(e.content(), full);
}

#[test]
fn contents_beyond_capacity_are_cut() {
    let long = vec![b'x'; PRACTICAL_FILE_BUFFER_SIZE + 5];
    let e = editor(&long);
    assert_eq!(e.content().len(), PRACTICAL_FILE_BUFFER_SIZE);
}

#[test]
fn typed_character_stores_its_low_byte() {
    let mut e = editor(b"");
    e.type_char('\u{141}');
    assert_eq!(e.content(), vec![0x41]);
}

#[test]
fn scrolling_stays_between_first_and_last_line() {
    let mut e = editor(b"a\nb\nc");
    assert_eq!(e.scroll(), 0);
    e.scroll_by(-1);
    assert_eq!(e.scroll(), 0);
    e.scroll_by(1);
    e.scroll_by(1);
    assert_eq!(e.scroll(), 2);
    e.scroll_by(1);
    assert_eq!(e.scroll(), 2);
    e.scroll_by(-1);
    assert_eq!(e.scroll(), 1);
}

#[test]
fn directory_cursor_moves_only_within_the_listing() {
    let mut d = DirectoryState { cursor: 1 };
    d.move_cursor(3, 6);
    assert_eq!(d.cursor, 4);
    d.move_cursor(3, 6);
    assert_eq!(d.cursor, 4);
    d.move_cursor(-1, 6);
    assert_eq!(d.cursor, 3);
    d.move_cursor(-4, 6);
    assert_eq!(d.cursor, 3);
    d.move_cursor(-3, 6);
    assert_eq!(d.cursor, 0);
    d.move_cursor(isize::MIN, 6);
    assert_eq!(d.cursor, 0);
}

#[test]
fn directory_cursor_with_no_files_stays() {
    let mut d = DirectoryState { cursor: 0 };
    d.move_cursor(1, 0);
    assert_eq!(d.cursor, 0);
}

#[test]
fn filename_buffer_holds_at_most_ten_bytes() {
    let mut t = TypingBuffer::new();
    for c in "abcdefghijkl".chars() {
        t.type_char(c);
    }
    assert_eq!(t.typed_bytes(), b"abcdefghij".to_vec());
    let (len, bytes) = t.get_bytes();
    assert_eq!(len, 10);
    assert_eq!(bytes, b"abcdefghij".to_vec());
    t.backspace();
    assert_eq!(t.typed_bytes(), b"abcdefghi".to_vec());
    t.clear();
    assert_eq!(t.typed_bytes(), Vec::<u8>::new());
    assert_eq!(t.get_bytes(), (0, vec![0u8; 10]));
    t.backspace();
    assert_eq!(t.typed_bytes(), Vec::<u8>::new());
}

#[test]
fn drawable_characters_are_printable_ascii() {
    assert!(is_drawable('a'));
    assert!(is_drawable(' '));
    assert!(is_drawable('~'));
    assert!(!is_drawable('\n'));
    assert!(!is_drawable('\u{8}'));
    assert!(!is_drawable('\u{7f}'));
    assert!(is_drawable('\u{141}'));
}
