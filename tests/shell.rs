use csci320_swim::host::{cpu_loop, tick};
use csci320_swim::input::{KeyCode, KeyEvent};
use csci320_swim::kernel::{Failure, KSelection, Kernel, Request};
use csci320_swim::layout::{KWindows, WINDOW_HEIGHT, WINDOW_WIDTH};
use csci320_swim::mode::KWindowMode;
use csci320_swim::render::{ColorScheme, Plot};

/// A small file store for driving the shell as its host would.
struct Store {
    files: Vec<(Vec<u8>, Vec<u8>)>,
}

impl Store {
    fn names(&self) -> Vec<Vec<u8>> {
        self.files.iter().map(|(n, _)| n.clone()).collect()
    }

    fn write(&mut self, name: &[u8], bytes: &[u8]) {
        match self.files.iter_mut().find(|(n, _)| n == name) {
            Some(f) => f.1 = bytes.to_vec(),
            None => self.files.push((name.to_vec(), bytes.to_vec())),
        }
    }

    fn press(&mut self, kernel: &mut Kernel, key: KeyEvent) {
        match kernel.key(key, self.files.len()) {
            Request::Nothing => {}
            Request::CreateFile(name) => self.write(&name, b""),
            Request::SaveFile(name, bytes) => self.write(&name, &bytes),
            Request::LoadForEditing(w, i) => {
                let (name, bytes) = self.files[i].clone();
                kernel.switch_to_edit_mode(w, &name, &bytes);
            }
            Request::LoadForRunning(w, i) => {
                let bytes = self.files[i].1.clone();
                kernel.switch_to_run_mode(w, bytes);
            }
        }
    }

    fn type_str(&mut self, kernel: &mut Kernel, s: &str) {
        for c in s.chars() {
            self.press(kernel, KeyEvent::Unicode(c));
        }
    }
}

fn raw(code: KeyCode) -> KeyEvent {
    KeyEvent::Raw(code)
}

fn editor_text(kernel: &Kernel, w: KWindows) -> Option<Vec<u8>> {
    match kernel.get_window_mode(w) {
        KWindowMode::Editing(e) => Some(e.content()),
        _ => None,
    }
}

fn directory_cursor(kernel: &Kernel, w: KWindows) -> Option<usize> {
    match kernel.get_window_mode(w) {
        KWindowMode::Directory(d) => Some(d.cursor),
        _ => None,
    }
}

#[test]
fn created_file_keeps_what_was_typed_into_it() {
    let mut store = Store { files: vec![] };
    let mut kernel = Kernel::new();
    store.press(&mut kernel, raw(KeyCode::F5));
    store.type_str(&mut kernel, "notes\n");
    assert_eq!(store.names(), vec![b"notes".to_vec()]);
    assert_eq!(kernel.filebar().typed_bytes(), Vec::<u8>::new());
    store.press(&mut kernel, raw(KeyCode::F1));
    store.type_str(&mut kernel, "e");
    assert_eq!(editor_text(&kernel, KWindows::F1), Some(vec![]));
    store.type_str(&mut kernel, "hi");
    store.press(&mut kernel, raw(KeyCode::F6));
    assert_eq!(directory_cursor(&kernel, KWindows::F1), Some(0));
    assert_eq!(store.files[0].1, b"hi".to_vec());
    store.type_str(&mut kernel, "e");
    assert_eq!(editor_text(&kernel, KWindows::F1), Some(b"hi".to_vec()));
}

#[test]
fn editing_returns_to_the_directory_entry_it_came_from() {
    let mut store = Store { files: vec![] };
    for name in ["a", "b", "c", "d", "e"] {
        store.write(name.as_bytes(), b"x");
    }
    let mut kernel = Kernel::new();
    store.press(&mut kernel, raw(KeyCode::F2));
    store.press(&mut kernel, raw(KeyCode::ArrowDown));
    store.press(&mut kernel, raw(KeyCode::ArrowRight));
    assert_eq!(directory_cursor(&kernel, KWindows::F2), Some(4));
    store.type_str(&mut kernel, "e");
    match kernel.get_window_mode(KWindows::F2) {
        KWindowMode::Editing(e) => assert_eq!(e.directory_index(), 4),
        _ => panic!("window F2 should be editing"),
    }
    store.type_str(&mut kernel, "more\u{8}");
    store.press(&mut kernel, raw(KeyCode::F6));
    assert_eq!(directory_cursor(&kernel, KWindows::F2), Some(4));
    assert_eq!(store.files[4].1, b"xmor".to_vec());
}

#[test]
fn focus_is_always_on_one_thing() {
    let mut store = Store { files: vec![] };
    let mut kernel = Kernel::new();
    assert_eq!(kernel.selected(), KSelection::Window(KWindows::F1));
    store.press(&mut kernel, raw(KeyCode::F5));
    assert_eq!(kernel.selected(), KSelection::Filebar);
    store.press(&mut kernel, raw(KeyCode::F3));
    assert_eq!(kernel.selected(), KSelection::Window(KWindows::F3));
    store.press(&mut kernel, raw(KeyCode::F6));
    store.press(&mut kernel, raw(KeyCode::Other));
    assert_eq!(kernel.selected(), KSelection::Window(KWindows::F3));
    store.press(&mut kernel, raw(KeyCode::F4));
    store.press(&mut kernel, raw(KeyCode::F5));
    assert_eq!(kernel.selected(), KSelection::Filebar);
}

#[test]
fn scroll_keys_stay_within_the_text() {
    let mut store = Store { files: vec![] };
    store.write(b"long", b"1\n2\n3\n4\n5\n6\n7\n8\n9\n10\n11\n12");
    let mut kernel = Kernel::new();
    store.type_str(&mut kernel, "e");
    let scroll = |k: &Kernel| match k.get_window_mode(KWindows::F1) {
        KWindowMode::Editing(e) => e.scroll(),
        _ => panic!("window F1 should be editing"),
    };
    assert_eq!(scroll(&kernel), 12 - WINDOW_HEIGHT);
    for _ in 0..20 {
        store.press(&mut kernel, raw(KeyCode::F8));
    }
    assert_eq!(scroll(&kernel), 11);
    for _ in 0..20 {
        store.press(&mut kernel, raw(KeyCode::F7));
    }
    assert_eq!(scroll(&kernel), 0);
}

#[test]
fn edit_key_without_a_file_asks_for_nothing() {
    let mut kernel = Kernel::new();
    assert!(matches!(kernel.key(KeyEvent::Unicode('e'), 0), Request::Nothing));
    assert!(matches!(kernel.key(KeyEvent::Unicode('r'), 0), Request::Nothing));
    assert!(matches!(kernel.key(KeyEvent::Unicode('e'), 1), Request::LoadForEditing(KWindows::F1, 0)));
}

#[test]
fn run_key_hands_the_program_to_the_window() {
    let mut store = Store { files: vec![] };
    store.write(b"hello", b"print(1)");
    let mut kernel = Kernel::new();
    store.type_str(&mut kernel, "r");
    match kernel.get_window_mode(KWindows::F1) {
        KWindowMode::Running(r) => assert_eq!(r.program(), &b"print(1)".to_vec()),
        _ => panic!("window F1 should be running"),
    }
    store.type_str(&mut kernel, "e");
    assert!(matches!(kernel.get_window_mode(KWindows::F1), KWindowMode::Running(_)));
}

#[test]
fn filebar_ignores_undrawable_characters_and_overflow() {
    let mut store = Store { files: vec![] };
    let mut kernel = Kernel::new();
    store.press(&mut kernel, raw(KeyCode::F5));
    store.type_str(&mut kernel, "ab\u{7}cdefghijklm\u{8}");
    assert_eq!(kernel.filebar().typed_bytes(), b"abcdefghi".to_vec());
}

#[test]
fn screen_marks_the_focused_window_and_the_cursor() {
    let mut store = Store { files: vec![] };
    for name in ["one", "two", "three", "four"] {
        store.write(name.as_bytes(), b"");
    }
    let mut kernel = Kernel::new();
    store.press(&mut kernel, raw(KeyCode::ArrowRight));
    let plots = kernel.draw(&store.names());
    // The prompt comes first.
    let prompt: Vec<u8> = plots[0..15].iter().map(|p| p.byte).collect();
    assert_eq!(prompt, b"F5 - Filename: ".to_vec());
    // The last plot on a border cell of F1 is a star; F2's top-left is a dot.
    let last_at = |col: usize, row: usize| plots.iter().rev().find(|p| p.col == col && p.row == row).copied();
    assert_eq!(last_at(0, 1).map(|p| p.byte), Some(b'*'));
    assert_eq!(last_at(WINDOW_WIDTH + 1 + 34, 1).map(|p| p.byte), Some(b'.'));
    // The second file sits highlighted at column offset 11 of the first row.
    assert_eq!(
        last_at(11, 2),
        Some(Plot { byte: b't', col: 11, row: 2, color: ColorScheme::Highlight })
    );
    assert_eq!(last_at(1, 2).map(|p| p.color), Some(ColorScheme::Text));
    // The fourth file starts the second row.
    assert_eq!(last_at(1, 3).map(|p| p.byte), Some(b'f'));
    // Labels.
    assert_eq!(last_at(30, 1).map(|p| p.byte), Some(b'F'));
    assert_eq!(last_at(31, 1).map(|p| p.byte), Some(b'1'));
    assert_eq!(last_at(34 + 31, 12).map(|p| p.byte), Some(b'4'));
}

#[test]
fn screen_shows_the_editor_text_and_header() {
    let mut store = Store { files: vec![] };
    store.write(b"notes", b"hi\nthere");
    let mut kernel = Kernel::new();
    store.type_str(&mut kernel, "e");
    let plots = kernel.draw(&store.names());
    let last_at = |col: usize, row: usize| plots.iter().rev().find(|p| p.col == col && p.row == row).map(|p| p.byte);
    let header: Vec<u8> = (2..6).map(|c| last_at(c, 1).unwrap()).collect();
    assert_eq!(header, b"(F6)".to_vec());
    let name: Vec<u8> = (6..11).map(|c| last_at(c, 1).unwrap()).collect();
    assert_eq!(name, b"notes".to_vec());
    let line0: Vec<u8> = (1..4).map(|c| last_at(c, 2).unwrap()).collect();
    assert_eq!(line0, b"hi ".to_vec());
    let line1: Vec<u8> = (1..6).map(|c| last_at(c, 3).unwrap()).collect();
    assert_eq!(line1, b"there".to_vec());
    assert_eq!(last_at(1, 4), Some(b' '));
}

#[test]
fn filebar_is_drawn_after_the_prompt() {
    let mut store = Store { files: vec![] };
    let mut kernel = Kernel::new();
    store.press(&mut kernel, raw(KeyCode::F5));
    store.type_str(&mut kernel, "ab");
    let plots = kernel.draw(&store.names());
    assert_eq!(plots[15], Plot { byte: b'a', col: 15, row: 0, color: ColorScheme::Text });
    assert_eq!(plots[16].byte, b'b');
    assert_eq!(plots[17].byte, b' ');
    assert_eq!(plots[24], Plot { byte: b' ', col: 24, row: 0, color: ColorScheme::Text });
}

#[test]
fn main_loop_pass_hands_on_key_and_tick() {
    let mut kernel = Kernel::new();
    let mut last_tick = 3;
    let r = cpu_loop(&mut kernel, &mut last_tick, Some(KeyEvent::Raw(KeyCode::F5)), 2, 0);
    assert!(matches!(r, Request::Nothing));
    assert_eq!(last_tick, 3);
    assert_eq!(kernel.selected(), KSelection::Filebar);
    let r = cpu_loop(&mut kernel, &mut last_tick, None, 7, 0);
    assert!(matches!(r, Request::Nothing));
    assert_eq!(last_tick, 7);
    cpu_loop(&mut kernel, &mut last_tick, Some(KeyEvent::Unicode('x')), 7, 0);
    let r = cpu_loop(&mut kernel, &mut last_tick, Some(KeyEvent::Unicode('\n')), 7, 0);
    match r {
        Request::CreateFile(name) => assert_eq!(name, b"x".to_vec()),
        _ => panic!("enter in the filename bar should ask to create the file"),
    }
}

#[test]
fn tick_counts_and_wraps() {
    assert_eq!(tick(0), 1);
    assert_eq!(tick(41), 42);
    assert_eq!(tick(usize::MAX), 0);
}

#[test]
fn window_geometry() {
    assert_eq!((KWindows::F1.col(), KWindows::F1.row()), (0, 1));
    assert_eq!((KWindows::F2.col(), KWindows::F2.row()), (34, 1));
    assert_eq!((KWindows::F3.col(), KWindows::F3.row()), (0, 12));
    assert_eq!((KWindows::F4.col(), KWindows::F4.row()), (34, 12));
    assert_eq!(KWindows::F3.name(), "F3");
    assert_eq!(WINDOW_WIDTH, 33);
    assert_eq!(WINDOW_HEIGHT, 10);
}

#[test]
fn failure_notice_shows_until_the_next_key() {
    let mut kernel = Kernel::new();
    assert_eq!(kernel.notice(), None);
    kernel.report(Failure::CannotRead);
    assert_eq!(kernel.notice(), Some(Failure::CannotRead));
    let plots = kernel.draw(&vec![]);
    let notice: Vec<u8> = plots.iter().filter(|p| p.row == 0 && p.col >= 26 && p.col < 42).map(|p| p.byte).collect();
    assert_eq!(notice, b"cannot read     ".to_vec());
    kernel.key(KeyEvent::Raw(KeyCode::Other), 0);
    assert_eq!(kernel.notice(), None);
    let plots = kernel.draw(&vec![]);
    let notice: Vec<u8> = plots.iter().filter(|p| p.row == 0 && p.col >= 26 && p.col < 42).map(|p| p.byte).collect();
    assert_eq!(notice, vec![b' '; 16]);
}
