//! The shell's state machine: focus, the filename bar and the four windows,
//! driven one key at a time.
//!
//! Key handling never touches storage. Where a key needs the file store it
//! returns a [`Request`]; the caller performs it and, for a file that was
//! read, hands the bytes back through [`Kernel::switch_to_edit_mode`] or
//! [`Kernel::switch_to_run_mode`].

use vstd::prelude::*;
use crate::directory::moved_cursor;
use crate::editing::{char_byte, lemma_scrolled_wf, opened, EditingView};
use crate::input::{drawable, is_drawable, KeyCode, KeyEvent, BACKSPACE, ENTER};
use crate::layout::{window_index, KWindows, NUM_WINDOWS};
use crate::mode::{KWindowMode, ModeView};
use crate::text::{prefix, text_bytes, text_of, NEWLINE};
use crate::typing::{empty_typing, TypingBuffer, TypingView};

verus! {

/// What has the keyboard: one window, or the filename bar.
#[derive(PartialEq, Eq, Structural, Clone, Copy, Debug)]
pub enum KSelection {
    Window(KWindows),
    Filebar,
}

/// Storage work that a key asks for.
#[derive(Debug)]
pub enum Request {
    Nothing,
    /// Create the named file, empty.
    CreateFile(Vec<u8>),
    /// Read the file at this directory position and hand its name and bytes
    /// to `switch_to_edit_mode` for this window.
    LoadForEditing(KWindows, usize),
    /// Read the file at this directory position and hand its bytes to
    /// `switch_to_run_mode` for this window.
    LoadForRunning(KWindows, usize),
    /// Create or truncate the named file and write these bytes to it.
    SaveFile(Vec<u8>, Vec<u8>),
}

#[verifier::ext_equal]
pub enum RequestView {
    Nothing,
    CreateFile(Seq<u8>),
    LoadForEditing(KWindows, nat),
    LoadForRunning(KWindows, nat),
    SaveFile(Seq<u8>, Seq<u8>),
}

impl View for Request {
    type V = RequestView;

    open spec fn view(&self) -> RequestView {
        match self {
            Request::Nothing => RequestView::Nothing,
            Request::CreateFile(name) => RequestView::CreateFile(name@),
            Request::LoadForEditing(w, i) => RequestView::LoadForEditing(*w, *i as nat),
            Request::LoadForRunning(w, i) => RequestView::LoadForRunning(*w, *i as nat),
            Request::SaveFile(name, bytes) => RequestView::SaveFile(name@, bytes@),
        }
    }
}

/// Storage work that the host could not do, shown to the user until the
/// next key.
#[derive(PartialEq, Eq, Structural, Clone, Copy, Debug)]
pub enum Failure {
    /// A file could not be created.
    CannotCreate,
    /// A file could not be read.
    CannotRead,
    /// An editor's content could not be written back.
    CannotSave,
    /// A name or a program was not valid text.
    NotText,
}

/// The whole shell, as plain values.
#[verifier::ext_equal]
pub struct KernelView {
    pub selected: KSelection,
    pub filebar: TypingView,
    /// The modes of windows F1 to F4, in order.
    pub modes: Seq<ModeView>,
    /// The failure to show beside the filename bar, if any.
    pub notice: Option<Failure>,
}

impl KernelView {
    pub open spec fn wf(self) -> bool {
        &&& self.modes.len() == NUM_WINDOWS
        &&& self.filebar.wf()
        &&& forall|i: int| 0 <= i < NUM_WINDOWS ==> #[trigger] self.modes[i].wf()
    }

    pub open spec fn mode(self, w: KWindows) -> ModeView {
        self.modes[window_index(w) as int]
    }

    pub open spec fn with_mode(self, w: KWindows, m: ModeView) -> KernelView {
        KernelView { modes: self.modes.update(window_index(w) as int, m), ..self }
    }

    pub open spec fn with_filebar(self, f: TypingView) -> KernelView {
        KernelView { filebar: f, ..self }
    }

    pub open spec fn focused(self, s: KSelection) -> KernelView {
        KernelView { selected: s, ..self }
    }

    /// The focused window's directory cursor moved by `delta`.
    pub open spec fn dir_cursor_moved(self, delta: int, file_count: nat) -> KernelView {
        match self.selected {
            KSelection::Window(w) => match self.mode(w) {
                ModeView::Directory(c) => self.with_mode(
                    w,
                    ModeView::Directory(moved_cursor(c, delta, file_count)),
                ),
                _ => self,
            },
            KSelection::Filebar => self,
        }
    }

    /// The focused window's editor scrolled by `delta`.
    pub open spec fn edit_scrolled(self, delta: int) -> KernelView {
        match self.selected {
            KSelection::Window(w) => match self.mode(w) {
                ModeView::Editing(e) => self.with_mode(w, ModeView::Editing(e.scrolled(delta))),
                _ => self,
            },
            KSelection::Filebar => self,
        }
    }

    /// Window `w` back in its directory, where it was editing.
    pub open spec fn left_editing(self, w: KWindows) -> KernelView {
        match self.mode(w) {
            ModeView::Editing(e) => self.with_mode(w, ModeView::Directory(e.directory_index)),
            _ => self,
        }
    }

    /// Window `w` editing `contents` of `filename`, where it showed the directory.
    pub open spec fn entered_editing(self, w: KWindows, filename: Seq<u8>, contents: Seq<u8>) -> KernelView {
        match self.mode(w) {
            ModeView::Directory(c) => self.with_mode(w, ModeView::Editing(opened(filename, contents, c))),
            _ => self,
        }
    }

    /// Window `w` running `program`, where it showed the directory.
    pub open spec fn entered_running(self, w: KWindows, program: Seq<u8>) -> KernelView {
        match self.mode(w) {
            ModeView::Directory(_) => self.with_mode(w, ModeView::Running(program)),
            _ => self,
        }
    }
}

/// The editor after the character `c`: enter and printable characters are
/// typed, backspace deletes, anything else is ignored.
pub open spec fn edit_key(e: EditingView, c: char) -> EditingView {
    if c == ENTER {
        e.typed(NEWLINE)
    } else if drawable(c) {
        e.typed(char_byte(c))
    } else if c == BACKSPACE {
        e.backspaced()
    } else {
        e
    }
}

/// The filename bar after the character `c`; enter empties it.
pub open spec fn filebar_key(f: TypingView, c: char) -> TypingView {
    if c == BACKSPACE {
        f.backspaced()
    } else if c == ENTER {
        empty_typing()
    } else if drawable(c) {
        f.typed(char_byte(c))
    } else {
        f
    }
}

/// The state after the named key `code`, with `file_count` files listed.
pub open spec fn after_raw(k: KernelView, code: KeyCode, file_count: nat) -> KernelView {
    match code {
        KeyCode::F1 => k.focused(KSelection::Window(KWindows::F1)),
        KeyCode::F2 => k.focused(KSelection::Window(KWindows::F2)),
        KeyCode::F3 => k.focused(KSelection::Window(KWindows::F3)),
        KeyCode::F4 => k.focused(KSelection::Window(KWindows::F4)),
        KeyCode::F5 => k.focused(KSelection::Filebar),
        KeyCode::F6 => match k.selected {
            KSelection::Window(w) => k.left_editing(w),
            KSelection::Filebar => k,
        },
        KeyCode::F7 => k.edit_scrolled(-1),
        KeyCode::F8 => k.edit_scrolled(1),
        KeyCode::ArrowUp => k.dir_cursor_moved(-3, file_count),
        KeyCode::ArrowDown => k.dir_cursor_moved(3, file_count),
        KeyCode::ArrowLeft => k.dir_cursor_moved(-1, file_count),
        KeyCode::ArrowRight => k.dir_cursor_moved(1, file_count),
        KeyCode::Other => k,
    }
}

/// The state after the character `c`. In a directory, `'e'` and `'r'` only
/// ask for the file; the window changes when it arrives.
pub open spec fn after_unicode(k: KernelView, c: char) -> KernelView {
    match k.selected {
        KSelection::Filebar => k.with_filebar(filebar_key(k.filebar, c)),
        KSelection::Window(w) => match k.mode(w) {
            ModeView::Editing(e) => k.with_mode(w, ModeView::Editing(edit_key(e, c))),
            _ => k,
        },
    }
}

/// The state after `key`. Any notice is dismissed.
pub open spec fn after_key(k: KernelView, key: KeyEvent, file_count: nat) -> KernelView {
    let next = match key {
        KeyEvent::Raw(code) => after_raw(k, code, file_count),
        KeyEvent::Unicode(c) => after_unicode(k, c),
    };
    KernelView { notice: None, ..next }
}

/// The storage work that `key` asks for in state `k`: saving the editor on F6,
/// creating the typed file on enter in the filename bar, and reading the file
/// under a directory cursor on `'e'` or `'r'` when the cursor is on a file.
pub open spec fn request_for(k: KernelView, key: KeyEvent, file_count: nat) -> RequestView {
    match (key, k.selected) {
        (KeyEvent::Raw(KeyCode::F6), KSelection::Window(w)) => match k.mode(w) {
            ModeView::Editing(e) => RequestView::SaveFile(text_of(e.filename), e.content()),
            _ => RequestView::Nothing,
        },
        (KeyEvent::Unicode(c), KSelection::Filebar) => if c == ENTER {
            RequestView::CreateFile(k.filebar.typed_bytes())
        } else {
            RequestView::Nothing
        },
        (KeyEvent::Unicode(c), KSelection::Window(w)) => match k.mode(w) {
            ModeView::Directory(cursor) => if c == 'e' && cursor < file_count {
                RequestView::LoadForEditing(w, cursor)
            } else if c == 'r' && cursor < file_count {
                RequestView::LoadForRunning(w, cursor)
            } else {
                RequestView::Nothing
            },
            _ => RequestView::Nothing,
        },
        _ => RequestView::Nothing,
    }
}

/// The state at startup: window F1 focused, the filename bar empty, and every
/// window on the first directory entry.
pub open spec fn initial_view() -> KernelView {
    KernelView {
        selected: KSelection::Window(KWindows::F1),
        filebar: empty_typing(),
        modes: Seq::new(NUM_WINDOWS as nat, |i: int| ModeView::Directory(0)),
        notice: None,
    }
}

pub proof fn lemma_with_mode_wf(k: KernelView, w: KWindows, m: ModeView)
    requires
        k.wf(),
        m.wf(),
    ensures
        k.with_mode(w, m).wf(),
{
    let r = k.with_mode(w, m);
    assert forall|i: int| 0 <= i < NUM_WINDOWS implies #[trigger] r.modes[i].wf() by {
        if i != window_index(w) {
            assert(r.modes[i] == k.modes[i]);
        }
    }
}

proof fn lemma_dir_moved_wf(k: KernelView, delta: int, file_count: nat)
    requires
        k.wf(),
    ensures
        k.dir_cursor_moved(delta, file_count).wf(),
{
    match k.selected {
        KSelection::Window(w) => match k.mode(w) {
            ModeView::Directory(c) => lemma_with_mode_wf(k, w, ModeView::Directory(moved_cursor(c, delta, file_count))),
            _ => {},
        },
        _ => {},
    }
}

/// Every key leaves a well-formed state well-formed.
pub proof fn lemma_key_keeps_wf(k: KernelView, key: KeyEvent, file_count: nat)
    requires
        k.wf(),
    ensures
        after_key(k, key, file_count).wf(),
{
    match k.selected {
        KSelection::Window(w) => {
            let i = window_index(w) as int;
            assert(k.modes[i].wf());
            match k.mode(w) {
                ModeView::Editing(e) => {
                    lemma_with_mode_wf(k, w, ModeView::Directory(e.directory_index));
                    lemma_scrolled_wf(e, -1);
                    lemma_scrolled_wf(e, 1);
                    lemma_with_mode_wf(k, w, ModeView::Editing(e.scrolled(-1)));
                    lemma_with_mode_wf(k, w, ModeView::Editing(e.scrolled(1)));
                    match key {
                        KeyEvent::Unicode(c) => lemma_with_mode_wf(k, w, ModeView::Editing(edit_key(e, c))),
                        _ => {},
                    }
                },
                ModeView::Directory(c) => {
                    lemma_with_mode_wf(k, w, ModeView::Directory(moved_cursor(c, -3, file_count)));
                    lemma_with_mode_wf(k, w, ModeView::Directory(moved_cursor(c, 3, file_count)));
                    lemma_with_mode_wf(k, w, ModeView::Directory(moved_cursor(c, -1, file_count)));
                    lemma_with_mode_wf(k, w, ModeView::Directory(moved_cursor(c, 1, file_count)));
                },
                _ => {},
            }
        },
        KSelection::Filebar => {},
    }
}

pub struct Kernel {
    selected: KSelection,
    filebar_buffer: TypingBuffer,
    window_modes: Vec<KWindowMode>,
    notice: Option<Failure>,
}

impl View for Kernel {
    type V = KernelView;

    closed spec fn view(&self) -> KernelView {
        KernelView {
            selected: self.selected,
            filebar: self.filebar_buffer@,
            modes: self.window_modes@.map_values(|m: KWindowMode| m@),
            notice: self.notice,
        }
    }
}

impl Kernel {
    pub open spec fn wf(&self) -> bool {
        self@.wf()
    }

    pub fn new() -> (r: Self)
        ensures
            r.wf(),
            r@ == initial_view(),
    {
        let mut window_modes: Vec<KWindowMode> = Vec::new();
        let mut i: usize = 0;
        while i < NUM_WINDOWS
            invariant
                i <= NUM_WINDOWS,
                window_modes@.len() == i,
                forall|j: int| 0 <= j < i ==> #[trigger] window_modes@[j]@ == ModeView::Directory(0),
            decreases NUM_WINDOWS - i,
        {
            window_modes.push(KWindowMode::directory(0));
            i += 1;
        }
        let k = Kernel {
            selected: KSelection::Window(KWindows::F1),
            filebar_buffer: TypingBuffer::new(),
            window_modes,
            notice: None,
        };
        proof {
            assert(k@.modes =~= initial_view().modes);
        }
        k
    }

    /// Handles one key with `file_count` files in the directory, and returns
    /// the storage work it asks for. The caller redraws afterwards.
    pub fn key(&mut self, key: KeyEvent, file_count: usize) -> (r: Request)
        requires
            old(self).wf(),
        ensures
            final(self).wf(),
            final(self)@ == after_key(old(self)@, key, file_count as nat),
            r@ == request_for(old(self)@, key, file_count as nat),
    {
        proof {
            lemma_key_keeps_wf(self@, key, file_count as nat);
        }
        let request = match key {
            KeyEvent::Raw(code) => self.handle_raw(code, file_count),
            KeyEvent::Unicode(c) => self.handle_unicode(c, file_count),
        };
        self.notice = None;
        request
    }

    /// Records that storage work failed, to be shown until the next key.
    pub fn report(&mut self, failure: Failure)
        requires
            old(self).wf(),
        ensures
            final(self).wf(),
            final(self)@ == (KernelView { notice: Some(failure), ..old(self)@ }),
    {
        self.notice = Some(failure);
    }

    /// The failure shown beside the filename bar, if any.
    pub fn notice(&self) -> (r: Option<Failure>)
        ensures
            r == self@.notice,
    {
        self.notice
    }

    fn handle_raw(&mut self, key: KeyCode, file_count: usize) -> (r: Request)
        requires
            old(self).wf(),
        ensures
            final(self).wf(),
            final(self)@ == after_raw(old(self)@, key, file_count as nat),
            r@ == request_for(old(self)@, KeyEvent::Raw(key), file_count as nat),
    {
        match key {
            KeyCode::F1 => {
                self.selected = KSelection::Window(KWindows::F1);
                Request::Nothing
            },
            KeyCode::F2 => {
                self.selected = KSelection::Window(KWindows::F2);
                Request::Nothing
            },
            KeyCode::F3 => {
                self.selected = KSelection::Window(KWindows::F3);
                Request::Nothing
            },
            KeyCode::F4 => {
                self.selected = KSelection::Window(KWindows::F4);
                Request::Nothing
            },
            KeyCode::F5 => {
                self.selected = KSelection::Filebar;
                Request::Nothing
            },
            KeyCode::F6 => match self.selected {
                KSelection::Window(window) => self.switch_to_directory_mode(window),
                KSelection::Filebar => Request::Nothing,
            },
            KeyCode::F7 => {
                self.scroll_edit_text(-1);
                Request::Nothing
            },
            KeyCode::F8 => {
                self.scroll_edit_text(1);
                Request::Nothing
            },
            KeyCode::ArrowUp => {
                self.move_dir_cursor(-3, file_count);
                Request::Nothing
            },
            KeyCode::ArrowDown => {
                self.move_dir_cursor(3, file_count);
                Request::Nothing
            },
            KeyCode::ArrowLeft => {
                self.move_dir_cursor(-1, file_count);
                Request::Nothing
            },
            KeyCode::ArrowRight => {
                self.move_dir_cursor(1, file_count);
                Request::Nothing
            },
            KeyCode::Other => Request::Nothing,
        }
    }

    fn handle_unicode(&mut self, key: char, file_count: usize) -> (r: Request)
        requires
            old(self).wf(),
        ensures
            final(self).wf(),
            final(self)@ == after_unicode(old(self)@, key),
            r@ == request_for(old(self)@, KeyEvent::Unicode(key), file_count as nat),
    {
        proof {
            lemma_key_keeps_wf(self@, KeyEvent::Unicode(key), file_count as nat);
        }
        let r = match self.selected {
            KSelection::Filebar => {
                if key == BACKSPACE {
                    self.filebar_buffer.backspace();
                    Request::Nothing
                } else if key == ENTER {
                    self.try_create_file()
                } else if is_drawable(key) {
                    self.filebar_buffer.type_char(key);
                    Request::Nothing
                } else {
                    Request::Nothing
                }
            },
            KSelection::Window(window) => {
                let i = window.index();
                proof {
                    assert(self@.modes[i as int].wf());
                }
                match &mut self.window_modes[i] {
                    KWindowMode::Directory(dir_state) => {
                        if key == 'e' && dir_state.cursor < file_count {
                            Request::LoadForEditing(window, dir_state.cursor)
                        } else if key == 'r' && dir_state.cursor < file_count {
                            Request::LoadForRunning(window, dir_state.cursor)
                        } else {
                            Request::Nothing
                        }
                    },
                    KWindowMode::Editing(edit_state) => {
                        if key == ENTER {
                            edit_state.type_char(ENTER);
                        } else if is_drawable(key) {
                            edit_state.type_char(key);
                        } else if key == BACKSPACE {
                            edit_state.backspace();
                        }
                        Request::Nothing
                    },
                    KWindowMode::Running(_) => Request::Nothing,
                }
            },
        };
        proof {
            assert(self@ == after_unicode(old(self)@, key));
        }
        r
    }

    /// Empties the filename bar and asks for a file named as typed.
    fn try_create_file(&mut self) -> (r: Request)
        requires
            old(self).wf(),
        ensures
            final(self).wf(),
            final(self)@ == old(self)@.with_filebar(empty_typing()),
            r@ == RequestView::CreateFile(old(self)@.filebar.typed_bytes()),
    {
        let (name_len, name_bytes) = self.filebar_buffer.get_bytes();
        self.filebar_buffer.clear();
        Request::CreateFile(prefix(&name_bytes, name_len))
    }

    /// The mode of `window`.
    pub fn get_window_mode(&self, window: KWindows) -> (r: &KWindowMode)
        requires
            self.wf(),
        ensures
            r@ == self@.mode(window),
            r.wf(),
    {
        &self.window_modes[window.index()]
    }

    fn set_window_mode(&mut self, window: KWindows, mode: KWindowMode)
        requires
            old(self).wf(),
            mode.wf(),
        ensures
            final(self).wf(),
            final(self)@ == old(self)@.with_mode(window, mode@),
    {
        let i = window.index();
        self.window_modes.set(i, mode);
        proof {
            assert(self@.modes =~= old(self)@.with_mode(window, mode@).modes);
        }
    }

    fn move_dir_cursor(&mut self, delta: isize, file_count: usize)
        requires
            old(self).wf(),
        ensures
            final(self).wf(),
            final(self)@ == old(self)@.dir_cursor_moved(delta as int, file_count as nat),
    {
        proof {
            lemma_dir_moved_wf(self@, delta as int, file_count as nat);
        }
        if let KSelection::Window(window) = self.selected {
            let i = window.index();
            proof {
                assert(self@.modes[i as int].wf());
            }
            match &mut self.window_modes[i] {
                KWindowMode::Directory(dir_state) => dir_state.move_cursor(delta, file_count),
                _ => {},
            }
        }
        proof {
            assert(self@ == old(self)@.dir_cursor_moved(delta as int, file_count as nat));
        }
    }

    fn scroll_edit_text(&mut self, delta: isize)
        requires
            old(self).wf(),
        ensures
            final(self).wf(),
            final(self)@ == old(self)@.edit_scrolled(delta as int),
    {
        proof {
            match self.selected {
                KSelection::Window(w) => {
                    assert(self@.modes[window_index(w) as int].wf());
                    match self@.mode(w) {
                        ModeView::Editing(e) => {
                            lemma_scrolled_wf(e, delta as int);
                            lemma_with_mode_wf(self@, w, ModeView::Editing(e.scrolled(delta as int)));
                        },
                        _ => {},
                    }
                },
                _ => {},
            }
        }
        if let KSelection::Window(window) = self.selected {
            let i = window.index();
            proof {
                assert(self@.modes[i as int].wf());
            }
            match &mut self.window_modes[i] {
                KWindowMode::Editing(edit_state) => edit_state.scroll_by(delta),
                _ => {},
            }
        }
        proof {
            assert(self@ == old(self)@.edit_scrolled(delta as int));
        }
    }

    /// Puts `window`, where it shows the directory, into an editor over
    /// `contents` of `filename`; the editor remembers the directory cursor.
    /// Any other window is left as it is.
    pub fn switch_to_edit_mode(&mut self, window: KWindows, filename: &Vec<u8>, contents: &Vec<u8>)
        requires
            old(self).wf(),
        ensures
            final(self).wf(),
            final(self)@ == old(self)@.entered_editing(window, filename@, contents@),
    {
        let i = window.index();
        let chosen = match &self.window_modes[i] {
            KWindowMode::Directory(dir_state) => Some(dir_state.cursor),
            _ => None,
        };
        if let Some(chosen_file) = chosen {
            self.set_window_mode(window, KWindowMode::editing(filename, contents, chosen_file));
        }
    }

    /// Ends editing in `window`: the window returns to the directory entry it
    /// came from, and the returned request saves the content under the file's
    /// name. Any other window is left as it is.
    pub fn switch_to_directory_mode(&mut self, window: KWindows) -> (r: Request)
        requires
            old(self).wf(),
        ensures
            final(self).wf(),
            final(self)@ == old(self)@.left_editing(window),
            r@ == (match old(self)@.mode(window) {
                ModeView::Editing(e) => RequestView::SaveFile(text_of(e.filename), e.content()),
                _ => RequestView::Nothing,
            }),
    {
        let i = window.index();
        proof {
            assert(self@.modes[i as int].wf());
        }
        let saved = match &self.window_modes[i] {
            KWindowMode::Editing(edit_state) => {
                let name = text_bytes(&edit_state.filename());
                Some((name, edit_state.content(), edit_state.directory_index()))
            },
            _ => None,
        };
        match saved {
            Some((name, content, origin)) => {
                self.set_window_mode(window, KWindowMode::directory(origin));
                Request::SaveFile(name, content)
            },
            None => Request::Nothing,
        }
    }

    /// Puts `window`, where it shows the directory, into running `program`.
    /// Any other window is left as it is.
    pub fn switch_to_run_mode(&mut self, window: KWindows, program: Vec<u8>)
        requires
            old(self).wf(),
        ensures
            final(self).wf(),
            final(self)@ == old(self)@.entered_running(window, program@),
    {
        let i = window.index();
        let is_directory = match &self.window_modes[i] {
            KWindowMode::Directory(_) => true,
            _ => false,
        };
        if is_directory {
            self.set_window_mode(window, KWindowMode::running(program));
        }
    }

    /// What has the keyboard.
    pub fn selected(&self) -> (r: KSelection)
        ensures
            r == self@.selected,
    {
        self.selected
    }

    /// The filename bar.
    pub fn filebar(&self) -> (r: &TypingBuffer)
        ensures
            r@ == self@.filebar,
    {
        &self.filebar_buffer
    }

    /// Status of running programs: nothing to show until programs run.
    pub fn draw_proc_status(&mut self)
        ensures
            final(self)@ == old(self)@,
    {
    }

    /// One step of a running program: programs do not step yet.
    pub fn run_one_instruction(&mut self)
        ensures
            final(self)@ == old(self)@,
    {
    }
}

} // verus!
