//! The text editor of a window: a fixed-capacity byte buffer with a cursor
//! and a scroll position, over the wrap-aware lines of `text`.

use vstd::prelude::*;
use crate::layout::{MAX_FILENAME_BYTES, PRACTICAL_FILE_BUFFER_SIZE, WINDOW_HEIGHT, WINDOW_WIDTH};
use crate::text::{count_lines, display_lines, lemma_first_index_of, lemma_line_count_bound, lemma_lines_fit, locate_line, pad_line, padded, text_end, text_of};

verus! {

/// What an editor holds, as plain values.
pub struct EditingView {
    /// The file's name, zero-padded to `MAX_FILENAME_BYTES`.
    pub filename: Seq<u8>,
    /// All `PRACTICAL_FILE_BUFFER_SIZE` bytes of the buffer.
    pub buffer: Seq<u8>,
    pub len: nat,
    pub cursor: nat,
    /// Index of the first display line shown.
    pub scroll: nat,
    /// The directory position to return to when editing ends.
    pub directory_index: nat,
}

/// The byte that a typed character stores: its code's low byte.
pub open spec fn char_byte(c: char) -> u8 {
    (c as u32 % 256) as u8
}

/// `name` cut or zero-padded to `MAX_FILENAME_BYTES` bytes.
pub open spec fn fixed_name(name: Seq<u8>) -> Seq<u8> {
    Seq::new(MAX_FILENAME_BYTES as nat, |i: int| if i < name.len() { name[i] } else { 0u8 })
}

impl EditingView {
    /// The bytes written so far: `buffer[0..len]`.
    pub open spec fn content(self) -> Seq<u8> {
        self.buffer.take(self.len as int)
    }

    /// The buffer has its full capacity, the cursor sits at the end of the
    /// content, and no byte past the content was written.
    pub open spec fn wf(self) -> bool {
        &&& self.filename.len() == MAX_FILENAME_BYTES
        &&& self.buffer.len() == PRACTICAL_FILE_BUFFER_SIZE
        &&& self.len <= PRACTICAL_FILE_BUFFER_SIZE
        &&& self.cursor == self.len
        &&& self.scroll <= PRACTICAL_FILE_BUFFER_SIZE
        &&& forall|i: int| self.len <= i < self.buffer.len() ==> self.buffer[i] == 0
    }

    /// The display lines of the text at wrap width `w`.
    pub open spec fn lines(self, w: nat) -> Seq<Seq<u8>> {
        display_lines(text_of(self.buffer), w)
    }

    pub open spec fn line_count(self, w: nat) -> nat {
        self.lines(w).len()
    }

    /// Typing `b`: stored at the cursor, unless the buffer is full.
    pub open spec fn typed(self, b: u8) -> EditingView {
        if self.cursor < PRACTICAL_FILE_BUFFER_SIZE {
            EditingView {
                buffer: self.buffer.update(self.cursor as int, b),
                len: self.len + 1,
                cursor: self.cursor + 1,
                ..self
            }
        } else {
            self
        }
    }

    /// Backspace: the byte before the cursor is cleared, unless there is none.
    pub open spec fn backspaced(self) -> EditingView {
        if self.cursor > 0 {
            EditingView {
                buffer: self.buffer.update(self.cursor - 1, 0u8),
                len: (self.len - 1) as nat,
                cursor: (self.cursor - 1) as nat,
                ..self
            }
        } else {
            self
        }
    }

    /// Scrolling by `delta` lines, held within the lines of the text.
    pub open spec fn scrolled(self, delta: int) -> EditingView {
        let last = self.line_count(WINDOW_WIDTH as nat) - 1;
        let target = self.scroll + delta;
        EditingView {
            scroll: if target < 0 {
                0
            } else if target > last {
                last as nat
            } else {
                target as nat
            },
            ..self
        }
    }
}

/// A fresh editor over `contents`, which is cut to the buffer's capacity. The
/// view starts at the bottom of the text.
pub open spec fn opened(name: Seq<u8>, contents: Seq<u8>, directory_index: nat) -> EditingView {
    let len = if contents.len() <= PRACTICAL_FILE_BUFFER_SIZE {
        contents.len()
    } else {
        PRACTICAL_FILE_BUFFER_SIZE as nat
    };
    let buffer = Seq::new(
        PRACTICAL_FILE_BUFFER_SIZE as nat,
        |i: int| if i < len { contents[i] } else { 0u8 },
    );
    let lines = display_lines(text_of(buffer), WINDOW_WIDTH as nat).len();
    EditingView {
        filename: fixed_name(name),
        buffer,
        len,
        cursor: len,
        scroll: if lines > WINDOW_HEIGHT { (lines - WINDOW_HEIGHT) as nat } else { 0 },
        directory_index,
    }
}

/// A buffer of `PRACTICAL_FILE_BUFFER_SIZE` bytes has at most one line more.
pub proof fn lemma_line_count_le(buffer: Seq<u8>, w: nat)
    requires
        w > 0,
        buffer.len() == PRACTICAL_FILE_BUFFER_SIZE,
    ensures
        display_lines(text_of(buffer), w).len() <= PRACTICAL_FILE_BUFFER_SIZE + 1,
{
    lemma_first_index_of(buffer, 0);
    lemma_line_count_bound(text_of(buffer), w);
}

/// A freshly opened editor is well-formed.
pub proof fn lemma_opened_wf(name: Seq<u8>, contents: Seq<u8>, directory_index: nat)
    ensures
        opened(name, contents, directory_index).wf(),
{
    let e = opened(name, contents, directory_index);
    lemma_line_count_le(e.buffer, WINDOW_WIDTH as nat);
}

/// Scrolling keeps an editor well-formed.
pub proof fn lemma_scrolled_wf(e: EditingView, delta: int)
    requires
        e.wf(),
    ensures
        e.scrolled(delta).wf(),
{
    lemma_line_count_le(e.buffer, WINDOW_WIDTH as nat);
    lemma_lines_fit(text_of(e.buffer), WINDOW_WIDTH as nat);
}

pub struct EditingState {
    filename: Vec<u8>,
    buffer: Vec<u8>,
    len: usize,
    cursor: usize,
    scroll: usize,
    directory_index: usize,
}

impl View for EditingState {
    type V = EditingView;

    closed spec fn view(&self) -> EditingView {
        EditingView {
            filename: self.filename@,
            buffer: self.buffer@,
            len: self.len as nat,
            cursor: self.cursor as nat,
            scroll: self.scroll as nat,
            directory_index: self.directory_index as nat,
        }
    }
}

/// `n` zero bytes.
fn zeros(n: usize) -> (r: Vec<u8>)
    ensures
        r@ == Seq::new(n as nat, |i: int| 0u8),
{
    let mut v: Vec<u8> = Vec::new();
    let mut i: usize = 0;
    while i < n
        invariant
            i <= n,
            v@ == Seq::new(i as nat, |j: int| 0u8),
        decreases n - i,
    {
        v.push(0);
        proof {
            assert(v@ =~= Seq::new((i + 1) as nat, |j: int| 0u8));
        }
        i += 1;
    }
    v
}

/// The first `MAX_FILENAME_BYTES` bytes of `name`, zero-padded.
pub fn fixed_name_bytes(name: &Vec<u8>) -> (r: Vec<u8>)
    ensures
        r@ == fixed_name(name@),
{
    let mut v: Vec<u8> = Vec::new();
    let mut i: usize = 0;
    while i < MAX_FILENAME_BYTES
        invariant
            i <= MAX_FILENAME_BYTES,
            v@ == fixed_name(name@).take(i as int),
        decreases MAX_FILENAME_BYTES - i,
    {
        let b = if i < name.len() {
            name[i]
        } else {
            0
        };
        v.push(b);
        proof {
            assert(v@ =~= fixed_name(name@).take(i + 1));
        }
        i += 1;
    }
    proof {
        assert(v@ =~= fixed_name(name@));
    }
    v
}

impl EditingState {
    pub open spec fn wf(&self) -> bool {
        self@.wf()
    }

    /// An editor over `contents` of the file `filename`, entered from the
    /// directory position `directory_index`. The cursor is at the end of the
    /// content and the view at the bottom of the text.
    pub fn new(filename: &Vec<u8>, contents: &Vec<u8>, directory_index: usize) -> (r: Self)
        ensures
            r.wf(),
            r@ == opened(filename@, contents@, directory_index as nat),
    {
        let ghost spec_r = opened(filename@, contents@, directory_index as nat);
        let len = if contents.len() <= PRACTICAL_FILE_BUFFER_SIZE {
            contents.len()
        } else {
            PRACTICAL_FILE_BUFFER_SIZE
        };
        let mut buffer = zeros(PRACTICAL_FILE_BUFFER_SIZE);
        let mut i: usize = 0;
        while i < len
            invariant
                i <= len <= contents.len(),
                len <= PRACTICAL_FILE_BUFFER_SIZE,
                len == spec_r.len,
                spec_r == opened(filename@, contents@, directory_index as nat),
                buffer@.len() == PRACTICAL_FILE_BUFFER_SIZE,
                forall|j: int| 0 <= j < i ==> buffer@[j] == spec_r.buffer[j],
                forall|j: int| i <= j < PRACTICAL_FILE_BUFFER_SIZE ==> buffer@[j] == 0,
            decreases len - i,
        {
            buffer[i] = contents[i];
            i += 1;
        }
        proof {
            assert(buffer@ =~= spec_r.buffer);
        }
        let mut state = EditingState {
            filename: fixed_name_bytes(filename),
            buffer,
            len,
            cursor: len,
            scroll: 0,
            directory_index,
        };
        let lines = state.line_count(WINDOW_WIDTH);
        proof {
            lemma_line_count_le(state.buffer@, WINDOW_WIDTH as nat);
        }
        state.scroll = if lines > WINDOW_HEIGHT {
            lines - WINDOW_HEIGHT
        } else {
            0
        };
        state
    }

    /// Deletes the byte before the cursor; nothing at the start of the buffer.
    pub fn backspace(&mut self)
        requires
            old(self).wf(),
        ensures
            final(self).wf(),
            final(self)@ == old(self)@.backspaced(),
    {
        if self.cursor > 0 {
            self.cursor -= 1;
            self.buffer[self.cursor] = 0;
            self.len -= 1;
        }
        proof {
            assert(self@.buffer =~= old(self)@.backspaced().buffer);
        }
    }

    /// Stores the character's byte at the cursor and moves past it; a full
    /// buffer is left as it is.
    pub fn type_char(&mut self, c: char)
        requires
            old(self).wf(),
        ensures
            final(self).wf(),
            final(self)@ == old(self)@.typed(char_byte(c)),
    {
        if self.cursor < PRACTICAL_FILE_BUFFER_SIZE {
            let b: u8 = (c as u32 % 256) as u8;
            self.buffer[self.cursor] = b;
            self.cursor += 1;
            self.len += 1;
        }
        proof {
            assert(self@.buffer =~= old(self)@.typed(char_byte(c)).buffer);
        }
    }

    /// The number of display lines at wrap width `line_width`; at least one,
    /// even for an empty buffer.
    pub fn line_count(&self, line_width: usize) -> (r: usize)
        requires
            line_width > 0,
            self.wf(),
        ensures
            r == self@.line_count(line_width as nat),
            r >= 1,
    {
        let end = text_end(&self.buffer);
        proof {
            assert(self.buffer@.subrange(0, end as int) =~= text_of(self.buffer@));
            lemma_lines_fit(text_of(self.buffer@), line_width as nat);
        }
        count_lines(&self.buffer, end, line_width)
    }

    /// Display line `line` at the window's width, padded with spaces to that
    /// width; `None` where the text has no such line.
    pub fn read_line(&self, line: usize) -> (r: Option<Vec<u8>>)
        requires
            self.wf(),
        ensures
            match r {
                Some(v) => line < self@.line_count(WINDOW_WIDTH as nat) && v@ == padded(
                    self@.lines(WINDOW_WIDTH as nat)[line as int],
                    WINDOW_WIDTH as nat,
                ),
                None => line >= self@.line_count(WINDOW_WIDTH as nat),
            },
    {
        let end = text_end(&self.buffer);
        proof {
            assert(self.buffer@.subrange(0, end as int) =~= text_of(self.buffer@));
        }
        match locate_line(&self.buffer, end, WINDOW_WIDTH, line) {
            Some((start, len)) => Some(pad_line(&self.buffer, start, len, WINDOW_WIDTH)),
            None => None,
        }
    }

    /// Moves the view by `delta` lines, held between the first line and the
    /// last line of the text.
    pub fn scroll_by(&mut self, delta: isize)
        requires
            old(self).wf(),
        ensures
            final(self).wf(),
            final(self)@ == old(self)@.scrolled(delta as int),
            final(self)@.scroll < final(self)@.line_count(WINDOW_WIDTH as nat),
    {
        let lines = self.line_count(WINDOW_WIDTH);
        proof {
            lemma_line_count_le(self.buffer@, WINDOW_WIDTH as nat);
        }
        let target: i128 = self.scroll as i128 + delta as i128;
        self.scroll = if target < 0 {
            0
        } else if target > (lines - 1) as i128 {
            lines - 1
        } else {
            target as usize
        };
    }

    /// The bytes written so far.
    pub fn content(&self) -> (r: Vec<u8>)
        requires
            self.wf(),
        ensures
            r@ == self@.content(),
    {
        let mut v: Vec<u8> = Vec::new();
        let mut i: usize = 0;
        while i < self.len
            invariant
                self.wf(),
                i <= self.len,
                v@ == self@.content().take(i as int),
            decreases self.len - i,
        {
            v.push(self.buffer[i]);
            proof {
                assert(v@ =~= self@.content().take(i + 1));
            }
            i += 1;
        }
        proof {
            assert(v@ =~= self@.content());
        }
        v
    }

    /// The file's name, zero-padded.
    pub fn filename(&self) -> (r: Vec<u8>)
        ensures
            r@ == self@.filename,
    {
        self.filename.clone()
    }

    pub fn scroll(&self) -> (r: usize)
        ensures
            r == self@.scroll,
    {
        self.scroll
    }

    pub fn directory_index(&self) -> (r: usize)
        ensures
            r == self@.directory_index,
    {
        self.directory_index
    }
}

} // verus!
