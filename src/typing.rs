//! The filename bar's input: a fixed-capacity line of bytes.

use vstd::prelude::*;
use crate::editing::char_byte;
use crate::layout::MAX_FILENAME_BYTES;
use crate::render::{filebar_plots, ColorScheme, Plot};
use crate::text::SPACE;

verus! {

/// What a typing buffer holds, as plain values.
pub struct TypingView {
    /// All `MAX_FILENAME_BYTES` bytes of the buffer.
    pub buffer: Seq<u8>,
    /// How many bytes were typed.
    pub cursor: nat,
}

impl TypingView {
    pub open spec fn wf(self) -> bool {
        &&& self.buffer.len() == MAX_FILENAME_BYTES
        &&& self.cursor <= MAX_FILENAME_BYTES
        &&& forall|i: int| self.cursor <= i < self.buffer.len() ==> self.buffer[i] == 0
    }

    /// The bytes typed so far.
    pub open spec fn typed_bytes(self) -> Seq<u8> {
        self.buffer.take(self.cursor as int)
    }

    /// Typing `b`: appended, unless the buffer is full.
    pub open spec fn typed(self, b: u8) -> TypingView {
        if self.cursor < MAX_FILENAME_BYTES {
            TypingView { buffer: self.buffer.update(self.cursor as int, b), cursor: self.cursor + 1 }
        } else {
            self
        }
    }

    /// Backspace: the last byte is cleared, unless there is none.
    pub open spec fn backspaced(self) -> TypingView {
        if self.cursor > 0 {
            TypingView {
                buffer: self.buffer.update(self.cursor - 1, 0u8),
                cursor: (self.cursor - 1) as nat,
            }
        } else {
            self
        }
    }
}

/// The empty typing buffer.
pub open spec fn empty_typing() -> TypingView {
    TypingView { buffer: Seq::new(MAX_FILENAME_BYTES as nat, |i: int| 0u8), cursor: 0 }
}

pub struct TypingBuffer {
    buffer: Vec<u8>,
    cursor: usize,
}

impl View for TypingBuffer {
    type V = TypingView;

    closed spec fn view(&self) -> TypingView {
        TypingView { buffer: self.buffer@, cursor: self.cursor as nat }
    }
}

/// `MAX_FILENAME_BYTES` zero bytes.
fn blank_name() -> (r: Vec<u8>)
    ensures
        r@ == empty_typing().buffer,
{
    let mut v: Vec<u8> = Vec::new();
    let mut i: usize = 0;
    while i < MAX_FILENAME_BYTES
        invariant
            i <= MAX_FILENAME_BYTES,
            v@ == Seq::new(i as nat, |j: int| 0u8),
        decreases MAX_FILENAME_BYTES - i,
    {
        v.push(0);
        proof {
            assert(v@ =~= Seq::new((i + 1) as nat, |j: int| 0u8));
        }
        i += 1;
    }
    v
}

impl TypingBuffer {
    pub open spec fn wf(&self) -> bool {
        self@.wf()
    }

    /// An empty buffer.
    pub fn new() -> (r: Self)
        ensures
            r.wf(),
            r@ == empty_typing(),
    {
        TypingBuffer { buffer: blank_name(), cursor: 0 }
    }

    /// Appends the character's byte; a full buffer is left as it is.
    pub fn type_char(&mut self, c: char)
        requires
            old(self).wf(),
        ensures
            final(self).wf(),
            final(self)@ == old(self)@.typed(char_byte(c)),
    {
        if self.cursor < MAX_FILENAME_BYTES {
            self.buffer[self.cursor] = (c as u32 % 256) as u8;
            self.cursor += 1;
        }
        proof {
            assert(self@.buffer =~= old(self)@.typed(char_byte(c)).buffer);
        }
    }

    /// Deletes the last byte; nothing when the buffer is empty.
    pub fn backspace(&mut self)
        requires
            old(self).wf(),
        ensures
            final(self).wf(),
            final(self)@ == old(self)@.backspaced(),
    {
        if self.cursor > 0 {
            self.buffer[self.cursor - 1] = 0;
            self.cursor -= 1;
        }
        proof {
            assert(self@.buffer =~= old(self)@.backspaced().buffer);
        }
    }

    /// Empties the buffer.
    pub fn clear(&mut self)
        ensures
            final(self).wf(),
            final(self)@ == empty_typing(),
    {
        self.buffer = blank_name();
        self.cursor = 0;
    }

    /// How many bytes were typed, and all bytes of the buffer.
    pub fn get_bytes(&mut self) -> (r: (usize, Vec<u8>))
        ensures
            final(self)@ == old(self)@,
            r.0 == old(self)@.cursor,
            r.1@ == old(self)@.buffer,
    {
        (self.cursor, self.buffer.clone())
    }

    /// Appends the buffer's field from `(col, row)`: the typed bytes, then
    /// spaces.
    pub fn draw(&self, col: usize, row: usize, out: &mut Vec<Plot>)
        requires
            self.wf(),
            col + MAX_FILENAME_BYTES <= usize::MAX,
        ensures
            final(out)@ == old(out)@ + filebar_plots(self@, col as int, row as int),
    {
        let ghost start = out@;
        let mut i: usize = 0;
        while i < MAX_FILENAME_BYTES
            invariant
                self.wf(),
                i <= MAX_FILENAME_BYTES,
                col + MAX_FILENAME_BYTES <= usize::MAX,
                out@ == start + filebar_plots(self@, col as int, row as int).take(i as int),
            decreases MAX_FILENAME_BYTES - i,
        {
            let b = if i < self.cursor {
                self.buffer[i]
            } else {
                SPACE
            };
            out.push(Plot { byte: b, col: col + i, row, color: ColorScheme::Text });
            proof {
                assert(out@ =~= start + filebar_plots(self@, col as int, row as int).take(i + 1));
            }
            i += 1;
        }
        proof {
            assert(filebar_plots(self@, col as int, row as int).take(i as int) =~= filebar_plots(
                self@,
                col as int,
                row as int,
            ));
        }
    }

    /// The bytes typed so far.
    pub fn typed_bytes(&self) -> (r: Vec<u8>)
        requires
            self.wf(),
        ensures
            r@ == self@.typed_bytes(),
    {
        let mut v: Vec<u8> = Vec::new();
        let mut i: usize = 0;
        while i < self.cursor
            invariant
                self.wf(),
                i <= self.cursor,
                v@ == self@.typed_bytes().take(i as int),
            decreases self.cursor - i,
        {
            v.push(self.buffer[i]);
            proof {
                assert(v@ =~= self@.typed_bytes().take(i + 1));
            }
            i += 1;
        }
        proof {
            assert(v@ =~= self@.typed_bytes());
        }
        v
    }
}

} // verus!
