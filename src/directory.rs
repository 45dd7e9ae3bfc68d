//! The directory browser of a window: a cursor over the file listing.

use vstd::prelude::*;

verus! {

/// Where a directory cursor at `cursor` goes for `delta` over `file_count`
/// files: the move happens only when it lands on a file.
pub open spec fn moved_cursor(cursor: nat, delta: int, file_count: nat) -> nat {
    if 0 <= cursor + delta < file_count {
        (cursor + delta) as nat
    } else {
        cursor
    }
}

#[derive(Clone, Copy, Debug, PartialEq, Eq, Structural)]
pub struct DirectoryState {
    pub cursor: usize,
}

impl DirectoryState {
    /// Moves the cursor by `delta` entries; a move that would leave the
    /// listing `[0, file_count)` is ignored.
    pub fn move_cursor(&mut self, delta: isize, file_count: usize)
        ensures
            final(self).cursor == moved_cursor(old(self).cursor as nat, delta as int, file_count as nat),
            old(self).cursor < file_count ==> final(self).cursor < file_count,
    {
        let new_pos: i128 = self.cursor as i128 + delta as i128;
        if 0 <= new_pos && new_pos < file_count as i128 {
            self.cursor = new_pos as usize;
        }
    }
}

} // verus!
