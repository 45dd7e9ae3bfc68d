//! Screen geometry and the four fixed windows.

use vstd::prelude::*;

verus! {

/// Columns of the text screen.
pub const BUFFER_WIDTH: usize = 80;
/// Rows of the text screen.
pub const BUFFER_HEIGHT: usize = 25;

pub const FIRST_BORDER_ROW: usize = 1;
pub const LAST_BORDER_ROW: usize = BUFFER_HEIGHT - 1;
/// Columns kept free on the right of the screen.
pub const TASK_MANAGER_WIDTH: usize = 10;
pub const WINDOWS_WIDTH: usize = BUFFER_WIDTH - TASK_MANAGER_WIDTH;
/// Interior width of a window: the wrap width of the editor.
pub const WINDOW_WIDTH: usize = (WINDOWS_WIDTH - 3) / 2;
/// Interior height of a window, in text rows.
pub const WINDOW_HEIGHT: usize = (LAST_BORDER_ROW - FIRST_BORDER_ROW - 2) / 2;
pub const MID_WIDTH: usize = WINDOWS_WIDTH / 2;
pub const MID_HEIGHT: usize = BUFFER_HEIGHT / 2;
pub const NUM_WINDOWS: usize = 4;
pub const WINDOW_LABEL_COL_OFFSET: usize = WINDOW_WIDTH - 3;
pub const FILENAME_LABEL_COL_OFFSET: usize = 2;

/// Bytes of a file that the editor holds: one less than the largest file.
pub const PRACTICAL_FILE_BUFFER_SIZE: usize = 64 * 256 - 1;
/// Longest filename, in bytes.
pub const MAX_FILENAME_BYTES: usize = 10;

/// One of the four windows, which tile the screen two by two.
#[derive(PartialEq, Eq, Structural, Clone, Copy, Debug)]
pub enum KWindows {
    F1,
    F2,
    F3,
    F4,
}

/// Position of a window in the window table.
pub open spec fn window_index(w: KWindows) -> nat {
    match w {
        KWindows::F1 => 0,
        KWindows::F2 => 1,
        KWindows::F3 => 2,
        KWindows::F4 => 3,
    }
}

/// Left column of a window's border.
pub open spec fn window_col(w: KWindows) -> int {
    match w {
        KWindows::F1 | KWindows::F3 => 0,
        KWindows::F2 | KWindows::F4 => MID_WIDTH - 1,
    }
}

/// Top row of a window's border.
pub open spec fn window_row(w: KWindows) -> int {
    match w {
        KWindows::F1 | KWindows::F2 => FIRST_BORDER_ROW as int,
        KWindows::F3 | KWindows::F4 => MID_HEIGHT as int,
    }
}

impl KWindows {
    pub fn col(&self) -> (r: usize)
        ensures
            r == window_col(*self),
    {
        match self {
            KWindows::F1 => 0,
            KWindows::F2 => MID_WIDTH - 1,
            KWindows::F3 => 0,
            KWindows::F4 => MID_WIDTH - 1,
        }
    }

    pub fn row(&self) -> (r: usize)
        ensures
            r == window_row(*self),
    {
        match self {
            KWindows::F1 => FIRST_BORDER_ROW,
            KWindows::F2 => FIRST_BORDER_ROW,
            KWindows::F3 => MID_HEIGHT,
            KWindows::F4 => MID_HEIGHT,
        }
    }

    /// The label shown on the window's top border: the key that focuses it.
    pub fn name(&self) -> (r: &'static str)
        ensures
            r@ == seq!['F', ('1' as u8 + window_index(*self)) as char],
    {
        proof {
            reveal_strlit("F1");
            reveal_strlit("F2");
            reveal_strlit("F3");
            reveal_strlit("F4");
        }
        match self {
            KWindows::F1 => "F1",
            KWindows::F2 => "F2",
            KWindows::F3 => "F3",
            KWindows::F4 => "F4",
        }
    }

    pub fn index(&self) -> (r: usize)
        ensures
            r == window_index(*self),
    {
        match self {
            KWindows::F1 => 0,
            KWindows::F2 => 1,
            KWindows::F3 => 2,
            KWindows::F4 => 3,
        }
    }
}

} // verus!
