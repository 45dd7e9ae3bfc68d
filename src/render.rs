//! The screen, drawn from the shell's state as a list of character plots.
//!
//! Drawing has no side effects here: each function appends the plots that
//! paint its part of the screen, in painting order (a later plot at the same
//! place covers an earlier one), and the caller hands them to the display.

use vstd::prelude::*;
use crate::editing::{fixed_name, fixed_name_bytes, EditingState, EditingView};
use crate::kernel::{Failure, KSelection, Kernel, KernelView};
use crate::layout::{
    window_col, window_index, window_row, KWindows, FILENAME_LABEL_COL_OFFSET, MAX_FILENAME_BYTES,
    WINDOW_HEIGHT, WINDOW_LABEL_COL_OFFSET, WINDOW_WIDTH,
};
use crate::mode::{KWindowMode, ModeView};
use crate::text::{pad_line, padded, SPACE};
use crate::typing::TypingView;

verus! {

/// The two color pairs of the screen.
#[derive(Clone, Copy, Debug, PartialEq, Eq, Structural)]
pub enum ColorScheme {
    /// Light text on a dark background.
    Text,
    /// Dark text on a light background: the directory entry under the cursor.
    Highlight,
}

/// One character cell to paint.
#[derive(Clone, Copy, Debug, PartialEq, Eq, Structural)]
pub struct Plot {
    pub byte: u8,
    pub col: usize,
    pub row: usize,
    pub color: ColorScheme,
}

pub const STAR: u8 = 42;
pub const DOT: u8 = 46;
/// Files shown on one row of a directory listing.
pub const FILES_PER_ROW: usize = 3;
/// Most files a listing shows: as many rows as the window has.
pub const MAX_LISTED_FILES: usize = FILES_PER_ROW * WINDOW_HEIGHT;
pub const FILENAME_PROMPT_LEN: usize = 15;
/// Where the failure notice starts on the filename bar's row, and its width.
pub const NOTICE_COL: usize = FILENAME_PROMPT_LEN + MAX_FILENAME_BYTES + 1;
pub const NOTICE_WIDTH: usize = 16;

pub open spec fn at(byte: u8, col: int, row: int, color: ColorScheme) -> Plot {
    Plot { byte, col: col as usize, row: row as usize, color }
}

/// `bytes` painted left to right from `(col, row)`.
pub open spec fn row_plots(bytes: Seq<u8>, col: int, row: int, color: ColorScheme) -> Seq<Plot> {
    Seq::new(bytes.len(), |j: int| at(bytes[j], col + j, row, color))
}

/// The prompt of the filename bar, `"F5 - Filename: "`.
pub open spec fn filename_prompt() -> Seq<u8> {
    seq![70u8, 53, 32, 45, 32, 70, 105, 108, 101, 110, 97, 109, 101, 58, 32]
}

/// The header of an editing window, `"(F6)"`: the key that leaves the editor.
pub open spec fn edit_mode_header() -> Seq<u8> {
    seq![40u8, 70, 54, 41]
}

/// The words that report a failure.
pub open spec fn failure_text(f: Failure) -> Seq<u8> {
    match f {
        Failure::CannotCreate => seq![99u8, 97, 110, 110, 111, 116, 32, 99, 114, 101, 97, 116, 101],
        Failure::CannotRead => seq![99u8, 97, 110, 110, 111, 116, 32, 114, 101, 97, 100],
        Failure::CannotSave => seq![99u8, 97, 110, 110, 111, 116, 32, 115, 97, 118, 101],
        Failure::NotText => seq![110u8, 111, 116, 32, 116, 101, 120, 116],
    }
}

/// The notice field: the failure's words, or nothing, then spaces.
pub open spec fn notice_plots(notice: Option<Failure>) -> Seq<Plot> {
    let text = match notice {
        Some(f) => failure_text(f),
        None => Seq::empty(),
    };
    row_plots(padded(text, NOTICE_WIDTH as nat), NOTICE_COL as int, 0, ColorScheme::Text)
}

/// A window's label, `"F1"` to `"F4"`.
pub open spec fn window_label(w: KWindows) -> Seq<u8> {
    seq![70u8, (49 + window_index(w)) as u8]
}

/// Spaces over the first `n` interior columns of window `w`, column by column.
pub open spec fn clear_plots(w: KWindows, n: nat) -> Seq<Plot>
    decreases n,
{
    if n == 0 {
        Seq::empty()
    } else {
        clear_plots(w, (n - 1) as nat) + Seq::new(
            WINDOW_HEIGHT as nat,
            |r: int| at(SPACE, window_col(w) + n, window_row(w) + 1 + r, ColorScheme::Text),
        )
    }
}

/// The border of window `w` in `b`: top and bottom rows pairwise, then the
/// left and right columns pairwise.
pub open spec fn border_plots(w: KWindows, b: u8) -> Seq<Plot> {
    let col = window_col(w) as int;
    let row = window_row(w);
    Seq::new(
        2 * (WINDOW_WIDTH as nat + 2),
        |i: int|
            if i % 2 == 0 {
                at(b, col + i / 2, row, ColorScheme::Text)
            } else {
                at(b, col + i / 2, row + WINDOW_HEIGHT + 1, ColorScheme::Text)
            },
    ) + Seq::new(
        2 * (WINDOW_HEIGHT as nat + 2),
        |i: int|
            if i % 2 == 0 {
                at(b, col, row + i / 2, ColorScheme::Text)
            } else {
                at(b, col + WINDOW_WIDTH + 1, row + i / 2, ColorScheme::Text)
            },
    )
}

/// The border of the focused window is drawn in stars, the others in dots.
pub open spec fn border_byte(k: KernelView, w: KWindows) -> u8 {
    if k.selected == KSelection::Window(w) {
        STAR
    } else {
        DOT
    }
}

/// The first `n` files of a listing in window `w`, three to a row, the one
/// at `cursor` highlighted.
pub open spec fn listing_plots(w: KWindows, names: Seq<Seq<u8>>, cursor: nat, n: nat) -> Seq<Plot>
    decreases n,
{
    if n == 0 {
        Seq::empty()
    } else {
        let f = (n - 1) as nat;
        listing_plots(w, names, cursor, f) + row_plots(
            fixed_name(names[f as int]),
            window_col(w) + 1 + MAX_FILENAME_BYTES * (f % 3),
            window_row(w) + 1 + (f / 3) as int,
            if f == cursor {
                ColorScheme::Highlight
            } else {
                ColorScheme::Text
            },
        )
    }
}

/// How many files a listing of `names` shows.
pub open spec fn listed(names: Seq<Seq<u8>>) -> nat {
    if names.len() <= MAX_LISTED_FILES {
        names.len()
    } else {
        MAX_LISTED_FILES as nat
    }
}

/// The nonzero bytes among the first `n` of a filename, each in its own
/// column after the editor header.
pub open spec fn filename_plots(w: KWindows, name: Seq<u8>, n: nat) -> Seq<Plot>
    decreases n,
{
    if n == 0 {
        Seq::empty()
    } else {
        let i = n - 1;
        filename_plots(w, name, (n - 1) as nat) + if name[i] != 0 {
            seq![
                at(
                    name[i],
                    window_col(w) + i + 4 + FILENAME_LABEL_COL_OFFSET,
                    window_row(w),
                    ColorScheme::Text,
                ),
            ]
        } else {
            Seq::empty()
        }
    }
}

/// The first `n` rows of an editor's text in window `w`, from its scroll
/// position on; rows past the last line stay blank.
pub open spec fn text_plots(w: KWindows, e: EditingView, n: nat) -> Seq<Plot>
    decreases n,
{
    if n == 0 {
        Seq::empty()
    } else {
        let r = n - 1;
        let line = e.scroll + r;
        text_plots(w, e, (n - 1) as nat) + if line < e.line_count(WINDOW_WIDTH as nat) {
            row_plots(
                padded(e.lines(WINDOW_WIDTH as nat)[line], WINDOW_WIDTH as nat),
                window_col(w) + 1,
                window_row(w) + 1 + r,
                ColorScheme::Text,
            )
        } else {
            Seq::empty()
        }
    }
}

/// What window `w` shows inside its border in mode `m`. A running program has
/// no output to show.
pub open spec fn content_plots(w: KWindows, m: ModeView, names: Seq<Seq<u8>>) -> Seq<Plot> {
    match m {
        ModeView::Directory(cursor) => listing_plots(w, names, cursor, listed(names)),
        ModeView::Editing(e) => row_plots(
            edit_mode_header(),
            window_col(w) + FILENAME_LABEL_COL_OFFSET,
            window_row(w),
            ColorScheme::Text,
        ) + filename_plots(w, e.filename, MAX_FILENAME_BYTES as nat) + text_plots(
            w,
            e,
            WINDOW_HEIGHT as nat,
        ),
        ModeView::Running(_) => Seq::empty(),
    }
}

/// Window `w` drawn whole: blanked, bordered, filled.
pub open spec fn window_plots(k: KernelView, w: KWindows, names: Seq<Seq<u8>>) -> Seq<Plot> {
    clear_plots(w, WINDOW_WIDTH as nat) + border_plots(w, border_byte(k, w)) + content_plots(
        w,
        k.mode(w),
        names,
    )
}

/// The filename bar's field: the typed bytes, then spaces.
pub open spec fn filebar_plots(f: TypingView, col: int, row: int) -> Seq<Plot> {
    Seq::new(
        MAX_FILENAME_BYTES as nat,
        |i: int| at(if i < f.cursor { f.buffer[i] } else { SPACE }, col + i, row, ColorScheme::Text),
    )
}

pub open spec fn label_plots(w: KWindows) -> Seq<Plot> {
    row_plots(
        window_label(w),
        window_col(w) + WINDOW_LABEL_COL_OFFSET,
        window_row(w),
        ColorScheme::Text,
    )
}

/// The whole screen: the filename bar and its notice, the four windows, the focused window
/// once more so that its border lies on top, and the window labels.
pub open spec fn screen_plots(k: KernelView, names: Seq<Seq<u8>>) -> Seq<Plot> {
    row_plots(filename_prompt(), 0, 0, ColorScheme::Text) + filebar_plots(
        k.filebar,
        FILENAME_PROMPT_LEN as int,
        0,
    ) + notice_plots(k.notice) + window_plots(k, KWindows::F1, names) + window_plots(k, KWindows::F2, names)
        + window_plots(k, KWindows::F3, names) + window_plots(k, KWindows::F4, names) + match k.selected {
        KSelection::Window(w) => window_plots(k, w, names),
        KSelection::Filebar => Seq::empty(),
    } + label_plots(KWindows::F1) + label_plots(KWindows::F2) + label_plots(KWindows::F3)
        + label_plots(KWindows::F4)
}

/// The bytes of each name in a directory listing.
pub open spec fn names_view(names: Seq<Vec<u8>>) -> Seq<Seq<u8>> {
    names.map_values(|v: Vec<u8>| v@)
}

/// Appends `bytes` painted left to right from `(col, row)`.
pub fn plot_row(out: &mut Vec<Plot>, bytes: &Vec<u8>, col: usize, row: usize, color: ColorScheme)
    requires
        col + bytes.len() <= usize::MAX,
    ensures
        final(out)@ == old(out)@ + row_plots(bytes@, col as int, row as int, color),
{
    let ghost start = out@;
    let mut j: usize = 0;
    while j < bytes.len()
        invariant
            j <= bytes.len(),
            col + bytes.len() <= usize::MAX,
            out@ == start + row_plots(bytes@, col as int, row as int, color).take(j as int),
        decreases bytes.len() - j,
    {
        out.push(Plot { byte: bytes[j], col: col + j, row, color });
        proof {
            assert(out@ =~= start + row_plots(bytes@, col as int, row as int, color).take(j + 1));
        }
        j += 1;
    }
    proof {
        assert(row_plots(bytes@, col as int, row as int, color).take(j as int) =~= row_plots(
            bytes@,
            col as int,
            row as int,
            color,
        ));
    }
}

fn failure_bytes(notice: Option<Failure>) -> (r: Vec<u8>)
    ensures
        r@ == match notice {
            Some(f) => failure_text(f),
            None => Seq::<u8>::empty(),
        },
        r@.len() <= NOTICE_WIDTH,
{
    let v = match notice {
        Some(Failure::CannotCreate) => vec![99u8, 97, 110, 110, 111, 116, 32, 99, 114, 101, 97, 116, 101],
        Some(Failure::CannotRead) => vec![99u8, 97, 110, 110, 111, 116, 32, 114, 101, 97, 100],
        Some(Failure::CannotSave) => vec![99u8, 97, 110, 110, 111, 116, 32, 115, 97, 118, 101],
        Some(Failure::NotText) => vec![110u8, 111, 116, 32, 116, 101, 120, 116],
        None => Vec::new(),
    };
    proof {
        match notice {
            Some(f) => assert(v@ =~= failure_text(f)),
            None => assert(v@ =~= Seq::<u8>::empty()),
        }
    }
    v
}

fn label_bytes(window: KWindows) -> (r: Vec<u8>)
    ensures
        r@ == window_label(window),
{
    let digit: u8 = 49 + window.index() as u8;
    let v = vec![70u8, digit];
    proof {
        assert(v@ =~= window_label(window));
    }
    v
}

impl Kernel {
    /// Appends spaces over the interior of `window`.
    pub fn clear_window(&self, window: KWindows, out: &mut Vec<Plot>)
        ensures
            final(out)@ == old(out)@ + clear_plots(window, WINDOW_WIDTH as nat),
    {
        let ghost start = out@;
        let col = window.col();
        let row = window.row();
        let mut col_offset: usize = 1;
        while col_offset < WINDOW_WIDTH + 1
            invariant
                1 <= col_offset <= WINDOW_WIDTH + 1,
                col == window_col(window),
                row == window_row(window),
                out@ == start + clear_plots(window, (col_offset - 1) as nat),
            decreases WINDOW_WIDTH + 1 - col_offset,
        {
            let ghost before = out@;
            let ghost column = Seq::new(
                WINDOW_HEIGHT as nat,
                |r: int| at(SPACE, window_col(window) + col_offset, window_row(window) + 1 + r, ColorScheme::Text),
            );
            let mut row_offset: usize = 1;
            while row_offset < WINDOW_HEIGHT + 1
                invariant
                    1 <= row_offset <= WINDOW_HEIGHT + 1,
                    1 <= col_offset < WINDOW_WIDTH + 1,
                    col == window_col(window),
                    row == window_row(window),
                    column == Seq::new(
                        WINDOW_HEIGHT as nat,
                        |r: int| at(SPACE, window_col(window) + col_offset, window_row(window) + 1 + r, ColorScheme::Text),
                    ),
                    out@ == before + column.take(row_offset - 1),
                decreases WINDOW_HEIGHT + 1 - row_offset,
            {
                out.push(Plot { byte: SPACE, col: col + col_offset, row: row + row_offset, color: ColorScheme::Text });
                proof {
                    assert(out@ =~= before + column.take(row_offset as int));
                }
                row_offset += 1;
            }
            proof {
                assert(column.take(WINDOW_HEIGHT as int) =~= column);
                assert(out@ =~= start + clear_plots(window, col_offset as nat));
            }
            col_offset += 1;
        }
    }

    /// Appends the border of `window`: stars when it has the focus, dots
    /// otherwise.
    pub fn draw_window_border(&self, window: KWindows, out: &mut Vec<Plot>)
        ensures
            final(out)@ == old(out)@ + border_plots(window, border_byte(self@, window)),
    {
        let ghost start = out@;
        let col = window.col();
        let row = window.row();
        let border: u8 = match self.selected() {
            KSelection::Window(selected_win) => if selected_win == window {
                STAR
            } else {
                DOT
            },
            KSelection::Filebar => DOT,
        };
        let ghost b = border_byte(self@, window);
        let ghost rows = Seq::new(
            2 * (WINDOW_WIDTH as nat + 2),
            |i: int|
                if i % 2 == 0 {
                    at(b, col + i / 2, row as int, ColorScheme::Text)
                } else {
                    at(b, col + i / 2, row + WINDOW_HEIGHT + 1, ColorScheme::Text)
                },
        );
        let ghost cols = Seq::new(
            2 * (WINDOW_HEIGHT as nat + 2),
            |i: int|
                if i % 2 == 0 {
                    at(b, col as int, row + i / 2, ColorScheme::Text)
                } else {
                    at(b, col + WINDOW_WIDTH + 1, row + i / 2, ColorScheme::Text)
                },
        );
        let mut col_offset: usize = 0;
        while col_offset < WINDOW_WIDTH + 2
            invariant
                col_offset <= WINDOW_WIDTH + 2,
                col == window_col(window),
                row == window_row(window),
                border == b,
                rows == Seq::new(
                    2 * (WINDOW_WIDTH as nat + 2),
                    |i: int|
                        if i % 2 == 0 {
                            at(b, col + i / 2, row as int, ColorScheme::Text)
                        } else {
                            at(b, col + i / 2, row + WINDOW_HEIGHT + 1, ColorScheme::Text)
                        },
                ),
                out@ == start + rows.take(2 * col_offset),
            decreases WINDOW_WIDTH + 2 - col_offset,
        {
            out.push(Plot { byte: border, col: col + col_offset, row, color: ColorScheme::Text });
            out.push(
                Plot { byte: border, col: col + col_offset, row: row + WINDOW_HEIGHT + 1, color: ColorScheme::Text },
            );
            proof {
                assert(out@ =~= start + rows.take(2 * col_offset + 2));
            }
            col_offset += 1;
        }
        proof {
            assert(rows.take(2 * (WINDOW_WIDTH + 2)) =~= rows);
        }
        let ghost mid = out@;
        let mut row_offset: usize = 0;
        while row_offset < WINDOW_HEIGHT + 2
            invariant
                row_offset <= WINDOW_HEIGHT + 2,
                col == window_col(window),
                row == window_row(window),
                border == b,
                cols == Seq::new(
                    2 * (WINDOW_HEIGHT as nat + 2),
                    |i: int|
                        if i % 2 == 0 {
                            at(b, col as int, row + i / 2, ColorScheme::Text)
                        } else {
                            at(b, col + WINDOW_WIDTH + 1, row + i / 2, ColorScheme::Text)
                        },
                ),
                out@ == mid + cols.take(2 * row_offset),
            decreases WINDOW_HEIGHT + 2 - row_offset,
        {
            out.push(Plot { byte: border, col, row: row + row_offset, color: ColorScheme::Text });
            out.push(
                Plot { byte: border, col: col + WINDOW_WIDTH + 1, row: row + row_offset, color: ColorScheme::Text },
            );
            proof {
                assert(out@ =~= mid + cols.take(2 * row_offset + 2));
            }
            row_offset += 1;
        }
        proof {
            assert(cols.take(2 * (WINDOW_HEIGHT + 2)) =~= cols);
            assert(out@ =~= start + border_plots(window, b));
        }
    }

    /// Appends the first files of `names`, as many as the window has room
    /// for, three to a row, with the one at `cursor` highlighted.
    fn draw_listing(&self, window: KWindows, names: &Vec<Vec<u8>>, cursor: usize, out: &mut Vec<Plot>)
        ensures
            final(out)@ == old(out)@ + listing_plots(
                window,
                names_view(names@),
                cursor as nat,
                listed(names_view(names@)),
            ),
    {
        let ghost start = out@;
        let ghost view = names_view(names@);
        let col = window.col();
        let row = window.row();
        let n = if names.len() <= MAX_LISTED_FILES {
            names.len()
        } else {
            MAX_LISTED_FILES
        };
        let mut file_col_offset: usize = 1;
        let mut file_row_offset: usize = 1;
        let mut file: usize = 0;
        while file < n
            invariant
                file <= n <= MAX_LISTED_FILES,
                n <= names.len(),
                n == listed(view),
                view == names_view(names@),
                col == window_col(window),
                row == window_row(window),
                file_col_offset == 1 + MAX_FILENAME_BYTES * (file % 3),
                file_row_offset == 1 + file / 3,
                out@ == start + listing_plots(window, view, cursor as nat, file as nat),
            decreases n - file,
        {
            let name = fixed_name_bytes(&names[file]);
            let color = if file == cursor {
                ColorScheme::Highlight
            } else {
                ColorScheme::Text
            };
            proof {
                assert(view[file as int] == names@[file as int]@);
            }
            plot_row(out, &name, col + file_col_offset, row + file_row_offset, color);
            file_col_offset += MAX_FILENAME_BYTES;
            if file_col_offset > FILES_PER_ROW * MAX_FILENAME_BYTES {
                file_col_offset = 1;
                file_row_offset += 1;
            }
            file += 1;
        }
    }

    /// Appends an editor's header, the file's name after it, and the lines of
    /// its text that fit, from the scroll position on.
    fn draw_editor(&self, window: KWindows, edit_state: &EditingState, out: &mut Vec<Plot>)
        requires
            edit_state.wf(),
        ensures
            final(out)@ == old(out)@ + content_plots(window, ModeView::Editing(edit_state@), Seq::empty()),
    {
        let ghost start = out@;
        let ghost e = edit_state@;
        let col = window.col();
        let row = window.row();
        let header = vec![40u8, 70, 54, 41];
        proof {
            assert(header@ =~= edit_mode_header());
        }
        plot_row(out, &header, col + FILENAME_LABEL_COL_OFFSET, row, ColorScheme::Text);
        let ghost after_header = out@;
        let filename = edit_state.filename();
        let mut i: usize = 0;
        while i < MAX_FILENAME_BYTES
            invariant
                i <= MAX_FILENAME_BYTES,
                e == edit_state@,
                e.wf(),
                filename@ == e.filename,
                col == window_col(window),
                row == window_row(window),
                out@ == after_header + filename_plots(window, e.filename, i as nat),
            decreases MAX_FILENAME_BYTES - i,
        {
            if filename[i] != 0 {
                out.push(
                    Plot {
                        byte: filename[i],
                        col: col + i + 4 + FILENAME_LABEL_COL_OFFSET,
                        row,
                        color: ColorScheme::Text,
                    },
                );
            }
            proof {
                assert(out@ =~= after_header + filename_plots(window, e.filename, (i + 1) as nat));
            }
            i += 1;
        }
        let ghost after_name = out@;
        let scroll = edit_state.scroll();
        let mut line: usize = 0;
        while line < WINDOW_HEIGHT
            invariant
                line <= WINDOW_HEIGHT,
                e == edit_state@,
                e.wf(),
                scroll == e.scroll,
                col == window_col(window),
                row == window_row(window),
                out@ == after_name + text_plots(window, e, line as nat),
            decreases WINDOW_HEIGHT - line,
        {
            match edit_state.read_line(scroll + line) {
                Some(line_bytes) => {
                    plot_row(out, &line_bytes, col + 1, row + 1 + line, ColorScheme::Text);
                },
                None => {},
            }
            proof {
                assert(out@ =~= after_name + text_plots(window, e, (line + 1) as nat));
            }
            line += 1;
        }
        proof {
            assert(out@ =~= start + content_plots(window, ModeView::Editing(e), Seq::empty()));
        }
    }

    /// Appends `window` drawn whole: blanked, bordered, and filled according
    /// to its mode, over the directory listing `names`.
    pub fn draw_window(&self, window: KWindows, names: &Vec<Vec<u8>>, out: &mut Vec<Plot>)
        requires
            self.wf(),
        ensures
            final(out)@ == old(out)@ + window_plots(self@, window, names_view(names@)),
    {
        let ghost start = out@;
        self.clear_window(window, out);
        self.draw_window_border(window, out);
        let ghost framed = out@;
        match self.get_window_mode(window) {
            KWindowMode::Directory(dir_state) => self.draw_listing(window, names, dir_state.cursor, out),
            KWindowMode::Editing(edit_state) => {
                self.draw_editor(window, edit_state, out);
            },
            KWindowMode::Running(_) => {},
        }
        proof {
            assert(out@ =~= start + window_plots(self@, window, names_view(names@)));
        }
    }

    /// The whole screen, painted in order: the filename bar and its notice,
    /// the four windows, the focused window again, and the window labels.
    pub fn draw(&self, names: &Vec<Vec<u8>>) -> (r: Vec<Plot>)
        requires
            self.wf(),
        ensures
            r@ == screen_plots(self@, names_view(names@)),
    {
        let mut out: Vec<Plot> = Vec::new();
        let prompt = vec![70u8, 53, 32, 45, 32, 70, 105, 108, 101, 110, 97, 109, 101, 58, 32];
        proof {
            assert(prompt@ =~= filename_prompt());
        }
        plot_row(&mut out, &prompt, 0, 0, ColorScheme::Text);
        self.filebar().draw(FILENAME_PROMPT_LEN, 0, &mut out);
        let words = failure_bytes(self.notice());
        let field = pad_line(&words, 0, words.len(), NOTICE_WIDTH);
        proof {
            assert(words@.subrange(0, words@.len() as int) =~= words@);
        }
        plot_row(&mut out, &field, NOTICE_COL, 0, ColorScheme::Text);
        self.draw_window(KWindows::F1, names, &mut out);
        self.draw_window(KWindows::F2, names, &mut out);
        self.draw_window(KWindows::F3, names, &mut out);
        self.draw_window(KWindows::F4, names, &mut out);
        match self.selected() {
            KSelection::Window(window) => self.draw_window(window, names, &mut out),
            KSelection::Filebar => {},
        }
        plot_row(&mut out, &label_bytes(KWindows::F1), KWindows::F1.col() + WINDOW_LABEL_COL_OFFSET, KWindows::F1.row(), ColorScheme::Text);
        plot_row(&mut out, &label_bytes(KWindows::F2), KWindows::F2.col() + WINDOW_LABEL_COL_OFFSET, KWindows::F2.row(), ColorScheme::Text);
        plot_row(&mut out, &label_bytes(KWindows::F3), KWindows::F3.col() + WINDOW_LABEL_COL_OFFSET, KWindows::F3.row(), ColorScheme::Text);
        plot_row(&mut out, &label_bytes(KWindows::F4), KWindows::F4.col() + WINDOW_LABEL_COL_OFFSET, KWindows::F4.row(), ColorScheme::Text);
        proof {
            assert(out@ =~= screen_plots(self@, names_view(names@)));
        }
        out
    }
}

} // verus!
