//! What a window shows: the directory, an editor, or a program handed off
//! for execution.

use vstd::prelude::*;
use crate::directory::DirectoryState;
use crate::editing::{opened, EditingState, EditingView};

verus! {

/// A window that runs a program. It keeps the program's source; running it
/// is the interpreter's business.
pub struct RunningState {
    program: Vec<u8>,
}

impl View for RunningState {
    type V = Seq<u8>;

    closed spec fn view(&self) -> Seq<u8> {
        self.program@
    }
}

impl RunningState {
    /// The source of the program that the window runs.
    pub fn program(&self) -> (r: &Vec<u8>)
        ensures
            r@ == self@,
    {
        &self.program
    }
}

/// A window's mode, as plain values.
#[verifier::ext_equal]
pub enum ModeView {
    /// The directory listing, with the cursor's position.
    Directory(nat),
    Editing(EditingView),
    /// A running program, with its source.
    Running(Seq<u8>),
}

impl ModeView {
    pub open spec fn wf(self) -> bool {
        match self {
            ModeView::Editing(e) => e.wf(),
            _ => true,
        }
    }
}

pub enum KWindowMode {
    Directory(DirectoryState),
    Editing(EditingState),
    Running(RunningState),
}

impl View for KWindowMode {
    type V = ModeView;

    open spec fn view(&self) -> ModeView {
        match self {
            KWindowMode::Directory(d) => ModeView::Directory(d.cursor as nat),
            KWindowMode::Editing(e) => ModeView::Editing(e@),
            KWindowMode::Running(r) => ModeView::Running(r@),
        }
    }
}

impl KWindowMode {
    pub open spec fn wf(&self) -> bool {
        self@.wf()
    }

    /// The directory listing with the cursor at `cursor`.
    pub fn directory(cursor: usize) -> (r: Self)
        ensures
            r.wf(),
            r@ == ModeView::Directory(cursor as nat),
    {
        KWindowMode::Directory(DirectoryState { cursor })
    }

    /// An editor over `contents` of the file `filename`, which returns to the
    /// directory position `directory_index`.
    pub fn editing(filename: &Vec<u8>, contents: &Vec<u8>, directory_index: usize) -> (r: Self)
        ensures
            r.wf(),
            r@ == ModeView::Editing(opened(filename@, contents@, directory_index as nat)),
    {
        KWindowMode::Editing(EditingState::new(filename, contents, directory_index))
    }

    /// A window running the program whose source is `program`.
    pub fn running(program: Vec<u8>) -> (r: Self)
        ensures
            r.wf(),
            r@ == ModeView::Running(program@),
    {
        KWindowMode::Running(RunningState { program })
    }
}

} // verus!
