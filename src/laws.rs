//! Properties of the shell as a whole, over runs of keys.

use vstd::prelude::*;
use crate::editing::{lemma_opened_wf, lemma_scrolled_wf, EditingView};
use crate::input::{KeyCode, KeyEvent};
use crate::kernel::{after_key, after_unicode, lemma_key_keeps_wf, lemma_with_mode_wf, KSelection, KernelView};
use crate::layout::{window_index, KWindows, MAX_FILENAME_BYTES, PRACTICAL_FILE_BUFFER_SIZE, WINDOW_WIDTH};
use crate::text::{lemma_lines_fit, text_of};
use crate::mode::ModeView;
use crate::typing::TypingView;

verus! {

/// The state after the keys `keys`, in order, with `file_count` files listed.
pub open spec fn run_keys(k: KernelView, keys: Seq<KeyEvent>, file_count: nat) -> KernelView
    decreases keys.len(),
{
    if keys.len() == 0 {
        k
    } else {
        run_keys(after_key(k, keys[0], file_count), keys.drop_first(), file_count)
    }
}

/// The state after typing the characters `cs`, in order.
pub open spec fn type_chars(k: KernelView, cs: Seq<char>) -> KernelView
    decreases cs.len(),
{
    if cs.len() == 0 {
        k
    } else {
        type_chars(after_unicode(k, cs[0]), cs.drop_first())
    }
}

/// Typing into a full editor, or a full filename bar, changes nothing.
pub proof fn lemma_typing_at_capacity(e: EditingView, f: TypingView, b: u8)
    requires
        e.cursor == PRACTICAL_FILE_BUFFER_SIZE,
        f.cursor == MAX_FILENAME_BYTES,
    ensures
        e.typed(b) == e,
        f.typed(b) == f,
{
}

proof fn lemma_scroll_key_stays_on_text(k: KernelView, w: KWindows, code: KeyCode, file_count: nat)
    requires
        k.wf(),
        k.selected == KSelection::Window(w),
        k.mode(w) is Editing,
        code == KeyCode::F7 || code == KeyCode::F8,
    ensures
        after_key(k, KeyEvent::Raw(code), file_count).mode(w) matches ModeView::Editing(e)
            && e.scroll < e.line_count(WINDOW_WIDTH as nat),
{
    let e = k.mode(w)->Editing_0;
    assert(k.modes[window_index(w) as int].wf());
    lemma_scrolled_wf(e, -1);
    lemma_scrolled_wf(e, 1);
    lemma_lines_fit(text_of(e.buffer), WINDOW_WIDTH as nat);
}

/// After any run of F7 and F8 keys in an editing window, its scroll position
/// names one of the text's display lines.
pub proof fn lemma_scroll_stays_on_text(k: KernelView, w: KWindows, keys: Seq<KeyEvent>, file_count: nat)
    requires
        k.wf(),
        k.selected == KSelection::Window(w),
        k.mode(w) is Editing,
        keys.len() > 0,
        forall|i: int|
            0 <= i < keys.len() ==> #[trigger] keys[i] == KeyEvent::Raw(KeyCode::F7) || keys[i]
                == KeyEvent::Raw(KeyCode::F8),
    ensures
        run_keys(k, keys, file_count).mode(w) matches ModeView::Editing(e) && e.scroll < e.line_count(
            WINDOW_WIDTH as nat,
        ),
    decreases keys.len(),
{
    let code = if keys[0] == KeyEvent::Raw(KeyCode::F7) {
        KeyCode::F7
    } else {
        KeyCode::F8
    };
    let next = after_key(k, keys[0], file_count);
    lemma_scroll_key_stays_on_text(k, w, code, file_count);
    lemma_key_keeps_wf(k, keys[0], file_count);
    assert(run_keys(k, keys, file_count) == run_keys(next, keys.drop_first(), file_count));
    assert(next.selected == KSelection::Window(w));
    if keys.len() > 1 {
        let rest = keys.drop_first();
        assert forall|i: int| 0 <= i < rest.len() implies #[trigger] rest[i] == KeyEvent::Raw(KeyCode::F7)
            || rest[i] == KeyEvent::Raw(KeyCode::F8) by {
            assert(rest[i] == keys[i + 1]);
        }
        lemma_scroll_stays_on_text(next, w, rest, file_count);
    } else {
        assert(keys.drop_first().len() == 0);
        assert(run_keys(next, keys.drop_first(), file_count) == next);
    }
}

proof fn lemma_typing_keeps_origin(k: KernelView, w: KWindows, cs: Seq<char>, origin: nat)
    requires
        k.wf(),
        k.selected == KSelection::Window(w),
        k.mode(w) matches ModeView::Editing(e) && e.directory_index == origin,
    ensures
        type_chars(k, cs).wf(),
        type_chars(k, cs).selected == KSelection::Window(w),
        type_chars(k, cs).mode(w) matches ModeView::Editing(e) && e.directory_index == origin,
    decreases cs.len(),
{
    if cs.len() > 0 {
        let next = after_unicode(k, cs[0]);
        lemma_key_keeps_wf(k, KeyEvent::Unicode(cs[0]), 0);
        let keyed = after_key(k, KeyEvent::Unicode(cs[0]), 0);
        assert(keyed.modes == next.modes && keyed.filebar == next.filebar);
        lemma_typing_keeps_origin(next, w, cs.drop_first(), origin);
    }
}

/// Editing a file from the directory entry at `cursor`, typing anything, and
/// leaving with F6 brings the window back to the directory at `cursor`.
pub proof fn lemma_edit_round_trip(
    k: KernelView,
    w: KWindows,
    name: Seq<u8>,
    contents: Seq<u8>,
    cs: Seq<char>,
    file_count: nat,
)
    requires
        k.wf(),
        k.selected == KSelection::Window(w),
        k.mode(w) is Directory,
    ensures
        after_key(
            type_chars(k.entered_editing(w, name, contents), cs),
            KeyEvent::Raw(KeyCode::F6),
            file_count,
        ).mode(w) == k.mode(w),
{
    let cursor = k.mode(w)->Directory_0;
    let editing = k.entered_editing(w, name, contents);
    lemma_opened_wf(name, contents, cursor);
    lemma_with_mode_wf(k, w, editing.mode(w));
    lemma_typing_keeps_origin(editing, w, cs, cursor);
}

/// At every point of every run, the focus is on exactly one thing: a window
/// or the filename bar, never both and never neither.
pub proof fn lemma_single_focus(k: KernelView, keys: Seq<KeyEvent>, file_count: nat)
    ensures
        (run_keys(k, keys, file_count).selected is Window) != (run_keys(
            k,
            keys,
            file_count,
        ).selected is Filebar),
{
}

} // verus!
