//! Wrap-aware line addressing over a zero-terminated byte buffer.
//!
//! A buffer's text runs up to its first zero byte, or to its end. The text is
//! shown as display lines: a newline ends a line and is not shown, and a line
//! that reaches the wrap width without a newline goes on in the next line.

use vstd::prelude::*;

verus! {

pub const NEWLINE: u8 = 10;
pub const SPACE: u8 = 32;

/// Position of the first `b` in `s`, or `s.len()` where `s` holds none.
pub open spec fn first_index_of(s: Seq<u8>, b: u8) -> nat
    decreases s.len(),
{
    if s.len() == 0 {
        0
    } else if s[0] == b {
        0
    } else {
        1 + first_index_of(s.drop_first(), b)
    }
}

/// The text that a buffer holds: its bytes before the first zero byte.
pub open spec fn text_of(buf: Seq<u8>) -> Seq<u8> {
    buf.take(first_index_of(buf, 0) as int)
}

/// The display lines of `t` at wrap width `w`. The first line ends at the
/// first newline, when at most `w` bytes precede it; otherwise it holds the
/// first `w` bytes and the next line starts right after them. The text after
/// a newline always makes at least one more line, so an empty text, or one
/// that ends in a newline, still ends in an (empty) line.
pub open spec fn display_lines(t: Seq<u8>, w: nat) -> Seq<Seq<u8>>
    decreases t.len(),
{
    let k = first_index_of(t, NEWLINE);
    if k <= w && k < t.len() {
        seq![t.take(k as int)] + display_lines(t.skip(k + 1int), w)
    } else if k > w && 0 < w < t.len() {
        seq![t.take(w as int)] + display_lines(t.skip(w as int), w)
    } else {
        seq![t]
    }
}

/// `line` shown in a field `w` wide: its bytes, then spaces.
pub open spec fn padded(line: Seq<u8>, w: nat) -> Seq<u8> {
    Seq::new(w, |i: int| if i < line.len() { line[i] } else { SPACE })
}

pub proof fn lemma_first_index_of(s: Seq<u8>, b: u8)
    ensures
        first_index_of(s, b) <= s.len(),
        forall|i: int| 0 <= i < first_index_of(s, b) ==> s[i] != b,
        first_index_of(s, b) < s.len() ==> s[first_index_of(s, b) as int] == b,
    decreases s.len(),
{
    if s.len() > 0 && s[0] != b {
        lemma_first_index_of(s.drop_first(), b);
        assert forall|i: int| 0 <= i < first_index_of(s, b) implies s[i] != b by {
            if i > 0 {
                assert(s[i] == s.drop_first()[i - 1]);
            }
        }
    }
}

/// Every display line fits the wrap width.
pub proof fn lemma_lines_fit(t: Seq<u8>, w: nat)
    requires
        w > 0,
    ensures
        forall|i: int| 0 <= i < display_lines(t, w).len() ==> #[trigger] display_lines(t, w)[i].len() <= w,
        display_lines(t, w).len() >= 1,
    decreases t.len(),
{
    lemma_first_index_of(t, NEWLINE);
    let k = first_index_of(t, NEWLINE);
    if k <= w && k < t.len() {
        lemma_lines_fit(t.skip(k + 1int), w);
    } else if k > w && 0 < w < t.len() {
        lemma_lines_fit(t.skip(w as int), w);
    }
}

/// A text has at most one display line more than it has bytes.
pub proof fn lemma_line_count_bound(t: Seq<u8>, w: nat)
    requires
        w > 0,
    ensures
        display_lines(t, w).len() <= t.len() + 1,
    decreases t.len(),
{
    lemma_first_index_of(t, NEWLINE);
    let k = first_index_of(t, NEWLINE);
    if k <= w && k < t.len() {
        lemma_line_count_bound(t.skip(k + 1int), w);
    } else if k > w && 0 < w < t.len() {
        lemma_line_count_bound(t.skip(w as int), w);
    }
}

/// Where the text of `buf` ends: the position of its first zero byte.
pub fn text_end(buf: &Vec<u8>) -> (r: usize)
    ensures
        r == first_index_of(buf@, 0),
        r <= buf.len(),
{
    let mut i: usize = 0;
    while i < buf.len() && buf[i] != 0
        invariant
            i <= buf.len(),
            forall|j: int| 0 <= j < i ==> buf@[j] != 0,
        decreases buf.len() - i,
    {
        i += 1;
    }
    proof {
        lemma_first_index_of(buf@, 0);
    }
    i
}

/// The first `n` bytes of `buf`.
pub fn prefix(buf: &Vec<u8>, n: usize) -> (r: Vec<u8>)
    requires
        n <= buf.len(),
    ensures
        r@ == buf@.take(n as int),
{
    let mut v: Vec<u8> = Vec::new();
    let mut i: usize = 0;
    while i < n
        invariant
            i <= n <= buf.len(),
            v@ == buf@.take(i as int),
        decreases n - i,
    {
        v.push(buf[i]);
        proof {
            assert(v@ =~= buf@.take(i + 1));
        }
        i += 1;
    }
    v
}

/// The text that `buf` holds: its bytes before the first zero byte.
pub fn text_bytes(buf: &Vec<u8>) -> (r: Vec<u8>)
    ensures
        r@ == text_of(buf@),
{
    let end = text_end(buf);
    prefix(buf, end)
}

/// Scans the display line that starts at `start` in `buf[start..end]`.
/// Returns its length, where the next line starts, and whether one follows.
pub fn scan_line(buf: &Vec<u8>, start: usize, end: usize, w: usize) -> (r: (usize, usize, bool))
    requires
        start <= end <= buf.len(),
        w > 0,
    ensures
        ({
            let t = buf@.subrange(start as int, end as int);
            let (len, next, more) = r;
            &&& len <= w
            &&& len <= end - start
            &&& more ==> start < next <= end && display_lines(t, w as nat) == seq![t.take(len as int)]
                + display_lines(buf@.subrange(next as int, end as int), w as nat)
            &&& !more ==> len == end - start && display_lines(t, w as nat) == seq![t]
        }),
{
    let ghost t = buf@.subrange(start as int, end as int);
    let mut j: usize = start;
    while j < end && buf[j] != NEWLINE && j - start < w
        invariant
            start <= j <= end,
            end <= buf.len(),
            j - start <= w,
            forall|i: int| start <= i < j ==> buf@[i] != NEWLINE,
        decreases end - j,
    {
        j += 1;
    }
    proof {
        lemma_first_index_of(t, NEWLINE);
        let k = first_index_of(t, NEWLINE);
        if k < j - start {
            assert(t[k as int] == buf@[start + k]);
        }
        assert(k >= j - start);
    }
    if j < end && buf[j] == NEWLINE {
        proof {
            let k = first_index_of(t, NEWLINE);
            assert(t[j - start] == NEWLINE);
            assert(k == j - start);
            assert(t.skip(k + 1int) =~= buf@.subrange(j + 1, end as int));
        }
        (j - start, j + 1, true)
    } else if j == end {
        proof {
            assert(t.take((j - start) as int) =~= t);
        }
        (j - start, end, false)
    } else {
        proof {
            let k = first_index_of(t, NEWLINE);
            assert(t[j - start] == buf@[j as int]);
            assert(k > w);
            assert(t.skip(w as int) =~= buf@.subrange(j as int, end as int));
        }
        (w, j, true)
    }
}

/// The number of display lines of `buf[0..end]` at wrap width `w`.
pub fn count_lines(buf: &Vec<u8>, end: usize, w: usize) -> (r: usize)
    requires
        end <= buf.len(),
        end < usize::MAX,
        w > 0,
    ensures
        r == display_lines(buf@.subrange(0, end as int), w as nat).len(),
{
    let ghost whole = display_lines(buf@.subrange(0, end as int), w as nat);
    let mut count: usize = 1;
    let mut start: usize = 0;
    loop
        invariant
            start <= end <= buf.len(),
            w > 0,
            whole == display_lines(buf@.subrange(0, end as int), w as nat),
            1 <= count <= start + 1,
            end < usize::MAX,
            whole.len() == count - 1 + display_lines(buf@.subrange(start as int, end as int), w as nat).len(),
        decreases end - start,
    {
        let (_len, next, more) = scan_line(buf, start, end, w);
        if !more {
            proof {
                let t = buf@.subrange(start as int, end as int);
                assert(display_lines(t, w as nat) == seq![t]);
                assert(display_lines(t, w as nat).len() == 1);
            }
            return count;
        }
        count += 1;
        start = next;
    }
}

/// Where display line `n` of `buf[0..end]` starts, and its length; `None`
/// where the text has no such line.
pub fn locate_line(buf: &Vec<u8>, end: usize, w: usize, n: usize) -> (r: Option<(usize, usize)>)
    requires
        end <= buf.len(),
        w > 0,
    ensures
        ({
            let lines = display_lines(buf@.subrange(0, end as int), w as nat);
            match r {
                Some((s, len)) => n < lines.len() && s + len <= end && len <= w
                    && lines[n as int] == buf@.subrange(s as int, s + len),
                None => n >= lines.len(),
            }
        }),
{
    let ghost whole = display_lines(buf@.subrange(0, end as int), w as nat);
    let mut current: usize = 0;
    let mut start: usize = 0;
    loop
        invariant
            start <= end <= buf.len(),
            w > 0,
            whole == display_lines(buf@.subrange(0, end as int), w as nat),
            current <= n,
            current <= whole.len(),
            whole.skip(current as int) == display_lines(buf@.subrange(start as int, end as int), w as nat),
        decreases end - start,
    {
        let ghost rest = display_lines(buf@.subrange(start as int, end as int), w as nat);
        let (len, next, more) = scan_line(buf, start, end, w);
        proof {
            lemma_lines_fit(buf@.subrange(start as int, end as int), w as nat);
            let t = buf@.subrange(start as int, end as int);
            assert(whole[current as int] == rest[0]);
            assert(t.take(len as int) =~= buf@.subrange(start as int, start + len));
        }
        if current == n {
            return Some((start, len));
        }
        if !more {
            proof {
                assert(whole.len() == current + 1);
            }
            return None;
        }
        proof {
            assert(whole.skip(current + 1) =~= rest.skip(1));
            assert(rest.skip(1) =~= display_lines(buf@.subrange(next as int, end as int), w as nat));
        }
        current += 1;
        start = next;
    }
}

/// Bytes `buf[start..start + len]` followed by spaces, `w` bytes in all.
pub fn pad_line(buf: &Vec<u8>, start: usize, len: usize, w: usize) -> (r: Vec<u8>)
    requires
        start + len <= buf.len(),
        len <= w,
    ensures
        r@ == padded(buf@.subrange(start as int, start + len), w as nat),
{
    let ghost line = buf@.subrange(start as int, start + len);
    let mut out: Vec<u8> = Vec::new();
    let mut i: usize = 0;
    while i < w
        invariant
            i <= w,
            len <= w,
            start + len <= buf.len(),
            line == buf@.subrange(start as int, start + len),
            out@ == padded(line, w as nat).take(i as int),
        decreases w - i,
    {
        let b = if i < len {
            buf[start + i]
        } else {
            SPACE
        };
        proof {
            assert(b == padded(line, w as nat)[i as int]);
        }
        out.push(b);
        proof {
            assert(out@ =~= padded(line, w as nat).take(i + 1));
        }
        i += 1;
    }
    proof {
        assert(out@ =~= padded(line, w as nat));
    }
    out
}

} // verus!
