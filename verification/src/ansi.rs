use vstd::prelude::*;
use crate::lines::{push_range, to_chars};

verus! {

/// A stretch of a text that is either one SGR escape sequence or visible
/// text, by the positions of its first character and after its last.
#[derive(Clone, Copy, Debug)]
pub struct SgrSeg {
    pub is_sgr: bool,
    pub start: usize,
    pub end: usize,
}

/// Position of the first `m` at or after `j`, or the length of the text when
/// there is none.
pub open spec fn first_m(s: Seq<char>, j: int) -> int
    decreases s.len() - j,
{
    if j < 0 || j >= s.len() {
        s.len() as int
    } else if s[j] == 'm' {
        j
    } else {
        first_m(s, j + 1)
    }
}

/// Length of the SGR escape sequence that starts at position `i`, or 0 when
/// none starts there. A sequence is ESC, `[`, and all up to the next `m`.
pub open spec fn sgr_len(s: Seq<char>, i: int) -> int {
    if 0 <= i && i + 1 < s.len() && s[i] == '\u{1b}' && s[i + 1] == '[' && first_m(s, i + 2)
        < s.len() {
        first_m(s, i + 2) + 1 - i
    } else {
        0
    }
}

/// A position is the first `m` once it holds one and nothing between `j` and
/// it does; the end of the text is, once nothing from `j` on does.
pub proof fn lemma_first_m_is(s: Seq<char>, j: int, k: int)
    requires
        0 <= j <= k <= s.len(),
        forall|x: int| j <= x < k ==> s[x] != 'm',
        k < s.len() ==> s[k] == 'm',
    ensures
        first_m(s, j) == k,
    decreases k - j,
{
    if j < k {
        lemma_first_m_is(s, j + 1, k);
    }
}

/// The segments cover the text from its start to its end without gaps, none
/// of them empty. A segment marked as SGR is exactly one escape sequence; in
/// a text segment no escape sequence starts, and no text segment follows
/// another.
pub open spec fn tiles(s: Seq<char>, segs: Seq<SgrSeg>) -> bool {
    &&& segs.len() == 0 <==> s.len() == 0
    &&& segs.len() > 0 ==> segs[0].start == 0 && segs.last().end == s.len()
    &&& forall|n: int| 0 <= n < segs.len() ==> (#[trigger] segs[n]).start < segs[n].end <= s.len()
    &&& forall|n: int| 0 <= n < segs.len() - 1 ==> (#[trigger] segs[n]).end == segs[n + 1].start
    &&& forall|n: int|
        0 <= n < segs.len() && (#[trigger] segs[n]).is_sgr ==> sgr_len(s, segs[n].start as int)
            == segs[n].end - segs[n].start
    &&& forall|n: int, k: int|
        0 <= n < segs.len() && !(#[trigger] segs[n]).is_sgr && segs[n].start <= k < segs[n].end
            ==> #[trigger] sgr_len(s, k) == 0
    &&& forall|n: int|
        0 <= n < segs.len() - 1 && !(#[trigger] segs[n]).is_sgr ==> segs[n + 1].is_sgr
}

/// Cuts a text, given as characters, into escape sequences and the text
/// between them: see [`tiles`].
pub fn parse_sgr_segments(chars: &Vec<char>) -> (segs: Vec<SgrSeg>)
    ensures
        tiles(chars@, segs@),
{
    let n: usize = chars.len();
    let mut segs: Vec<SgrSeg> = Vec::new();
    let mut i: usize = 0;
    let mut text_start: usize = 0;
    let ghost s = chars@;
    while i < n
        invariant
            s == chars@,
            n == s.len(),
            text_start <= i <= n,
            segs@.len() == 0 ==> text_start == 0,
            segs@.len() > 0 ==> segs@[0].start == 0 && segs@.last().end == text_start,
            segs@.len() > 0 ==> segs@.last().is_sgr,
            forall|m: int| 0 <= m < segs@.len() ==> (#[trigger] segs@[m]).start < segs@[m].end <= n,
            forall|m: int| 0 <= m < segs@.len() - 1 ==> (#[trigger] segs@[m]).end == segs@[m
                + 1].start,
            forall|m: int|
                0 <= m < segs@.len() && (#[trigger] segs@[m]).is_sgr ==> sgr_len(
                    s,
                    segs@[m].start as int,
                ) == segs@[m].end - segs@[m].start,
            forall|m: int, k: int|
                0 <= m < segs@.len() && !(#[trigger] segs@[m]).is_sgr && segs@[m].start <= k
                    < segs@[m].end ==> #[trigger] sgr_len(s, k) == 0,
            forall|m: int|
                0 <= m < segs@.len() - 1 && !(#[trigger] segs@[m]).is_sgr ==> segs@[m + 1].is_sgr,
            forall|k: int| text_start <= k < i ==> #[trigger] sgr_len(s, k) == 0,
        decreases n - i,
    {
        let mut found = false;
        if chars[i] == '\u{1b}' && i + 1 < n && chars[i + 1] == '[' {
            let mut j: usize = i + 2;
            while j < n && chars[j] != 'm'
                invariant
                    s == chars@,
                    n == s.len(),
                    i + 2 <= j <= n,
                    forall|x: int| i + 2 <= x < j ==> s[x] != 'm',
                decreases n - j,
            {
                j += 1;
            }
            proof {
                lemma_first_m_is(s, i + 2, j as int);
            }
            if j < n {
                if text_start < i {
                    segs.push(SgrSeg { is_sgr: false, start: text_start, end: i });
                }
                let end: usize = j + 1;
                segs.push(SgrSeg { is_sgr: true, start: i, end });
                i = end;
                text_start = i;
                found = true;
            }
        }
        if !found {
            i += 1;
        }
    }
    if text_start < n {
        segs.push(SgrSeg { is_sgr: false, start: text_start, end: n });
    }
    segs
}

/// A text wrapped from position `i` on, with `col` visible characters on
/// the current line so far. Escape sequences are kept and take no room. A
/// line feed starts a new line; a carriage return is kept and takes no
/// room. Before any other character that would be the `width + 1`st on
/// its line, a line feed is put.
pub open spec fn wrap_from(s: Seq<char>, i: int, col: nat, width: nat) -> Seq<char>
    decreases s.len() - i,
{
    if i < 0 || i >= s.len() {
        Seq::empty()
    } else if sgr_len(s, i) > 0 {
        s.subrange(i, i + sgr_len(s, i)) + wrap_from(s, i + sgr_len(s, i), col, width)
    } else if s[i] == '\n' {
        seq!['\n'] + wrap_from(s, i + 1, 0, width)
    } else if s[i] == '\r' {
        seq!['\r'] + wrap_from(s, i + 1, col, width)
    } else if col == width {
        seq!['\n', s[i]] + wrap_from(s, i + 1, 1, width)
    } else {
        seq![s[i]] + wrap_from(s, i + 1, col + 1, width)
    }
}

/// A text wrapped to `width` visible characters a line; with a width of 0 it
/// is left as it is.
pub open spec fn wrapped(s: Seq<char>, width: nat) -> Seq<char> {
    if width == 0 {
        s
    } else {
        wrap_from(s, 0, 0, width)
    }
}

/// Wraps a text to `width` visible characters a line: see [`wrapped`].
pub fn wrap_ansi_simple(s: &str, width: usize) -> (out: String)
    ensures
        out@ == wrapped(s@, width as nat),
{
    if width == 0 {
        return s.to_owned();
    }
    let chars = to_chars(s);
    let segs = parse_sgr_segments(&chars);
    let ghost t = chars@;
    let mut out = String::new();
    let mut col: usize = 0;
    let mut n: usize = 0;
    assert(out@ + wrap_from(t, 0, 0, width as nat) =~= wrap_from(t, 0, 0, width as nat));
    while n < segs.len()
        invariant
            t == chars@,
            t == s@,
            tiles(t, segs@),
            width > 0,
            n <= segs@.len(),
            col <= width,
            wrap_from(t, 0, 0, width as nat) == out@ + wrap_from(
                t,
                if n < segs@.len() {
                    segs@[n as int].start as int
                } else {
                    t.len() as int
                },
                col as nat,
                width as nat,
            ),
        decreases segs@.len() - n,
    {
        let seg = segs[n];
        let ghost next: int = if n + 1 < segs@.len() {
            segs@[n + 1].start as int
        } else {
            t.len() as int
        };
        assert(seg.end == next);
        if seg.is_sgr {
            let ghost before = out@;
            push_range(&mut out, &chars, seg.start, seg.end);
            assert(out@ + wrap_from(t, next, col as nat, width as nat) =~= before + wrap_from(
                t,
                seg.start as int,
                col as nat,
                width as nat,
            ));
        } else {
            let mut k: usize = seg.start;
            while k < seg.end
                invariant
                    t == chars@,
                    tiles(t, segs@),
                    n < segs@.len(),
                    seg == segs@[n as int],
                    !seg.is_sgr,
                    width > 0,
                    seg.start <= k <= seg.end <= t.len(),
                    col <= width,
                    wrap_from(t, 0, 0, width as nat) == out@ + wrap_from(
                        t,
                        k as int,
                        col as nat,
                        width as nat,
                    ),
                decreases seg.end - k,
            {
                let ch = chars[k];
                let ghost before = out@;
                let ghost old_col = col;
                assert(sgr_len(t, k as int) == 0);
                if ch == '\n' {
                    out.push('\n');
                    col = 0;
                } else if ch == '\r' {
                    out.push('\r');
                } else {
                    if col == width {
                        out.push('\n');
                        col = 0;
                    }
                    out.push(ch);
                    col += 1;
                }
                assert(out@ + wrap_from(t, k + 1, col as nat, width as nat) =~= before + wrap_from(
                    t,
                    k as int,
                    old_col as nat,
                    width as nat,
                ));
                k += 1;
            }
        }
        n += 1;
    }
    assert(out@ + wrap_from(t, t.len() as int, col as nat, width as nat) =~= out@);
    out
}

/// A space or a tab.
pub open spec fn is_blank(c: char) -> bool {
    c == ' ' || c == '\t'
}

/// The position after the last visible character that is no blank, looking
/// from position `i` on, or 0 when there is none. Characters of escape
/// sequences are not visible.
pub open spec fn solid_end(s: Seq<char>, i: int) -> int
    decreases s.len() - i,
{
    if i < 0 || i >= s.len() {
        0
    } else if sgr_len(s, i) > 0 {
        solid_end(s, i + sgr_len(s, i))
    } else if solid_end(s, i + 1) > 0 {
        solid_end(s, i + 1)
    } else if !is_blank(s[i]) {
        i + 1
    } else {
        0
    }
}

/// A text from position `i` on, without the visible characters at or after
/// `cut`. Escape sequences are kept wherever they stand.
pub open spec fn trim_from(s: Seq<char>, i: int, cut: int) -> Seq<char>
    decreases s.len() - i,
{
    if i < 0 || i >= s.len() {
        Seq::empty()
    } else if sgr_len(s, i) > 0 {
        s.subrange(i, i + sgr_len(s, i)) + trim_from(s, i + sgr_len(s, i), cut)
    } else if i < cut {
        seq![s[i]] + trim_from(s, i + 1, cut)
    } else {
        trim_from(s, i + 1, cut)
    }
}

/// A text without its trailing visible blanks. Escape sequences are kept,
/// those after the last visible character too.
pub open spec fn rtrimmed(s: Seq<char>) -> Seq<char> {
    trim_from(s, 0, solid_end(s, 0))
}

/// In a stretch of visible text after which nothing solid follows, the solid
/// end is the position after `p`, the last character of the stretch that is
/// no blank.
proof fn lemma_solid_in_run(s: Seq<char>, a: int, b: int, p: int)
    requires
        0 <= a <= p < b <= s.len(),
        forall|k: int| a <= k < b ==> #[trigger] sgr_len(s, k) == 0,
        solid_end(s, b) == 0,
        !is_blank(s[p]),
        forall|k: int| p < k < b ==> is_blank(#[trigger] s[k]),
    ensures
        solid_end(s, a) == p + 1,
    decreases b - a,
{
    lemma_blank_run(s, p + 1, b);
    assert(sgr_len(s, p) == 0);
    assert(solid_end(s, p) == p + 1);
    lemma_solid_carries(s, a, p, p + 1);
}

/// A stretch of visible blanks after which nothing solid follows has no
/// solid end.
proof fn lemma_blank_run(s: Seq<char>, a: int, b: int)
    requires
        0 <= a <= b <= s.len(),
        forall|k: int| a <= k < b ==> #[trigger] sgr_len(s, k) == 0,
        solid_end(s, b) == 0,
        forall|k: int| a <= k < b ==> is_blank(#[trigger] s[k]),
    ensures
        solid_end(s, a) == 0,
    decreases b - a,
{
    if a < b {
        lemma_blank_run(s, a + 1, b);
        assert(sgr_len(s, a) == 0);
        assert(is_blank(s[a]));
    }
}

/// A solid end that lies after a stretch of visible text is the solid end
/// from the start of the stretch too.
proof fn lemma_solid_carries(s: Seq<char>, a: int, b: int, c: int)
    requires
        0 <= a <= b <= s.len(),
        forall|k: int| a <= k < b ==> #[trigger] sgr_len(s, k) == 0,
        solid_end(s, b) == c,
        c > 0,
    ensures
        solid_end(s, a) == c,
    decreases b - a,
{
    if a < b {
        lemma_solid_carries(s, a + 1, b, c);
        assert(sgr_len(s, a) == 0);
    }
}

/// A solid end that was found from the start of segment `n` on is the solid
/// end of the whole text.
proof fn lemma_solid_from_start(s: Seq<char>, segs: Seq<SgrSeg>, n: int, c: int)
    requires
        tiles(s, segs),
        0 <= n < segs.len(),
        solid_end(s, segs[n].start as int) == c,
        c > 0,
    ensures
        solid_end(s, 0) == c,
    decreases n,
{
    if n > 0 {
        let g = segs[n - 1];
        assert(g.end == segs[n].start);
        if g.is_sgr {
            assert(sgr_len(s, g.start as int) == g.end - g.start);
        } else {
            assert forall|k: int| g.start <= k < g.end implies #[trigger] sgr_len(s, k) == 0 by {
                assert(!segs[n - 1].is_sgr);
            }
            lemma_solid_carries(s, g.start as int, g.end as int, c);
        }
        lemma_solid_from_start(s, segs, n - 1, c);
    }
}

/// What is kept of a stretch of visible text is its part before the cut.
proof fn lemma_trim_run(s: Seq<char>, a: int, b: int, cut: int)
    requires
        0 <= a <= b <= s.len(),
        forall|k: int| a <= k < b ==> #[trigger] sgr_len(s, k) == 0,
    ensures
        trim_from(s, a, cut) == s.subrange(
            a,
            if cut <= a {
                a
            } else if cut < b {
                cut
            } else {
                b
            },
        ) + trim_from(s, b, cut),
    decreases b - a,
{
    let end = if cut <= a {
        a
    } else if cut < b {
        cut
    } else {
        b
    };
    if a < b {
        lemma_trim_run(s, a + 1, b, cut);
        assert(sgr_len(s, a) == 0);
        let later = if cut <= a + 1 {
            a + 1
        } else if cut < b {
            cut
        } else {
            b
        };
        if a < cut {
            assert(s.subrange(a, end) =~= seq![s[a]] + s.subrange(a + 1, later));
            assert(trim_from(s, a, cut) =~= s.subrange(a, end) + trim_from(s, b, cut));
        } else {
            assert(s.subrange(a + 1, later) =~= Seq::<char>::empty());
            assert(trim_from(s, a, cut) =~= s.subrange(a, end) + trim_from(s, b, cut));
        }
    } else {
        assert(s.subrange(a, end) + trim_from(s, b, cut) =~= trim_from(s, a, cut));
    }
}

/// The position after the last visible character that is no blank: see
/// [`solid_end`].
fn find_cut(chars: &Vec<char>, segs: &Vec<SgrSeg>) -> (cut: usize)
    requires
        tiles(chars@, segs@),
    ensures
        cut == solid_end(chars@, 0),
        cut <= chars@.len(),
{
    let ghost s = chars@;
    let mut n: usize = segs.len();
    while n > 0
        invariant
            s == chars@,
            tiles(s, segs@),
            n <= segs@.len(),
            solid_end(
                s,
                if n < segs@.len() {
                    segs@[n as int].start as int
                } else {
                    s.len() as int
                },
            ) == 0,
        decreases n,
    {
        let seg = segs[n - 1];
        let ghost next: int = if n < segs@.len() {
            segs@[n as int].start as int
        } else {
            s.len() as int
        };
        assert(seg.end == next);
        if seg.is_sgr {
            assert(sgr_len(s, seg.start as int) == seg.end - seg.start);
        } else {
            assert forall|k: int| seg.start <= k < seg.end implies #[trigger] sgr_len(s, k)
                == 0 by {
                assert(!segs@[n - 1].is_sgr);
            }
            let mut j: usize = seg.end;
            while j > seg.start
                invariant
                    s == chars@,
                    tiles(s, segs@),
                    0 < n <= segs@.len(),
                    seg == segs@[n - 1],
                    seg.start <= j <= seg.end <= s.len(),
                    solid_end(s, seg.end as int) == 0,
                    forall|k: int| seg.start <= k < seg.end ==> #[trigger] sgr_len(s, k) == 0,
                    forall|k: int| j <= k < seg.end ==> is_blank(#[trigger] s[k]),
                decreases j,
            {
                let ch = chars[j - 1];
                if ch == ' ' || ch == '\t' {
                    j -= 1;
                } else {
                    proof {
                        lemma_solid_in_run(s, seg.start as int, seg.end as int, j - 1);
                        lemma_solid_from_start(s, segs@, n - 1, j as int);
                    }
                    return j;
                }
            }
            proof {
                lemma_blank_run(s, seg.start as int, seg.end as int);
            }
        }
        n -= 1;
    }
    0
}

/// Removes the trailing visible spaces and tabs of a text and keeps its
/// escape sequences: see [`rtrimmed`].
pub fn rtrim_visible_preserve_sgr(s: &str) -> (out: String)
    ensures
        out@ == rtrimmed(s@),
{
    let chars = to_chars(s);
    let segs = parse_sgr_segments(&chars);
    let cut = find_cut(&chars, &segs);
    let ghost t = chars@;
    let mut out = String::new();
    let mut n: usize = 0;
    assert(out@ + trim_from(t, 0, cut as int) =~= trim_from(t, 0, cut as int));
    while n < segs.len()
        invariant
            t == chars@,
            tiles(t, segs@),
            n <= segs@.len(),
            cut <= t.len(),
            trim_from(t, 0, cut as int) == out@ + trim_from(
                t,
                if n < segs@.len() {
                    segs@[n as int].start as int
                } else {
                    t.len() as int
                },
                cut as int,
            ),
        decreases segs@.len() - n,
    {
        let seg = segs[n];
        let ghost before = out@;
        let ghost next: int = if n + 1 < segs@.len() {
            segs@[n + 1].start as int
        } else {
            t.len() as int
        };
        assert(seg.end == next);
        proof {
            if !seg.is_sgr {
                assert forall|k: int| seg.start <= k < seg.end implies #[trigger] sgr_len(t, k)
                    == 0 by {
                    assert(!segs@[n as int].is_sgr);
                }
                lemma_trim_run(t, seg.start as int, seg.end as int, cut as int);
            }
        }
        if seg.is_sgr || seg.end <= cut {
            push_range(&mut out, &chars, seg.start, seg.end);
        } else if seg.start < cut {
            push_range(&mut out, &chars, seg.start, cut);
        } else {
            assert(t.subrange(seg.start as int, seg.start as int) =~= Seq::<char>::empty());
        }
        assert(out@ + trim_from(t, next, cut as int) =~= before + trim_from(
            t,
            seg.start as int,
            cut as int,
        ));
        n += 1;
    }
    assert(out@ + trim_from(t, t.len() as int, cut as int) =~= out@);
    out
}

} // verus!
