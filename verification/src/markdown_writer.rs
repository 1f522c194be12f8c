use vstd::prelude::*;
use crate::decimal::{decimal, push_wide_decimal};
use crate::lines::{lines, split_lines, views};

verus! {

/// Text that grows chunk by chunk and is drawn again after each chunk, with
/// as little redrawn as can be.
#[derive(Debug)]
pub struct MarkdownWriter {
    pub buffer: String,
    pub previous_rendered: String,
    pub last_was_dimmed: bool,
}

/// Number of leading lines that two texts have in common.
pub open spec fn common_lines(a: Seq<Seq<char>>, b: Seq<Seq<char>>) -> nat
    decreases a.len(),
{
    if a.len() == 0 || b.len() == 0 || a[0] != b[0] {
        0
    } else {
        1 + common_lines(a.drop_first(), b.drop_first())
    }
}

/// Lines as they are drawn: each followed by a line feed and the sequence
/// that moves the cursor to the first column.
pub open spec fn drawn(ls: Seq<Seq<char>>) -> Seq<char>
    decreases ls.len(),
{
    if ls.len() == 0 {
        Seq::empty()
    } else {
        drawn(ls.drop_last()) + ls.last() + "\n"@ + "\x1b[0G"@
    }
}

/// How far the cursor moves up before `new` is drawn over `old`: over the
/// lines of `old` that changed and the line below them, but no further than
/// `height` lines.
pub open spec fn lines_up(old: Seq<Seq<char>>, new: Seq<Seq<char>>, height: nat) -> nat {
    let changed = (old.len() - common_lines(old, new) + 1) as nat;
    if changed > height {
        height
    } else {
        changed
    }
}

/// Index of the first line of `new` that is drawn: the lines that `old` and
/// `new` have in common are passed over, and as many more as the cursor
/// could not move up for.
pub open spec fn first_drawn(old: Seq<Seq<char>>, new: Seq<Seq<char>>, height: nat) -> nat {
    let common = common_lines(old, new);
    let changed = (old.len() - common + 1) as nat;
    if changed > height {
        (common + changed - height) as nat
    } else {
        common
    }
}

/// What is written to draw the text `content` over the text `previous`: the
/// sequence that moves the cursor up, unless it stays; the sequence that
/// clears all below the cursor; and the lines from the first that is drawn.
pub open spec fn redraw(previous: Seq<char>, content: Seq<char>, height: nat) -> Seq<char> {
    let old = split_lines(previous);
    let new = split_lines(content);
    let up = lines_up(old, new, height);
    let first = first_drawn(old, new, height);
    let moved = if up > 0 {
        "\x1b["@ + decimal(up) + "A"@
    } else {
        Seq::empty()
    };
    moved + "\x1b[0J"@ + drawn(
        if first < new.len() {
            new.skip(first as int)
        } else {
            Seq::empty()
        },
    )
}

/// A count is the number of leading lines in common once the texts agree
/// before it and differ at it, or one of them ends there.
pub proof fn lemma_common_lines_is(a: Seq<Seq<char>>, b: Seq<Seq<char>>, k: int)
    requires
        0 <= k <= a.len(),
        k <= b.len(),
        forall|i: int| 0 <= i < k ==> a[i] == b[i],
        k == a.len() || k == b.len() || a[k] != b[k],
    ensures
        common_lines(a, b) == k,
    decreases a.len(),
{
    if k > 0 {
        let x = a.drop_first();
        let y = b.drop_first();
        assert forall|i: int| 0 <= i < k - 1 implies x[i] == y[i] by {
            assert(a[i + 1] == b[i + 1]);
        }
        lemma_common_lines_is(x, y, k - 1);
        assert(a[0] == b[0]);
    }
}

impl MarkdownWriter {
    /// A writer that holds no text and has drawn none.
    pub fn new() -> (out: MarkdownWriter)
        ensures
            out.buffer@.len() == 0,
            out.previous_rendered@.len() == 0,
            !out.last_was_dimmed,
    {
        MarkdownWriter {
            buffer: String::new(),
            previous_rendered: String::new(),
            last_was_dimmed: false,
        }
    }

    /// Forgets the text and what was drawn.
    pub fn reset(&mut self)
        ensures
            final(self).buffer@.len() == 0,
            final(self).previous_rendered@.len() == 0,
            final(self).last_was_dimmed == old(self).last_was_dimmed,
    {
        self.buffer = String::new();
        self.previous_rendered = String::new();
    }

    /// Adds a chunk of plain text. Dimmed text that came before is forgotten,
    /// with what was drawn of it.
    pub fn add_chunk(&mut self, chunk: &str)
        ensures
            final(self).buffer@ == if old(self).last_was_dimmed {
                chunk@
            } else {
                old(self).buffer@ + chunk@
            },
            final(self).previous_rendered@ == if old(self).last_was_dimmed {
                Seq::<char>::empty()
            } else {
                old(self).previous_rendered@
            },
            !final(self).last_was_dimmed,
    {
        if self.last_was_dimmed {
            self.reset();
        }
        self.buffer.append(chunk);
        self.last_was_dimmed = false;
        assert(final(self).buffer@ =~= if old(self).last_was_dimmed {
            chunk@
        } else {
            old(self).buffer@ + chunk@
        });
        assert(final(self).previous_rendered@ =~= if old(self).last_was_dimmed {
            Seq::<char>::empty()
        } else {
            old(self).previous_rendered@
        });
    }

    /// Adds a chunk of dimmed text. Plain text that came before is forgotten,
    /// with what was drawn of it.
    pub fn add_chunk_dimmed(&mut self, chunk: &str)
        ensures
            final(self).buffer@ == if old(self).last_was_dimmed {
                old(self).buffer@ + chunk@
            } else {
                chunk@
            },
            final(self).previous_rendered@ == if old(self).last_was_dimmed {
                old(self).previous_rendered@
            } else {
                Seq::<char>::empty()
            },
            final(self).last_was_dimmed,
    {
        if !self.last_was_dimmed {
            self.reset();
        }
        self.buffer.append(chunk);
        self.last_was_dimmed = true;
        assert(final(self).buffer@ =~= if old(self).last_was_dimmed {
            old(self).buffer@ + chunk@
        } else {
            chunk@
        });
        assert(final(self).previous_rendered@ =~= if old(self).last_was_dimmed {
            old(self).previous_rendered@
        } else {
            Seq::<char>::empty()
        });
    }

    /// What is to be written to draw `content` over what was drawn last, on a
    /// screen of `height` lines: see [`redraw`]. Afterwards `content` is what
    /// was drawn last.
    pub fn stream(&mut self, content: &str, height: usize) -> (out: String)
        ensures
            out@ == redraw(old(self).previous_rendered@, content@, height as nat),
            final(self).previous_rendered@ == content@,
            final(self).buffer == old(self).buffer,
            final(self).last_was_dimmed == old(self).last_was_dimmed,
    {
        let lines_new = lines(content);
        let lines_prev = lines(self.previous_rendered.as_str());
        let ghost new = views(lines_new@);
        let ghost prev = views(lines_prev@);
        assert(new.len() == lines_new@.len());
        assert(prev.len() == lines_prev@.len());
        let mut common: usize = 0;
        while common < lines_prev.len() && common < lines_new.len() && lines_prev[common]
            == lines_new[common]
            invariant
                new == views(lines_new@),
                prev == views(lines_prev@),
                common <= lines_prev@.len(),
                common <= lines_new@.len(),
                forall|i: int| 0 <= i < common ==> prev[i] == new[i],
            decreases lines_prev@.len() - common,
        {
            common += 1;
        }
        proof {
            if common < lines_prev@.len() && common < lines_new@.len() {
                assert(prev[common as int] == lines_prev@[common as int]@);
                assert(new[common as int] == lines_new@[common as int]@);
            }
            lemma_common_lines_is(prev, new, common as int);
        }
        let changed: u128 = (lines_prev.len() - common) as u128 + 1;
        let up: u128 = if changed > height as u128 {
            height as u128
        } else {
            changed
        };
        let first: u128 = if changed > height as u128 {
            common as u128 + changed - height as u128
        } else {
            common as u128
        };
        let mut out = String::new();
        if up > 0 {
            out.append("\x1b[");
            push_wide_decimal(&mut out, up);
            out.append("A");
        }
        out.append("\x1b[0J");
        let ghost head = out@;
        let ghost shown = if first < new.len() {
            new.skip(first as int)
        } else {
            Seq::<Seq<char>>::empty()
        };
        let start: usize = if first < lines_new.len() as u128 {
            first as usize
        } else {
            lines_new.len()
        };
        let mut i: usize = start;
        assert(shown.take(0) =~= Seq::<Seq<char>>::empty());
        assert(out@ =~= head + drawn(shown.take(0)));
        while i < lines_new.len()
            invariant
                new == views(lines_new@),
                start <= i <= lines_new@.len(),
                shown.len() == lines_new@.len() - start,
                forall|k: int| 0 <= k < shown.len() ==> shown[k] == new[start + k],
                out@ == head + drawn(shown.take(i - start)),
            decreases lines_new@.len() - i,
        {
            let ghost before = shown.take(i - start);
            let ghost after = shown.take(i - start + 1);
            proof {
                assert(after.drop_last() =~= before);
                assert(after.last() == lines_new@[i as int]@);
            }
            out.append(lines_new[i].as_str());
            out.append("\n");
            out.append("\x1b[0G");
            assert(out@ =~= head + drawn(after));
            i += 1;
        }
        assert(shown.take(shown.len() as int) =~= shown);
        self.previous_rendered = content.to_owned();
        out
    }
}

impl Default for MarkdownWriter {
    fn default() -> (out: MarkdownWriter)
        ensures
            out.buffer@.len() == 0,
            out.previous_rendered@.len() == 0,
            !out.last_was_dimmed,
    {
        MarkdownWriter::new()
    }
}

} // verus!
