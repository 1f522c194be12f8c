use vstd::prelude::*;
use crate::decimal::{decimal, push_decimal};
use crate::lines::{
    join_lines, join_range, keeps_line_ends, lemma_line_count_bound, lemma_split_join, line_count,
    lines, split_lines, text_view, views,
};
use crate::width::{byte_len, lemma_byte_len_lower};

verus! {

/// What is shown of a command's standard output.
#[derive(Debug)]
pub struct Stdout {
    /// The first lines, or all lines when nothing was left out.
    pub head: String,
    /// The last lines, when lines in between were left out.
    pub tail: Option<String>,
    /// Number of lines of the whole stream.
    pub total_lines: usize,
    /// Number of the last line in `head`, counting from 1.
    pub head_end_line: usize,
    /// Number of the first line in `tail`.
    pub tail_start_line: Option<usize>,
    /// Number of the last line in `tail`.
    pub tail_end_line: Option<usize>,
}

/// What is shown of a command's standard error.
#[derive(Debug)]
pub struct Stderr {
    /// The first lines, or all lines when nothing was left out.
    pub head: String,
    /// The last lines, when lines in between were left out.
    pub tail: Option<String>,
    /// Number of lines of the whole stream.
    pub total_lines: usize,
    /// Number of the last line in `head`, counting from 1.
    pub head_end_line: usize,
    /// Number of the first line in `tail`.
    pub tail_start_line: Option<usize>,
    /// Number of the last line in `tail`.
    pub tail_end_line: Option<usize>,
}

/// What is shown of both streams of a command.
#[derive(Debug)]
pub struct TruncatedShellOutput {
    pub stdout: Stdout,
    pub stderr: Stderr,
}

/// What is shown of one stream, as plain values.
pub struct StreamCut {
    pub head: Seq<char>,
    pub tail: Option<Seq<char>>,
    pub total_lines: nat,
    pub head_end_line: nat,
    pub tail_start_line: Option<nat>,
    pub tail_end_line: Option<nat>,
}

/// The bounds of an optional line number as a plain value.
pub open spec fn line_number(n: Option<usize>) -> Option<nat> {
    match n {
        Some(n) => Some(n as nat),
        None => None,
    }
}

impl View for Stdout {
    type V = StreamCut;

    open spec fn view(&self) -> StreamCut {
        StreamCut {
            head: self.head@,
            tail: text_view(self.tail),
            total_lines: self.total_lines as nat,
            head_end_line: self.head_end_line as nat,
            tail_start_line: line_number(self.tail_start_line),
            tail_end_line: line_number(self.tail_end_line),
        }
    }
}

impl View for Stderr {
    type V = StreamCut;

    open spec fn view(&self) -> StreamCut {
        StreamCut {
            head: self.head@,
            tail: text_view(self.tail),
            total_lines: self.total_lines as nat,
            head_end_line: self.head_end_line as nat,
            tail_start_line: line_number(self.tail_start_line),
            tail_end_line: line_number(self.tail_end_line),
        }
    }
}

/// A line as it is shown: whole when it has at most `max` characters, else
/// its first `max` characters followed by a note of how many were left out.
pub open spec fn clip_line(line: Seq<char>, max: nat) -> Seq<char> {
    if line.len() > max {
        line.take(max as int) + "...["@ + decimal((line.len() - max) as nat)
            + " more chars truncated]"@
    } else {
        line
    }
}

/// Each line as it is shown.
pub open spec fn clip_lines(ls: Seq<Seq<char>>, max: nat) -> Seq<Seq<char>> {
    ls.map_values(|l: Seq<char>| clip_line(l, max))
}

/// What is shown of a stream. With at most `prefix + suffix` lines, the head
/// is all of them. With more, the head is the first `prefix` lines and the
/// tail the last `suffix` lines. Each line is clipped to `max_line`
/// characters either way.
pub open spec fn cut_stream(s: Seq<char>, prefix: nat, suffix: nat, max_line: nat) -> StreamCut {
    let ls = clip_lines(split_lines(s), max_line);
    let count = ls.len();
    if count <= prefix + suffix {
        StreamCut {
            head: join_lines(ls),
            tail: None,
            total_lines: count,
            head_end_line: count,
            tail_start_line: None,
            tail_end_line: None,
        }
    } else {
        StreamCut {
            head: join_lines(ls.take(prefix as int)),
            tail: Some(join_lines(ls.skip(count - suffix))),
            total_lines: count,
            head_end_line: prefix,
            tail_start_line: Some((count - suffix + 1) as nat),
            tail_end_line: Some(count),
        }
    }
}

/// Short output is shown as it is: a text of at most `prefix + suffix` lines,
/// none longer than `max_line`, that loses nothing when split into lines, is
/// its own head, and there is no tail.
pub proof fn lemma_short_stream_unchanged(s: Seq<char>, prefix: nat, suffix: nat, max_line: nat)
    requires
        line_count(s) <= prefix + suffix,
        keeps_line_ends(s),
        forall|i: int| 0 <= i < split_lines(s).len() ==> #[trigger] split_lines(s)[i].len() <= max_line,
    ensures
        cut_stream(s, prefix, suffix, max_line).head == s,
        cut_stream(s, prefix, suffix, max_line).tail is None,
{
    assert(clip_lines(split_lines(s), max_line) =~= split_lines(s));
    lemma_split_join(s);
}

/// With exactly `prefix + suffix` lines nothing is left out. With one line
/// more, head and tail together show every line but one, the line after the
/// head.
pub proof fn lemma_stream_boundary(s: Seq<char>, prefix: nat, suffix: nat, max_line: nat)
    ensures
        ({
            let cut = cut_stream(s, prefix, suffix, max_line);
            let shown = clip_lines(split_lines(s), max_line);
            &&& line_count(s) == prefix + suffix ==> {
                &&& cut.tail is None
                &&& cut.head == join_lines(shown)
                &&& cut.head_end_line == line_count(s)
            }
            &&& line_count(s) == prefix + suffix + 1 ==> {
                &&& cut.head == join_lines(shown.take(prefix as int))
                &&& cut.tail == Some(join_lines(shown.skip(prefix as int + 1)))
                &&& cut.head_end_line == prefix
                &&& cut.tail_start_line == Some(prefix + 2)
                &&& cut.tail_end_line == Some(line_count(s))
            }
        }),
{
}

/// The line numbers of a cut stream are in order: the head ends within the
/// stream; a tail starts after the head's end and ends with the stream, and
/// head and tail together show no more lines than there are.
pub proof fn lemma_stream_ranges(s: Seq<char>, prefix: nat, suffix: nat, max_line: nat)
    ensures
        ({
            let cut = cut_stream(s, prefix, suffix, max_line);
            &&& cut.total_lines == line_count(s)
            &&& cut.head_end_line <= cut.total_lines
            &&& cut.tail is Some <==> line_count(s) > prefix + suffix
            &&& cut.tail is Some <==> cut.tail_start_line is Some
            &&& cut.tail is Some <==> cut.tail_end_line is Some
            &&& cut.tail is Some ==> {
                &&& cut.tail_start_line->0 > cut.head_end_line
                &&& cut.tail_end_line->0 == cut.total_lines
                &&& cut.head_end_line + (cut.tail_end_line->0 - cut.tail_start_line->0 + 1)
                    <= cut.total_lines
            }
        }),
{
}

/// Clips a line to `max_line_length` characters: see [`clip_line`].
pub fn truncate_line(line: &str, max_line_length: usize) -> (out: String)
    ensures
        out@ == clip_line(line@, max_line_length as nat),
{
    let n: usize = line.unicode_len();
    if n > max_line_length {
        let mut out = line.substring_char(0, max_line_length).to_owned();
        out.append("...[");
        push_decimal(&mut out, (n - max_line_length) as u64);
        out.append(" more chars truncated]");
        assert(line@.subrange(0, max_line_length as int) =~= line@.take(max_line_length as int));
        out
    } else {
        line.to_owned()
    }
}

/// Clips every line of a text.
pub fn clipped_lines(s: &str, max_line_length: usize) -> (out: Vec<String>)
    ensures
        views(out@) == clip_lines(split_lines(s@), max_line_length as nat),
{
    let raw = lines(s);
    let mut out: Vec<String> = Vec::new();
    let mut i: usize = 0;
    let ghost want = clip_lines(split_lines(s@), max_line_length as nat);
    assert(views(out@) =~= want.take(0));
    assert(views(raw@).len() == raw@.len());
    while i < raw.len()
        invariant
            i <= raw@.len(),
            views(raw@) == split_lines(s@),
            want == clip_lines(split_lines(s@), max_line_length as nat),
            want.len() == raw@.len(),
            out@.len() == i,
            views(out@) == want.take(i as int),
        decreases raw@.len() - i,
    {
        let clipped = truncate_line(raw[i].as_str(), max_line_length);
        proof {
            assert(views(raw@)[i as int] == raw@[i as int]@);
            assert(want[i as int] == clipped@);
            assert(views(out@.push(clipped)) =~= want.take(i + 1));
        }
        out.push(clipped);
        i += 1;
    }
    assert(want.take(raw@.len() as int) =~= want);
    out
}

/// Cuts one stream: see [`cut_stream`].
pub fn truncate_stream(
    s: &str,
    prefix_lines: usize,
    suffix_lines: usize,
    max_line_length: usize,
) -> (out: Stdout)
    requires
        byte_len(s@) < usize::MAX,
    ensures
        out@ == cut_stream(
            s@,
            prefix_lines as nat,
            suffix_lines as nat,
            max_line_length as nat,
        ),
{
    let shown = clipped_lines(s, max_line_length);
    let count: usize = shown.len();
    let ghost ls = views(shown@);
    proof {
        lemma_line_count_bound(s@);
        lemma_byte_len_lower(s@);
    }
    if count <= prefix_lines || count - prefix_lines <= suffix_lines {
        let head = join_range(&shown, 0, count);
        assert(ls.subrange(0, count as int) =~= ls);
        Stdout {
            head,
            tail: None,
            total_lines: count,
            head_end_line: count,
            tail_start_line: None,
            tail_end_line: None,
        }
    } else {
        let head = join_range(&shown, 0, prefix_lines);
        let tail = join_range(&shown, count - suffix_lines, count);
        assert(ls.subrange(0, prefix_lines as int) =~= ls.take(prefix_lines as int));
        assert(ls.subrange(count - suffix_lines, count as int) =~= ls.skip(count - suffix_lines));
        Stdout {
            head,
            tail: Some(tail),
            total_lines: count,
            head_end_line: prefix_lines,
            tail_start_line: Some(count - suffix_lines + 1),
            tail_end_line: Some(count),
        }
    }
}

/// Cuts the two streams of a command, each by itself: see [`cut_stream`].
pub fn truncate_shell_output(
    stdout: &str,
    stderr: &str,
    prefix_lines: usize,
    suffix_lines: usize,
    max_line_length: usize,
) -> (out: TruncatedShellOutput)
    requires
        byte_len(stdout@) < usize::MAX,
        byte_len(stderr@) < usize::MAX,
    ensures
        out.stdout@ == cut_stream(
            stdout@,
            prefix_lines as nat,
            suffix_lines as nat,
            max_line_length as nat,
        ),
        out.stderr@ == cut_stream(
            stderr@,
            prefix_lines as nat,
            suffix_lines as nat,
            max_line_length as nat,
        ),
{
    let o = truncate_stream(stdout, prefix_lines, suffix_lines, max_line_length);
    let e = truncate_stream(stderr, prefix_lines, suffix_lines, max_line_length);
    TruncatedShellOutput {
        stdout: o,
        stderr: Stderr {
            head: e.head,
            tail: e.tail,
            total_lines: e.total_lines,
            head_end_line: e.head_end_line,
            tail_start_line: e.tail_start_line,
            tail_end_line: e.tail_end_line,
        },
    }
}

} // verus!
