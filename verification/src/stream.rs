use vstd::prelude::*;
use crate::decimal::{decimal, format_usize, push_decimal};
use crate::element::{bare, cdata_wrap, Element, Markup};
use crate::truncate_shell::{line_number, Stderr, Stdout, StreamCut};

verus! {

/// A cut stream that can be written as an element.
pub trait StreamElement {
    /// The stream's name.
    spec fn name(&self) -> Seq<char>;

    /// What is shown of the stream.
    spec fn cut(&self) -> StreamCut;

    fn stream_name(&self) -> (out: &'static str)
        ensures
            out@ == self.name(),
    ;

    fn head_content(&self) -> (out: &str)
        ensures
            out@ == self.cut().head,
    ;

    fn tail_content(&self) -> (out: Option<&str>)
        ensures
            match out {
                Some(t) => self.cut().tail == Some(t@),
                None => self.cut().tail is None,
            },
    ;

    fn total_lines(&self) -> (out: usize)
        ensures
            out == self.cut().total_lines,
    ;

    fn head_end_line(&self) -> (out: usize)
        ensures
            out == self.cut().head_end_line,
    ;

    fn tail_start_line(&self) -> (out: Option<usize>)
        ensures
            line_number(out) == self.cut().tail_start_line,
    ;

    fn tail_end_line(&self) -> (out: Option<usize>)
        ensures
            line_number(out) == self.cut().tail_end_line,
    ;
}

impl StreamElement for Stdout {
    open spec fn name(&self) -> Seq<char> {
        "stdout"@
    }

    open spec fn cut(&self) -> StreamCut {
        self@
    }

    fn stream_name(&self) -> (out: &'static str) {
        "stdout"
    }

    fn head_content(&self) -> (out: &str) {
        self.head.as_str()
    }

    fn tail_content(&self) -> (out: Option<&str>) {
        match &self.tail {
            Some(t) => Some(t.as_str()),
            None => None,
        }
    }

    fn total_lines(&self) -> (out: usize) {
        self.total_lines
    }

    fn head_end_line(&self) -> (out: usize) {
        self.head_end_line
    }

    fn tail_start_line(&self) -> (out: Option<usize>) {
        self.tail_start_line
    }

    fn tail_end_line(&self) -> (out: Option<usize>) {
        self.tail_end_line
    }
}

impl StreamElement for Stderr {
    open spec fn name(&self) -> Seq<char> {
        "stderr"@
    }

    open spec fn cut(&self) -> StreamCut {
        self@
    }

    fn stream_name(&self) -> (out: &'static str) {
        "stderr"
    }

    fn head_content(&self) -> (out: &str) {
        self.head.as_str()
    }

    fn tail_content(&self) -> (out: Option<&str>) {
        match &self.tail {
            Some(t) => Some(t.as_str()),
            None => None,
        }
    }

    fn total_lines(&self) -> (out: usize) {
        self.total_lines
    }

    fn head_end_line(&self) -> (out: usize) {
        self.head_end_line
    }

    fn tail_start_line(&self) -> (out: Option<usize>) {
        self.tail_start_line
    }

    fn tail_end_line(&self) -> (out: Option<usize>) {
        self.tail_end_line
    }
}

/// A range of line numbers as text: the first, a hyphen, the last.
pub open spec fn range_text(first: nat, last: nat) -> Seq<char> {
    decimal(first) + "-"@ + decimal(last)
}

/// Writes a range of line numbers: see [`range_text`].
pub fn format_range(first: u64, last: u64) -> (out: String)
    ensures
        out@ == range_text(first as nat, last as nat),
{
    let mut out = String::new();
    push_decimal(&mut out, first);
    out.append("-");
    push_decimal(&mut out, last);
    assert(out@ =~= range_text(first as nat, last as nat));
    out
}

/// A part of a stream as an element: its lines with their range.
pub open spec fn part_markup(name: Seq<char>, first: nat, last: nat, text: Seq<char>) -> Markup {
    Markup {
        name,
        attrs: seq![("display_lines"@, range_text(first, last))],
        children: Seq::empty(),
        text: Some(cdata_wrap(text)),
    }
}

/// A cut stream as an element, or `None` when its head is empty. The element
/// bears the stream's name and its number of lines. Where lines were left
/// out, it holds the head and the tail as children, each with its range of
/// lines; else its body is the head. Last comes the path of the whole
/// output, when there is one.
pub open spec fn stream_markup(name: Seq<char>, cut: StreamCut, full_output: Option<Seq<char>>)
    -> Option<Markup> {
    if cut.head.len() == 0 {
        None
    } else {
        let counted = Markup {
            attrs: seq![("total_lines"@, decimal(cut.total_lines))],
            ..bare(name)
        };
        let filled = if cut.tail is Some && cut.tail_start_line is Some && cut.tail_end_line
            is Some {
            Markup {
                children: seq![
                    part_markup("head"@, 1, cut.head_end_line, cut.head),
                    part_markup(
                        "tail"@,
                        cut.tail_start_line->0,
                        cut.tail_end_line->0,
                        cut.tail->0,
                    ),
                ],
                ..counted
            }
        } else {
            Markup { text: Some(cdata_wrap(cut.head)), ..counted }
        };
        Some(
            match full_output {
                Some(path) => Markup { attrs: filled.attrs.push(("full_output"@, path)), ..filled },
                None => filled,
            },
        )
    }
}

/// Writes a part of a stream as an element: see [`part_markup`].
pub fn part_element(name: &str, first: usize, last: usize, text: &str) -> (out: Element)
    ensures
        out@ == part_markup(name@, first as nat, last as nat, text@),
{
    let range = format_range(first as u64, last as u64);
    let out = Element::new(name).attr("display_lines", range.as_str()).cdata(text);
    assert(out@.attrs =~= seq![("display_lines"@, range_text(first as nat, last as nat))]);
    out
}

/// Writes a cut stream as an element: see [`stream_markup`].
pub fn create_stream_element<T: StreamElement>(stream: &T, full_output_path: Option<&str>) -> (out:
    Option<Element>)
    ensures
        match out {
            Some(e) => stream_markup(stream.name(), stream.cut(), text_view_str(full_output_path))
                == Some(e@),
            None => stream_markup(stream.name(), stream.cut(), text_view_str(full_output_path))
                is None,
        },
{
    if stream.head_content().unicode_len() == 0 {
        return None;
    }
    let count = format_usize(stream.total_lines());
    let mut elem = Element::new(stream.stream_name()).attr("total_lines", count.as_str());
    assert(elem@.attrs =~= seq![("total_lines"@, decimal(stream.cut().total_lines))]);
    let tail = stream.tail_content();
    let tail_start = stream.tail_start_line();
    let tail_end = stream.tail_end_line();
    elem = match (tail, tail_start, tail_end) {
        (Some(tail), Some(tail_start), Some(tail_end)) => {
            let head = part_element("head", 1, stream.head_end_line(), stream.head_content());
            let rest = part_element("tail", tail_start, tail_end, tail);
            let with_head = elem.append(head);
            let with_both = with_head.append(rest);
            assert(with_both@.children =~= seq![head@, rest@]);
            with_both
        },
        _ => elem.cdata(stream.head_content()),
    };
    match full_output_path {
        Some(path) => {
            elem = elem.attr("full_output", path);
        },
        None => {},
    }
    Some(elem)
}

/// The view of an optional text slice.
pub open spec fn text_view_str(s: Option<&str>) -> Option<Seq<char>> {
    match s {
        Some(s) => Some(s@),
        None => None,
    }
}

} // verus!
