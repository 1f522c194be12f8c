use vstd::prelude::*;
use crate::budget::{fit_count, lemma_fit_all, lemma_fit_count, lemma_fit_count_unique, total};
use crate::decimal::{decimal, push_decimal};
use crate::domain::{Match, MatchResult};
use crate::lines::views;
use crate::paths::{display_path, format_display_path};
use crate::platform::path_without_prefix;
use crate::width::{byte_len, byte_length};

verus! {

/// Which limit, if any, cut a page of search results short.
#[derive(Clone, Copy, Debug, PartialEq, Eq)]
pub enum TruncationMode {
    /// The byte budget was reached before the page was full.
    Byte,
    /// The page is full and more lines follow it.
    Line,
    /// Nothing was left out after the page's start.
    Full,
}

/// One page of search results.
#[derive(Debug)]
pub struct TruncatedSearchOutput {
    /// The lines of the page, in order.
    pub data: Vec<String>,
    /// Index of the page's first line among all lines.
    pub start: usize,
    /// Index after the page's last line among all lines.
    pub end: usize,
    /// Number of all lines.
    pub total: usize,
    /// Which limit cut the page short.
    pub strategy: TruncationMode,
}

/// A page of search results as plain values.
pub struct SearchPage {
    pub data: Seq<Seq<char>>,
    pub start: nat,
    pub end: nat,
    pub total: nat,
    pub strategy: TruncationMode,
}

impl View for TruncatedSearchOutput {
    type V = SearchPage;

    open spec fn view(&self) -> SearchPage {
        SearchPage {
            data: views(self.data@),
            start: self.start as nat,
            end: self.end as nat,
            total: self.total as nat,
            strategy: self.strategy,
        }
    }
}

/// The byte length of each line.
pub open spec fn byte_lens(lines: Seq<Seq<char>>) -> Seq<nat> {
    lines.map_values(|l: Seq<char>| byte_len(l))
}

/// Where a page starts: at the requested index, or at the end when the
/// request lies beyond it.
pub open spec fn page_start(count: nat, start_index: nat) -> nat {
    if start_index < count {
        start_index
    } else {
        count
    }
}

/// The lines that a page may hold at most: up to `max_lines` lines from the
/// page's start.
pub open spec fn page_window(lines: Seq<Seq<char>>, start_index: nat, max_lines: nat) -> Seq<
    Seq<char>,
> {
    let start = page_start(lines.len(), start_index);
    let len = if max_lines < lines.len() - start {
        max_lines
    } else {
        (lines.len() - start) as nat
    };
    lines.subrange(start as int, (start + len) as int)
}

/// The page of `lines` that starts at `start_index`, holds at most `max_lines`
/// lines and stops before the first line with which the lines of the page
/// would together take more than `max_bytes` bytes.
pub open spec fn search_page(
    lines: Seq<Seq<char>>,
    start_index: nat,
    max_lines: nat,
    max_bytes: nat,
) -> SearchPage {
    let start = page_start(lines.len(), start_index);
    let window = page_window(lines, start_index, max_lines);
    let emitted = fit_count(byte_lens(window), max_bytes);
    SearchPage {
        data: window.take(emitted as int),
        start,
        end: start + emitted,
        total: lines.len(),
        strategy: if emitted < window.len() {
            TruncationMode::Byte
        } else if start_index + max_lines < lines.len() {
            TruncationMode::Line
        } else {
            TruncationMode::Full
        },
    }
}

/// Cuts a page out of `lines`: see [`search_page`].
pub fn truncate_lines(
    lines: &Vec<String>,
    start_index: usize,
    max_lines: usize,
    max_bytes: usize,
) -> (out: TruncatedSearchOutput)
    ensures
        out@ == search_page(views(lines@), start_index as nat, max_lines as nat, max_bytes as nat),
{
    let count: usize = lines.len();
    let start: usize = if start_index < count {
        start_index
    } else {
        count
    };
    let len: usize = if max_lines < count - start {
        max_lines
    } else {
        count - start
    };
    let ghost window = page_window(views(lines@), start_index as nat, max_lines as nat);
    let ghost sizes = byte_lens(window);
    let mut data: Vec<String> = Vec::new();
    let mut used: usize = 0;
    let mut i: usize = 0;
    assert(views(data@) =~= window.take(0));
    assert(sizes.take(0) =~= Seq::<nat>::empty());
    let mut stopped = false;
    while i < len && !stopped
        invariant
            count == lines@.len(),
            start + len <= count,
            window == views(lines@).subrange(start as int, start + len),
            sizes == byte_lens(window),
            i <= len,
            views(data@) == window.take(i as int),
            data@.len() == i,
            used == total(sizes.take(i as int)),
            used <= max_bytes,
            stopped ==> i < len && total(sizes.take(i + 1)) > max_bytes,
        decreases len - i + if stopped { 0int } else { 1int },
    {
        let line = &lines[start + i];
        let size: usize = byte_length(line.as_str());
        proof {
            assert(window[i as int] == line@);
            assert(sizes[i as int] == size);
            assert(sizes.take(i + 1).drop_last() =~= sizes.take(i as int));
        }
        if size > max_bytes - used {
            stopped = true;
        } else {
            used = used + size;
            let copy = line.clone();
            assert(views(data@.push(copy)) =~= window.take(i + 1));
            data.push(copy);
            i += 1;
        }
    }
    proof {
        lemma_fit_count_unique(sizes, max_bytes as nat, i as int);
    }
    let strategy = if i < len {
        TruncationMode::Byte
    } else if start_index < count && max_lines < count - start_index {
        TruncationMode::Line
    } else {
        TruncationMode::Full
    };
    TruncatedSearchOutput { data, start, end: start + i, total: count, strategy }
}


/// A search result as one line, given how its path is shown: the path, the
/// line number and the line for something found; the path alone where
/// nothing is told of the place; a note with the whole path for an error.
pub open spec fn match_line(m: Match, shown_path: Seq<char>) -> Seq<char> {
    match m.result {
        Some(MatchResult::Error(e)) => "Error reading "@ + m.path@ + ": "@ + e@,
        Some(MatchResult::Found { line_number, line }) => shown_path + ":"@ + decimal(
            line_number as nat,
        ) + ":"@ + line@,
        None => shown_path,
    }
}

/// A search result as one line, its path shown from `base`.
pub open spec fn match_line_from(m: Match, base: Seq<char>) -> Seq<char> {
    match_line(m, display_path(m.path@, path_without_prefix(m.path@, base)))
}

/// Search results as lines, their paths shown from `base`.
pub open spec fn match_lines(ms: Seq<Match>, base: Seq<char>) -> Seq<Seq<char>> {
    ms.map_values(|m: Match| match_line_from(m, base))
}

/// Writes a search result as one line, given how its path is shown: see
/// [`match_line`].
pub fn format_match_with(m: &Match, shown_path: &str) -> (out: String)
    ensures
        out@ == match_line(*m, shown_path@),
{
    match &m.result {
        Some(MatchResult::Error(e)) => {
            let mut out = "Error reading ".to_owned();
            out.append(m.path.as_str());
            out.append(": ");
            out.append(e.as_str());
            out
        },
        Some(MatchResult::Found { line_number, line }) => {
            let mut out = shown_path.to_owned();
            out.append(":");
            push_decimal(&mut out, *line_number as u64);
            out.append(":");
            out.append(line.as_str());
            out
        },
        None => shown_path.to_owned(),
    }
}

/// Writes a search result as one line, its path shown from `base`.
pub fn format_match(m: &Match, base: &str) -> (out: String)
    ensures
        out@ == match_line_from(*m, base@),
{
    let shown = format_display_path(m.path.as_str(), base);
    format_match_with(m, shown.as_str())
}

/// Writes search results as lines, their paths shown from `base`.
pub fn format_matches(output: &Vec<Match>, base: &str) -> (out: Vec<String>)
    ensures
        views(out@) == match_lines(output@, base@),
{
    let mut out: Vec<String> = Vec::new();
    let mut i: usize = 0;
    let ghost want = match_lines(output@, base@);
    assert(views(out@) =~= want.take(0));
    while i < output.len()
        invariant
            i <= output@.len(),
            want == match_lines(output@, base@),
            out@.len() == i,
            views(out@) == want.take(i as int),
        decreases output@.len() - i,
    {
        let line = format_match(&output[i], base);
        proof {
            assert(want[i as int] == line@);
            assert(views(out@.push(line)) =~= want.take(i + 1));
        }
        out.push(line);
        i += 1;
    }
    assert(want.take(output@.len() as int) =~= want);
    out
}

/// Cuts a page out of search results written as lines, their paths shown
/// from `search_dir`: see [`search_page`].
pub fn truncate_search_output(
    output: &Vec<Match>,
    start_index: usize,
    max_lines: usize,
    max_bytes: usize,
    search_dir: &str,
) -> (out: TruncatedSearchOutput)
    ensures
        out@ == search_page(
            match_lines(output@, search_dir@),
            start_index as nat,
            max_lines as nat,
            max_bytes as nat,
        ),
{
    let all = format_matches(output, search_dir);
    truncate_lines(&all, start_index, max_lines, max_bytes)
}

/// A page lies inside the lines it was cut from: its ends are in order and
/// within the total, it holds the lines between its ends, at most `max_lines`
/// of them, and they take at most `max_bytes` bytes.
pub proof fn lemma_page_bounds(
    lines: Seq<Seq<char>>,
    start_index: nat,
    max_lines: nat,
    max_bytes: nat,
)
    ensures
        ({
            let p = search_page(lines, start_index, max_lines, max_bytes);
            &&& p.start <= p.end <= p.total
            &&& p.total == lines.len()
            &&& p.data == lines.subrange(p.start as int, p.end as int)
            &&& p.data.len() <= max_lines
            &&& total(byte_lens(p.data)) <= max_bytes
            &&& start_index <= lines.len() ==> p.start == start_index
        }),
{
    let window = page_window(lines, start_index, max_lines);
    let emitted = fit_count(byte_lens(window), max_bytes) as int;
    let p = search_page(lines, start_index, max_lines, max_bytes);
    lemma_fit_count(byte_lens(window), max_bytes);
    assert(p.data =~= lines.subrange(p.start as int, p.end as int));
    assert(byte_lens(window).take(emitted) =~= byte_lens(p.data));
}

/// The page reaches the end of the lines exactly when its strategy is `Full`.
pub proof fn lemma_full_iff_complete(
    lines: Seq<Seq<char>>,
    start_index: nat,
    max_lines: nat,
    max_bytes: nat,
)
    ensures
        ({
            let p = search_page(lines, start_index, max_lines, max_bytes);
            p.strategy == TruncationMode::Full <==> p.end == p.total
        }),
{
    let window = page_window(lines, start_index, max_lines);
    lemma_fit_count(byte_lens(window), max_bytes);
}

/// The byte budget comes first: when the lines that the page could hold take
/// more than `max_bytes` bytes, the strategy is `Byte` and the page holds
/// fewer lines than `max_lines` and the lines left from its start allow.
pub proof fn lemma_byte_budget_first(
    lines: Seq<Seq<char>>,
    start_index: nat,
    max_lines: nat,
    max_bytes: nat,
)
    ensures
        ({
            let p = search_page(lines, start_index, max_lines, max_bytes);
            let window = page_window(lines, start_index, max_lines);
            &&& total(byte_lens(window)) > max_bytes <==> p.strategy == TruncationMode::Byte
            &&& p.strategy == TruncationMode::Byte ==> p.data.len() < max_lines && p.data.len()
                < lines.len() - p.start
        }),
{
    let window = page_window(lines, start_index, max_lines);
    lemma_fit_all(byte_lens(window), max_bytes);
    lemma_fit_count(byte_lens(window), max_bytes);
}

/// A page from the first line on, with room for every line and every byte,
/// holds all lines, and its strategy is `Full`.
pub proof fn lemma_full_page(lines: Seq<Seq<char>>, max_lines: nat, max_bytes: nat)
    requires
        lines.len() <= max_lines,
        total(byte_lens(lines)) <= max_bytes,
    ensures
        search_page(lines, 0, max_lines, max_bytes) == (SearchPage {
            data: lines,
            start: 0,
            end: lines.len(),
            total: lines.len(),
            strategy: TruncationMode::Full,
        }),
{
    let window = page_window(lines, 0, max_lines);
    assert(window =~= lines);
    lemma_fit_all(byte_lens(window), max_bytes);
    assert(window.take(lines.len() as int) =~= lines);
}

} // verus!
