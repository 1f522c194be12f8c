use vstd::prelude::*;
use crate::decimal::{decimal, format_usize, push_decimal};
use crate::domain::{Environment, FSSearch, SearchResult};
use crate::element::{bare, cdata_wrap, Element, Markup};
use crate::lines::{join, join_lines, text_view};
use crate::stream::{format_range, range_text};
use crate::truncate_search::{
    match_lines, search_page, truncate_search_output, SearchPage, TruncatedSearchOutput,
    TruncationMode,
};

verus! {

/// The most lines of a page: the smaller of the general limit and the limit
/// that the request sets. A request without a limit, or with a negative one,
/// is held to the general limit alone, and to `i32::MAX` lines.
pub open spec fn search_cap(general: nat, requested: Option<i32>) -> nat {
    match requested {
        Some(n) => if 0 <= n && n < general {
            n as nat
        } else {
            general
        },
        None => if i32::MAX < general {
            i32::MAX as nat
        } else {
            general
        },
    }
}

/// Index of the first result of the page: one less than the number that the
/// request gives, which counts from 1, and 0 when it gives none or a number
/// below 1.
pub open spec fn search_start(requested: Option<i32>) -> nat {
    match requested {
        Some(n) => if n > 0 {
            (n - 1) as nat
        } else {
            0
        },
        None => 0,
    }
}

/// The range of results on a page, counting from 1; for an empty page its
/// two ends as they are.
pub open spec fn page_range_text(start: nat, end: nat) -> Seq<char> {
    if start < end {
        range_text(start + 1, end)
    } else {
        range_text(start, end)
    }
}

/// Why a page was cut short, if it was.
pub open spec fn reason_text(strategy: TruncationMode, max_bytes: nat, max_lines: nat) -> Option<
    Seq<char>,
> {
    match strategy {
        TruncationMode::Byte => Some(
            "Results truncated due to exceeding the "@ + decimal(max_bytes)
                + " bytes size limit. Please use a more specific search pattern"@,
        ),
        TruncationMode::Line => Some(
            "Results truncated due to exceeding the "@ + decimal(max_lines)
                + " lines limit. Please use a more specific search pattern"@,
        ),
        TruncationMode::Full => None,
    }
}

/// Attributes with one more at the end when there is a value for it.
pub open spec fn with_attr(
    attrs: Seq<(Seq<char>, Seq<char>)>,
    key: Seq<char>,
    value: Option<Seq<char>>,
) -> Seq<(Seq<char>, Seq<char>)> {
    match value {
        Some(v) => attrs.push((key, v)),
        None => attrs,
    }
}

/// A page of search results as an element: the path searched, the byte
/// budget, the number of all results, the range shown, the pattern and the
/// file pattern where the request has them, the reason where the page was
/// cut short, and the lines of the page as body.
pub open spec fn page_markup(input: FSSearch, max_bytes: nat, max_lines: nat, page: SearchPage)
    -> Markup {
    let fixed = seq![
        ("path"@, input.path@),
        ("max_bytes_allowed"@, decimal(max_bytes)),
        ("total_lines"@, decimal(page.total)),
        ("display_lines"@, page_range_text(page.start, page.end)),
    ];
    let asked = with_attr(
        with_attr(fixed, "regex"@, text_view(input.regex)),
        "file_pattern"@,
        text_view(input.file_pattern),
    );
    Markup {
        name: "search_results"@,
        attrs: with_attr(asked, "reason"@, reason_text(page.strategy, max_bytes, max_lines)),
        children: Seq::empty(),
        text: Some(cdata_wrap(join_lines(page.data))),
    }
}

/// A search without results as an element: the path searched, and the
/// pattern and the file pattern where the request has them. It has no body.
pub open spec fn no_results_markup(input: FSSearch) -> Markup {
    Markup {
        attrs: with_attr(
            with_attr(seq![("path"@, input.path@)], "regex"@, text_view(input.regex)),
            "file_pattern"@,
            text_view(input.file_pattern),
        ),
        ..bare("search_results"@)
    }
}

/// The most lines of a page: see [`search_cap`].
pub fn page_cap(general: usize, requested: Option<i32>) -> (out: usize)
    ensures
        out == search_cap(general as nat, requested),
{
    match requested {
        Some(n) => {
            if 0 <= n && (n as usize) < general {
                n as usize
            } else {
                general
            }
        },
        None => {
            if (i32::MAX as usize) < general {
                i32::MAX as usize
            } else {
                general
            }
        },
    }
}

/// Index of the first result of the page: see [`search_start`].
pub fn page_first(requested: Option<i32>) -> (out: usize)
    ensures
        out == search_start(requested),
{
    match requested {
        Some(n) => {
            if n > 0 {
                (n - 1) as usize
            } else {
                0
            }
        },
        None => 0,
    }
}

/// Writes the pattern and the file pattern of a request as attributes, where
/// it has them.
fn with_patterns(start: Element, input: &FSSearch) -> (out: Element)
    ensures
        out@ == (Markup {
            attrs: with_attr(
                with_attr(start@.attrs, "regex"@, text_view(input.regex)),
                "file_pattern"@,
                text_view(input.file_pattern),
            ),
            ..start@
        }),
{
    let with_regex = match &input.regex {
        Some(r) => start.attr("regex", r.as_str()),
        None => start,
    };
    match &input.file_pattern {
        Some(p) => with_regex.attr("file_pattern", p.as_str()),
        None => with_regex,
    }
}

/// Writes a page of search results as an element: see [`page_markup`].
pub fn page_element(
    input: &FSSearch,
    max_bytes: usize,
    max_lines: usize,
    page: &TruncatedSearchOutput,
) -> (out: Element)
    ensures
        out@ == page_markup(*input, max_bytes as nat, max_lines as nat, page@),
{
    let range = if page.start < page.end {
        format_range(page.start as u64 + 1, page.end as u64)
    } else {
        format_range(page.start as u64, page.end as u64)
    };
    let budget = format_usize(max_bytes);
    let count = format_usize(page.total);
    let fixed = Element::new("search_results").attr("path", input.path.as_str()).attr(
        "max_bytes_allowed",
        budget.as_str(),
    ).attr("total_lines", count.as_str()).attr("display_lines", range.as_str());
    assert(fixed@.attrs =~= seq![
        ("path"@, input.path@),
        ("max_bytes_allowed"@, decimal(max_bytes as nat)),
        ("total_lines"@, decimal(page@.total)),
        ("display_lines"@, page_range_text(page@.start, page@.end)),
    ]);
    let asked = with_patterns(fixed, input);
    let reasoned = match page.strategy {
        TruncationMode::Byte => {
            let mut reason = "Results truncated due to exceeding the ".to_owned();
            push_decimal(&mut reason, max_bytes as u64);
            reason.append(" bytes size limit. Please use a more specific search pattern");
            asked.attr("reason", reason.as_str())
        },
        TruncationMode::Line => {
            let mut reason = "Results truncated due to exceeding the ".to_owned();
            push_decimal(&mut reason, max_lines as u64);
            reason.append(" lines limit. Please use a more specific search pattern");
            asked.attr("reason", reason.as_str())
        },
        TruncationMode::Full => asked,
    };
    let body = join(&page.data);
    reasoned.cdata(body.as_str())
}

/// Writes a search without results as an element: see
/// [`no_results_markup`].
pub fn no_results_element(input: &FSSearch) -> (out: Element)
    ensures
        out@ == no_results_markup(*input),
{
    let start = Element::new("search_results").attr("path", input.path.as_str());
    assert(start@.attrs =~= seq![("path"@, input.path@)]);
    with_patterns(start, input)
}

/// The results of a search as an element: the page that the request and the
/// limits allow, its paths shown from the path searched, or the element for a
/// search without results.
pub open spec fn search_markup(input: FSSearch, output: Option<SearchResult>, env: Environment)
    -> Markup {
    match output {
        Some(found) => {
            let cap = search_cap(env.max_search_lines as nat, input.max_search_lines);
            page_markup(
                input,
                env.max_search_result_bytes as nat,
                cap,
                search_page(
                    match_lines(found.matches@, input.path@),
                    search_start(input.start_index),
                    cap,
                    env.max_search_result_bytes as nat,
                ),
            )
        },
        None => no_results_markup(input),
    }
}

/// Writes the results of a search as an element: see [`search_markup`].
pub fn search_element(input: &FSSearch, output: &Option<SearchResult>, env: &Environment) -> (out:
    Element)
    ensures
        out@ == search_markup(*input, *output, *env),
{
    match output {
        Some(found) => {
            let cap = page_cap(env.max_search_lines, input.max_search_lines);
            let first = page_first(input.start_index);
            let page = truncate_search_output(
                &found.matches,
                first,
                cap,
                env.max_search_result_bytes,
                input.path.as_str(),
            );
            page_element(input, env.max_search_result_bytes, cap, &page)
        },
        None => no_results_element(input),
    }
}

/// The range of a page that starts with the first result and is not empty
/// reads `1-` and the number of its last result.
pub proof fn lemma_first_page_range(end: nat)
    requires
        end >= 1,
    ensures
        page_range_text(0, end) == seq!['1', '-'] + decimal(end),
{
    reveal_strlit("-");
    assert(decimal(1) =~= seq!['1']);
    assert(page_range_text(0, end) =~= seq!['1', '-'] + decimal(end));
}

} // verus!
