use vstd::prelude::*;
use crate::decimal::{decimal, format_usize};
use crate::domain::{
    DiffResult, FSPatch, FSRead, FSUndo, FSWrite, FsCreateOutput, FsRemoveOutput,
    FsUndoOutput, PatchOutput, ReadOutput,
};
use crate::element::{bare, cdata_wrap, Element, Markup};
use crate::lines::{count_lines, line_count, text_view};
use crate::metrics::{FileChange, FileOperation, ToolKind};
use crate::numbering::{numbered, to_numbered_from};
use crate::stream::{format_range, range_text};

verus! {

/// What is shown of a file that was read: its content, with the number of
/// each line in front where that was asked for.
pub open spec fn read_text(input: FSRead, output: ReadOutput) -> Seq<char> {
    if input.show_line_numbers {
        numbered(output.content.text(), output.start_line as nat)
    } else {
        output.content.text()
    }
}

/// A file that was read, as an element: the path, the range of lines that
/// was read, the number of lines shown, and what is shown as body.
pub open spec fn read_markup(input: FSRead, output: ReadOutput) -> Markup {
    Markup {
        name: "file"@,
        attrs: seq![
            ("path"@, input.path@),
            ("display_lines"@, range_text(output.start_line as nat, output.end_line as nat)),
            ("total_lines"@, decimal(line_count(read_text(input, output)))),
        ],
        children: Seq::empty(),
        text: Some(cdata_wrap(read_text(input, output))),
    }
}

/// Writes a file that was read as an element: see [`read_markup`].
pub fn read_element(input: &FSRead, output: &ReadOutput) -> (out: Element)
    ensures
        out@ == read_markup(*input, *output),
{
    let content = output.content.file_content();
    let shown = if input.show_line_numbers {
        to_numbered_from(content, output.start_line)
    } else {
        content.to_owned()
    };
    let range = format_range(output.start_line, output.end_line);
    let count = format_usize(count_lines(shown.as_str()));
    let out = Element::new("file").attr("path", input.path.as_str()).attr(
        "display_lines",
        range.as_str(),
    ).attr("total_lines", count.as_str()).cdata(shown.as_str());
    assert(out@.attrs =~= read_markup(*input, *output).attrs);
    out
}

/// What reading a file records: the hash of what was read, and no lines
/// added or removed.
pub open spec fn read_change(tool: ToolKind, output: ReadOutput) -> FileChange {
    FileChange {
        lines_added: 0,
        lines_removed: 0,
        content_hash: Some(output.content_hash@),
        tool,
    }
}

/// What reading a file records: see [`read_change`].
pub fn read_operation(tool: ToolKind, output: &ReadOutput) -> (out: FileOperation)
    ensures
        out@ == read_change(tool, *output),
{
    FileOperation::new(tool).content_hash(Some(output.content_hash.clone()))
}

/// What a change to a file records: the lines that the diff adds and
/// removes, and the hash of the new content.
pub open spec fn diff_change(tool: ToolKind, diff: DiffResult, hash: Option<Seq<char>>)
    -> FileChange {
    FileChange {
        lines_added: diff.lines_added as nat,
        lines_removed: diff.lines_removed as nat,
        content_hash: hash,
        tool,
    }
}

/// What a change to a file records: see [`diff_change`].
pub fn diff_operation(tool: ToolKind, diff: &DiffResult, hash: Option<String>) -> (out:
    FileOperation)
    ensures
        out@ == diff_change(tool, *diff, text_view(hash)),
{
    FileOperation::new(tool).lines_added(diff.lines_added).lines_removed(
        diff.lines_removed,
    ).content_hash(hash)
}

/// A file that was written, as an element, given the diff as it is shown.
/// A file that existed before is `file_overwritten` and holds the diff as a
/// `file_diff` child; a new file is `file_created`. Both bear the path and
/// the number of lines written.
pub open spec fn create_markup(input: FSWrite, output: FsCreateOutput, diff_text: Seq<char>)
    -> Markup {
    let attrs = seq![
        ("path"@, input.path@),
        ("total_lines"@, decimal(line_count(input.content@))),
    ];
    if output.before is Some {
        Markup {
            name: "file_overwritten"@,
            attrs,
            children: seq![Markup { text: Some(cdata_wrap(diff_text)), ..bare("file_diff"@) }],
            text: None,
        }
    } else {
        Markup { attrs, ..bare("file_created"@) }
    }
}

/// Writes a file that was written as an element: see [`create_markup`].
pub fn create_element(input: &FSWrite, output: &FsCreateOutput, diff_text: &str) -> (out:
    Element)
    ensures
        out@ == create_markup(*input, *output, diff_text@),
{
    let start = if output.before.is_some() {
        let with_diff = Element::new("file_overwritten").append(
            Element::new("file_diff").cdata(diff_text),
        );
        assert(with_diff@.children =~= seq![
            Markup { text: Some(cdata_wrap(diff_text@)), ..bare("file_diff"@) },
        ]);
        with_diff
    } else {
        Element::new("file_created")
    };
    let count = format_usize(count_lines(input.content.as_str()));
    let out = start.attr("path", input.path.as_str()).attr("total_lines", count.as_str());
    assert(out@.attrs =~= create_markup(*input, *output, diff_text@).attrs);
    out
}

/// What removing a file records: the lines of what it held as removed, and
/// no hash, since the file is gone.
pub open spec fn remove_change(tool: ToolKind, output: FsRemoveOutput) -> FileChange {
    FileChange {
        lines_added: 0,
        lines_removed: line_count(output.content@),
        content_hash: None,
        tool,
    }
}

/// What removing a file records: see [`remove_change`].
pub fn remove_operation(tool: ToolKind, output: &FsRemoveOutput) -> (out: FileOperation)
    ensures
        out@ == remove_change(tool, *output),
{
    let removed = count_lines(output.content.as_str());
    FileOperation::new(tool).lines_removed(removed as u64).content_hash(None)
}

/// A file that was removed, as an element, given how its path is shown.
pub open spec fn remove_markup(shown_path: Seq<char>) -> Markup {
    Markup {
        attrs: seq![("path"@, shown_path), ("status"@, "completed"@)],
        ..bare("file_removed"@)
    }
}

/// Writes a file that was removed as an element: see [`remove_markup`].
pub fn remove_element(shown_path: &str) -> (out: Element)
    ensures
        out@ == remove_markup(shown_path@),
{
    let out = Element::new("file_removed").attr("path", shown_path).attr("status", "completed");
    assert(out@.attrs =~= remove_markup(shown_path@).attrs);
    out
}

/// A file that was patched, as an element, given the diff as it is shown:
/// the path, the number of lines after the patch, and the diff as body.
pub open spec fn patch_markup(input: FSPatch, output: PatchOutput, diff_text: Seq<char>)
    -> Markup {
    Markup {
        name: "file_diff"@,
        attrs: seq![
            ("path"@, input.path@),
            ("total_lines"@, decimal(line_count(output.after@))),
        ],
        children: Seq::empty(),
        text: Some(cdata_wrap(diff_text)),
    }
}

/// Writes a file that was patched as an element: see [`patch_markup`].
pub fn patch_element(input: &FSPatch, output: &PatchOutput, diff_text: &str) -> (out: Element)
    ensures
        out@ == patch_markup(*input, *output, diff_text@),
{
    let count = format_usize(count_lines(output.after.as_str()));
    let out = Element::new("file_diff").attr("path", input.path.as_str()).attr(
        "total_lines",
        count.as_str(),
    ).cdata(diff_text);
    assert(out@.attrs =~= patch_markup(*input, *output, diff_text@).attrs);
    out
}

/// An undone change as an element, given the diff as it is shown. Neither
/// state present: `no_changes`. Only the state after the undo: `created`,
/// with that content, its lines numbered from 1. Only the state before:
/// `removed`, with that content. Both: `restored`, with the diff.
pub open spec fn undo_markup(input: FSUndo, output: FsUndoOutput, diff_text: Seq<char>) -> Markup {
    match (output.before_undo, output.after_undo) {
        (None, None) => Markup {
            attrs: seq![("path"@, input.path@), ("status"@, "no_changes"@)],
            ..bare("file_undo"@)
        },
        (None, Some(after)) => Markup {
            name: "file_undo"@,
            attrs: seq![
                ("path"@, input.path@),
                ("status"@, "created"@),
                ("total_lines"@, decimal(line_count(after@))),
            ],
            children: Seq::empty(),
            text: Some(cdata_wrap(numbered(after@, 1))),
        },
        (Some(before), None) => Markup {
            name: "file_undo"@,
            attrs: seq![
                ("path"@, input.path@),
                ("status"@, "removed"@),
                ("total_lines"@, decimal(line_count(before@))),
            ],
            children: Seq::empty(),
            text: Some(cdata_wrap(before@)),
        },
        (Some(_), Some(_)) => Markup {
            name: "file_undo"@,
            attrs: seq![("path"@, input.path@), ("status"@, "restored"@)],
            children: Seq::empty(),
            text: Some(cdata_wrap(diff_text)),
        },
    }
}

/// Writes an undone change as an element: see [`undo_markup`].
pub fn undo_element(input: &FSUndo, output: &FsUndoOutput, diff_text: &str) -> (out: Element)
    ensures
        out@ == undo_markup(*input, *output, diff_text@),
{
    let start = Element::new("file_undo").attr("path", input.path.as_str());
    match (&output.before_undo, &output.after_undo) {
        (None, None) => {
            let out = start.attr("status", "no_changes");
            assert(out@.attrs =~= undo_markup(*input, *output, diff_text@).attrs);
            out
        },
        (None, Some(after)) => {
            let count = format_usize(count_lines(after.as_str()));
            let shown = to_numbered_from(after.as_str(), 1);
            let out = start.attr("status", "created").attr("total_lines", count.as_str()).cdata(
                shown.as_str(),
            );
            assert(out@.attrs =~= undo_markup(*input, *output, diff_text@).attrs);
            out
        },
        (Some(before), None) => {
            let count = format_usize(count_lines(before.as_str()));
            let out = start.attr("status", "removed").attr("total_lines", count.as_str()).cdata(
                before.as_str(),
            );
            assert(out@.attrs =~= undo_markup(*input, *output, diff_text@).attrs);
            out
        },
        (Some(_), Some(_)) => {
            let out = start.attr("status", "restored").cdata(diff_text);
            assert(out@.attrs =~= undo_markup(*input, *output, diff_text@).attrs);
            out
        },
    }
}

} // verus!
