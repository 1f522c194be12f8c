use std::sync::Arc;
use vstd::multiset::Multiset;
use vstd::prelude::*;
use crate::domain::Image;
use crate::lines::{join_lines, join_range, lines, split_lines, text_eq, text_view, views};
use crate::numbering::{numbered, to_numbered_from};
use crate::paths::{display_path, format_display_path};
use crate::platform::path_without_prefix;
use crate::stream::text_view_str;
use crate::text_order::{
    lemma_text_le_total, lemma_text_le_transitive, text_before_or_same, text_le,
};

verus! {

/// An entry of a directory that is attached.
#[derive(Debug, Clone)]
pub struct DirectoryEntry {
    pub path: String,
    pub is_dir: bool,
}

/// What an attachment holds.
#[derive(Debug)]
pub enum AttachmentContent {
    Image(Image),
    FileContent { content: String, start_line: u64, end_line: u64, total_lines: u64 },
    DirectoryListing { entries: Vec<DirectoryEntry> },
}

/// Something attached to a message, with the path it was read from.
#[derive(Debug)]
pub struct Attachment {
    pub content: AttachmentContent,
    pub path: String,
}

/// Which lines of a file were read.
#[derive(Debug, Clone, Copy)]
pub struct FileInfo {
    pub start_line: u64,
    pub end_line: u64,
    pub total_lines: u64,
}

/// What is to be read for an attachment.
#[derive(Debug)]
pub enum AttachmentKind {
    /// The entries of a directory.
    Directory,
    /// The bytes of an image of the given type.
    Image(String),
    /// Lines of a text file.
    Text,
}

/// Prepares the attachments of a chat request with what `infra` reads.
#[derive(Debug)]
pub struct PawsChatRequest<F> {
    pub infra: Arc<F>,
}

impl<F> PawsChatRequest<F> {
    /// A service over `infra`.
    pub fn new(infra: Arc<F>) -> (out: Self)
        ensures
            out.infra == infra,
    {
        PawsChatRequest { infra }
    }
}

/// The type of the image that a file with the given extension holds, if the
/// extension is one of an image.
pub open spec fn image_type(extension: Option<Seq<char>>) -> Option<Seq<char>> {
    match extension {
        Some(e) => if e == "jpeg"@ || e == "jpg"@ {
            Some("image/jpeg"@)
        } else if e == "png"@ {
            Some("image/png"@)
        } else if e == "webp"@ {
            Some("image/webp"@)
        } else {
            None
        },
        None => None,
    }
}

/// The type of the image that a file with the given extension holds: see
/// [`image_type`].
pub fn image_mime_type(extension: Option<&str>) -> (out: Option<String>)
    ensures
        text_view(out) == image_type(text_view_str(extension)),
{
    match extension {
        Some(e) => {
            if text_eq(e, "jpeg") || text_eq(e, "jpg") {
                Some("image/jpeg".to_owned())
            } else if text_eq(e, "png") {
                Some("image/png".to_owned())
            } else if text_eq(e, "webp") {
                Some("image/webp".to_owned())
            } else {
                None
            }
        },
        None => None,
    }
}

/// What is to be read for a path: the entries, where it exists and is no
/// file; else the image, where its extension is one of an image; else lines
/// of text.
pub fn classify(exists: bool, is_file: bool, extension: Option<&str>) -> (out: AttachmentKind)
    ensures
        exists && !is_file ==> out is Directory,
        !(exists && !is_file) ==> match image_type(text_view_str(extension)) {
            Some(mime) => out is Image && out->Image_0@ == mime,
            None => out is Text,
        },
{
    if exists && !is_file {
        AttachmentKind::Directory
    } else {
        match image_mime_type(extension) {
            Some(mime) => AttachmentKind::Image(mime),
            None => AttachmentKind::Text,
        }
    }
}

/// An entry comes before another or is like it: directories come before
/// files, and among each the paths are in the order of strings.
pub open spec fn entry_le(a: DirectoryEntry, b: DirectoryEntry) -> bool {
    if a.is_dir != b.is_dir {
        a.is_dir
    } else {
        text_le(a.path@, b.path@)
    }
}

/// Each entry comes before all later ones or is like them.
pub open spec fn in_order(entries: Seq<DirectoryEntry>) -> bool {
    forall|i: int, j: int|
        0 <= i < j < entries.len() ==> entry_le(#[trigger] entries[i], #[trigger] entries[j])
}

/// Whether an entry comes before another or is like it: see [`entry_le`].
pub fn entry_before_or_same(a: &DirectoryEntry, b: &DirectoryEntry) -> (out: bool)
    ensures
        out == entry_le(*a, *b),
{
    if a.is_dir != b.is_dir {
        a.is_dir
    } else {
        text_before_or_same(a.path.as_str(), b.path.as_str())
    }
}

/// Putting a value in a sequence adds it to what the sequence holds.
proof fn lemma_insert_holds<A>(s: Seq<A>, i: int, v: A)
    requires
        0 <= i <= s.len(),
    ensures
        s.insert(i, v).to_multiset() == s.to_multiset().insert(v),
{
    broadcast use vstd::seq_lib::group_to_multiset_ensures;

    let t = s.insert(i, v);
    assert(t.remove(i) =~= s);
    assert(t[i] == v);
    assert(t.remove(i).to_multiset() =~= t.to_multiset().remove(v));
    assert(t.to_multiset().count(v) > 0) by {
        assert(t.contains(v));
    }
    assert(t.to_multiset() =~= s.to_multiset().insert(v));
}

/// Puts entries in order: directories first, then files, each by path. The
/// result holds the entries that were given, each as often as it was given.
pub fn sort_entries(entries: Vec<DirectoryEntry>) -> (out: Vec<DirectoryEntry>)
    ensures
        in_order(out@),
        out@.to_multiset() == entries@.to_multiset(),
{
    let mut out: Vec<DirectoryEntry> = Vec::new();
    let mut rest = entries;
    proof {
        broadcast use vstd::seq_lib::group_to_multiset_ensures;

        assert(out@.to_multiset().len() == 0);
        assert(out@.to_multiset() =~= Multiset::<DirectoryEntry>::empty());
        assert(out@.to_multiset().add(rest@.to_multiset()) =~= entries@.to_multiset());
    }
    while rest.len() > 0
        invariant
            in_order(out@),
            out@.to_multiset().add(rest@.to_multiset()) == entries@.to_multiset(),
        decreases rest@.len(),
    {
        let ghost before_rest = rest@;
        let ghost before_out = out@;
        let entry = rest.pop().unwrap();
        proof {
            broadcast use vstd::seq_lib::group_to_multiset_ensures;

            assert(before_rest =~= rest@.push(entry));
            assert(before_rest.to_multiset() =~= rest@.to_multiset().insert(entry));
        }
        let mut p: usize = 0;
        while p < out.len() && entry_before_or_same(&out[p], &entry)
            invariant
                p <= out@.len(),
                out@ == before_out,
                forall|k: int| 0 <= k < p ==> entry_le(#[trigger] out@[k], entry),
            decreases out@.len() - p,
        {
            p += 1;
        }
        proof {
            lemma_insert_holds(out@, p as int, entry);
            let after = out@.insert(p as int, entry);
            assert forall|i: int, j: int| 0 <= i < j < after.len() implies entry_le(
                #[trigger] after[i],
                #[trigger] after[j],
            ) by {
                if j == p {
                    assert(after[i] == before_out[i]);
                } else if i == p {
                    assert(after[j] == before_out[j - 1]);
                    lemma_text_le_total(before_out[p as int].path@, entry.path@);
                    assert(entry_le(entry, before_out[p as int]));
                    if j - 1 > p {
                        assert(entry_le(before_out[p as int], before_out[j - 1]));
                        lemma_entry_le_transitive(entry, before_out[p as int], before_out[j - 1]);
                    }
                } else if i < p && j < p {
                    assert(after[i] == before_out[i] && after[j] == before_out[j]);
                } else if i < p && j > p {
                    assert(after[i] == before_out[i] && after[j] == before_out[j - 1]);
                } else {
                    assert(after[i] == before_out[i - 1] && after[j] == before_out[j - 1]);
                }
            }
            assert(after.to_multiset().add(rest@.to_multiset()) =~= before_out.to_multiset().add(
                before_rest.to_multiset(),
            ));
        }
        out.insert(p, entry);
    }
    proof {
        broadcast use vstd::seq_lib::group_to_multiset_ensures;

        assert(rest@ =~= Seq::<DirectoryEntry>::empty());
        assert(out@.to_multiset().add(rest@.to_multiset()) =~= out@.to_multiset());
    }
    out
}

/// The order of entries carries over.
pub proof fn lemma_entry_le_transitive(a: DirectoryEntry, b: DirectoryEntry, c: DirectoryEntry)
    requires
        entry_le(a, b),
        entry_le(b, c),
    ensures
        entry_le(a, c),
{
    if a.is_dir == b.is_dir && b.is_dir == c.is_dir {
        lemma_text_le_transitive(a.path@, b.path@, c.path@);
    }
}

/// An entry of a directory as it is listed: its path shown from the
/// directory.
pub open spec fn listed(directory: Seq<char>, given: (String, bool), entry: DirectoryEntry)
    -> bool {
    entry.is_dir == given.1 && entry.path@ == display_path(
        given.0@,
        path_without_prefix(given.0@, directory),
    )
}

/// The entries of a directory as they are listed, in the order given.
pub open spec fn all_listed(
    directory: Seq<char>,
    given: Seq<(String, bool)>,
    entries: Seq<DirectoryEntry>,
) -> bool {
    entries.len() == given.len() && forall|k: int|
        0 <= k < given.len() ==> listed(directory, given[k], #[trigger] entries[k])
}

/// The listing of a directory: its entries, given as path and kind, each
/// shown from the directory, and put in order. See [`in_order`].
pub fn directory_listing(directory: &str, entries: &Vec<(String, bool)>) -> (out: Attachment)
    ensures
        out.path@ == directory@,
        out.content is DirectoryListing,
        in_order(out.content->DirectoryListing_entries@),
        exists|shown: Seq<DirectoryEntry>|
            all_listed(directory@, entries@, shown)
                && out.content->DirectoryListing_entries@.to_multiset()
                == #[trigger] shown.to_multiset(),
{
    let mut shown: Vec<DirectoryEntry> = Vec::new();
    let mut i: usize = 0;
    while i < entries.len()
        invariant
            i <= entries@.len(),
            shown@.len() == i,
            forall|k: int| 0 <= k < i ==> listed(directory@, entries@[k], #[trigger] shown@[k]),
        decreases entries@.len() - i,
    {
        let path = format_display_path(entries[i].0.as_str(), directory);
        shown.push(DirectoryEntry { path, is_dir: entries[i].1 });
        i += 1;
    }
    let ghost unsorted = shown@;
    let sorted = sort_entries(shown);
    proof {
        assert(all_listed(directory@, entries@, unsorted));
        assert(sorted@.to_multiset() == unsorted.to_multiset());
    }
    Attachment {
        content: AttachmentContent::DirectoryListing { entries: sorted },
        path: directory.to_owned(),
    }
}

/// The lines that were read of a file, as an attachment: the content with
/// the number of each line in front of it, counted from the first line that
/// was read.
pub fn file_attachment(path: &str, content: &str, info: &FileInfo) -> (out: Attachment)
    ensures
        out.path@ == path@,
        out.content is FileContent,
        out.content->FileContent_content@ == numbered(content@, info.start_line as nat),
        out.content->FileContent_start_line == info.start_line,
        out.content->FileContent_end_line == info.end_line,
        out.content->FileContent_total_lines == info.total_lines,
{
    Attachment {
        content: AttachmentContent::FileContent {
            content: to_numbered_from(content, info.start_line),
            start_line: info.start_line,
            end_line: info.end_line,
            total_lines: info.total_lines,
        },
        path: path.to_owned(),
    }
}

/// An image as an attachment.
pub fn image_attachment(path: &str, image: Image) -> (out: Attachment)
    ensures
        out.path@ == path@,
        out.content == AttachmentContent::Image(image),
{
    Attachment { content: AttachmentContent::Image(image), path: path.to_owned() }
}

/// The sum of two numbers, held at the largest number there is.
pub open spec fn held_sum(a: u64, b: u64) -> u64 {
    if a + b > u64::MAX {
        u64::MAX
    } else {
        (a + b) as u64
    }
}

/// The lines to read of a file, first and last, for the lines that were asked
/// for. The first line is at least 1. Without a last line, as many lines as
/// may be read at once are read. Where the last line lies before the first
/// the two change places. No more lines than may be read at once are read.
pub open spec fn range_for(start: Option<u64>, end: Option<u64>, max_size: u64) -> (u64, u64) {
    let room: u64 = if max_size == 0 {
        0
    } else {
        (max_size - 1) as u64
    };
    let asked_first: u64 = match start {
        Some(s) => if s < 1 {
            1
        } else {
            s
        },
        None => 1,
    };
    let asked_last: u64 = match end {
        Some(e) => e,
        None => held_sum(asked_first, room),
    };
    let lower: u64 = if asked_first < asked_last {
        asked_first
    } else {
        asked_last
    };
    let first: u64 = if lower < 1 {
        1
    } else {
        lower
    };
    let upper: u64 = if asked_first < asked_last {
        asked_last
    } else {
        asked_first
    };
    let most: u64 = held_sum(first, room);
    (
        first,
        if upper < most {
            upper
        } else {
            most
        },
    )
}

/// The lines to read of a file: see [`range_for`].
pub fn resolve_range(start_line: Option<u64>, end_line: Option<u64>, max_size: u64) -> (out: (
    u64,
    u64,
))
    ensures
        out == range_for(start_line, end_line, max_size),
        1 <= out.0 <= out.1,
        out.1 - out.0 <= max_size,
{
    let room: u64 = if max_size == 0 {
        0
    } else {
        max_size - 1
    };
    let asked_first: u64 = match start_line {
        Some(s) => if s < 1 {
            1
        } else {
            s
        },
        None => 1,
    };
    let asked_last: u64 = match end_line {
        Some(e) => e,
        None => if asked_first > u64::MAX - room {
            u64::MAX
        } else {
            asked_first + room
        },
    };
    let lower: u64 = if asked_first < asked_last {
        asked_first
    } else {
        asked_last
    };
    let first: u64 = if lower < 1 {
        1
    } else {
        lower
    };
    let upper: u64 = if asked_first < asked_last {
        asked_last
    } else {
        asked_first
    };
    let most: u64 = if first > u64::MAX - room {
        u64::MAX
    } else {
        first + room
    };
    (
        first,
        if upper < most {
            upper
        } else {
            most
        },
    )
}

/// The lines of a text from line `start_line` to line `end_line`, both
/// counted from 1, as plain values: the lines, joined; the numbers of the
/// first and of the last line that are there, both 0 where none is; and the
/// number of all lines. A last line of 0 stands for the last line there is.
pub open spec fn range_of(content: Seq<char>, start_line: u64, end_line: u64) -> (
    Seq<char>,
    (nat, nat, nat),
) {
    let all = split_lines(content);
    let from: int = if start_line == 0 {
        0
    } else {
        start_line - 1
    };
    let to: int = if end_line > 0 && end_line < all.len() {
        end_line as int
    } else {
        all.len() as int
    };
    if from < to {
        (join_lines(all.subrange(from, to)), (start_line as nat, to as nat, all.len()))
    } else {
        (Seq::empty(), (0, 0, all.len()))
    }
}

/// Takes the lines from `start_line` to `end_line` out of a text: see
/// [`range_of`].
pub fn read_range(content: &str, start_line: u64, end_line: u64) -> (out: (String, FileInfo))
    requires
        end_line == 0 || start_line <= end_line,
    ensures
        out.0@ == range_of(content@, start_line, end_line).0,
        (
            out.1.start_line as nat,
            out.1.end_line as nat,
            out.1.total_lines as nat,
        ) == range_of(content@, start_line, end_line).1,
{
    let all = lines(content);
    let count: usize = all.len();
    assert(views(all@).len() == all@.len());
    let from: u64 = if start_line == 0 {
        0
    } else {
        start_line - 1
    };
    let to: usize = if end_line > 0 && end_line < count as u64 {
        end_line as usize
    } else {
        count
    };
    if from < to as u64 {
        let text = join_range(&all, from as usize, to);
        (text, FileInfo { start_line, end_line: to as u64, total_lines: count as u64 })
    } else {
        (String::new(), FileInfo { start_line: 0, end_line: 0, total_lines: count as u64 })
    }
}

} // verus!
