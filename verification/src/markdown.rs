use vstd::prelude::*;
use crate::ansi::{rtrim_visible_preserve_sgr, rtrimmed, wrap_ansi_simple, wrapped};
use crate::lines::{join, join_lines, lines, split_lines, string_of_range, to_chars, views};
use crate::platform::{regex_word, terminal_size, word_chars};

verus! {

/// A stretch of a text: plain text, or the code of a fenced block with the
/// language that the fence names.
#[derive(Debug)]
pub enum Block {
    Text(String),
    Code { lang: String, code: String },
}

/// A stretch of a text as plain values.
pub enum Part {
    Text(Seq<char>),
    Code { lang: Seq<char>, code: Seq<char> },
}

impl View for Block {
    type V = Part;

    open spec fn view(&self) -> Part {
        match self {
            Block::Text(t) => Part::Text(t@),
            Block::Code { lang, code } => Part::Code { lang: lang@, code: code@ },
        }
    }
}

/// Stretches of a text as plain values.
pub open spec fn parts(blocks: Seq<Block>) -> Seq<Part> {
    blocks.map_values(|b: Block| b@)
}

/// A line starts at the start of the text and after each line feed.
pub open spec fn line_start(t: Seq<char>, i: int) -> bool {
    i == 0 || (0 < i <= t.len() && t[i - 1] == '\n')
}

/// Three backticks stand at position `i`.
pub open spec fn fence_at(t: Seq<char>, i: int) -> bool {
    0 <= i && i + 3 <= t.len() && t[i] == '`' && t[i + 1] == '`' && t[i + 2] == '`'
}

/// Of each character whether it is a word character.
pub open spec fn word_flags(t: Seq<char>) -> Seq<bool> {
    t.map_values(|c: char| regex_word(c))
}

/// The first position at or after `j` that holds no word character, or the
/// end of the text. `word` tells of each position whether it holds one.
pub open spec fn word_end(word: Seq<bool>, j: int) -> int
    decreases word.len() - j,
{
    if j < 0 || j >= word.len() {
        word.len() as int
    } else if !word[j] {
        j
    } else {
        word_end(word, j + 1)
    }
}

/// A fenced block opens at position `i`: a line starts there with three
/// backticks, and after them the line holds word characters or nothing.
pub open spec fn opens_at(t: Seq<char>, word: Seq<bool>, i: int) -> bool {
    line_start(t, i) && fence_at(t, i) && word_end(word, i + 3) < t.len() && t[word_end(
        word,
        i + 3,
    )] == '\n'
}

/// The first position at or after `i` at which a fenced block opens, or the
/// end of the text.
pub open spec fn next_open(t: Seq<char>, word: Seq<bool>, i: int) -> int
    decreases t.len() - i,
{
    if i < 0 || i >= t.len() {
        t.len() as int
    } else if opens_at(t, word, i) {
        i
    } else {
        next_open(t, word, i + 1)
    }
}

/// The first position at or after `i` at which a line starts with three
/// backticks, or the end of the text.
pub open spec fn next_close(t: Seq<char>, i: int) -> int
    decreases t.len() - i,
{
    if i < 0 || i >= t.len() {
        t.len() as int
    } else if line_start(t, i) && fence_at(t, i) {
        i
    } else {
        next_close(t, i + 1)
    }
}

/// The language of a block: what its fence names, or `txt` where it names
/// nothing.
pub open spec fn language(named: Seq<char>) -> Seq<char> {
    if named.len() == 0 {
        "txt"@
    } else {
        named
    }
}

/// The stretches of a text from position `pos` on, where `word` tells of
/// each position whether it holds a word character. A fenced block opens
/// where a line starts with three backticks that are followed by word
/// characters or by nothing. Its code starts on the next line and ends
/// before the next line that starts with three backticks, or with the
/// text. What stands between blocks, those three backticks not counted,
/// is plain text.
pub open spec fn parts_from(t: Seq<char>, word: Seq<bool>, pos: int) -> Seq<Part>
    decreases t.len() - pos,
{
    if pos < 0 || pos >= t.len() {
        Seq::empty()
    } else {
        let open = next_open(t, word, pos);
        if open >= t.len() {
            seq![Part::Text(t.subrange(pos, t.len() as int))]
        } else {
            let named_end = word_end(word, open + 3);
            let code_start = named_end + 1;
            let close = next_close(t, code_start);
            let end = if close < t.len() {
                close + 3
            } else {
                t.len() as int
            };
            let before = if open > pos {
                seq![Part::Text(t.subrange(pos, open))]
            } else {
                Seq::empty()
            };
            let block = Part::Code {
                lang: language(t.subrange(open + 3, named_end)),
                code: t.subrange(code_start, close),
            };
            if pos < end <= t.len() && pos <= open && open + 3 <= named_end < code_start <= close {
                before + seq![block] + parts_from(t, word, end)
            } else {
                before + seq![block]
            }
        }
    }
}

/// The stretches of a text: see [`parts_from`]. The word characters are
/// those of the class `\w` of the `regex` crate.
pub open spec fn text_parts(t: Seq<char>) -> Seq<Part> {
    parts_from(t, word_flags(t), 0)
}

/// A position is the end of a run of word characters once all from the
/// start to it are word characters and it holds none or is the end.
pub proof fn lemma_word_end_is(word: Seq<bool>, j: int, k: int)
    requires
        0 <= j <= k <= word.len(),
        forall|x: int| j <= x < k ==> #[trigger] word[x],
        k < word.len() ==> !word[k],
    ensures
        word_end(word, j) == k,
    decreases k - j,
{
    if j < k {
        lemma_word_end_is(word, j + 1, k);
    }
}

/// A position is the next opening once nothing from the start to it opens
/// and it opens or is the end.
pub proof fn lemma_next_open_is(t: Seq<char>, word: Seq<bool>, i: int, k: int)
    requires
        0 <= i <= k <= t.len(),
        forall|x: int| i <= x < k ==> !opens_at(t, word, x),
        k < t.len() ==> opens_at(t, word, k),
    ensures
        next_open(t, word, i) == k,
    decreases k - i,
{
    if i < k {
        lemma_next_open_is(t, word, i + 1, k);
    }
}

/// A position is the next closing once no line before it, from the start
/// on, starts with three backticks, and one does there or it is the end.
pub proof fn lemma_next_close_is(t: Seq<char>, i: int, k: int)
    requires
        0 <= i <= k <= t.len(),
        forall|x: int| i <= x < k ==> !(line_start(t, x) && fence_at(t, x)),
        k < t.len() ==> line_start(t, k) && fence_at(t, k),
    ensures
        next_close(t, i) == k,
    decreases k - i,
{
    if i < k {
        lemma_next_close_is(t, i + 1, k);
    }
}

/// Whether a line starts with three backticks at position `i`.
fn fence_starts(chars: &Vec<char>, i: usize) -> (out: bool)
    requires
        i <= chars@.len(),
    ensures
        out == (line_start(chars@, i as int) && fence_at(chars@, i as int)),
{
    let n: usize = chars.len();
    (i == 0 || chars[i - 1] == '\n') && n - i >= 3 && chars[i] == '`' && chars[i + 1] == '`'
        && chars[i + 2] == '`'
}

/// The end of the run of word characters from `j` on: see [`word_end`].
fn find_word_end(word: &Vec<bool>, j: usize) -> (out: usize)
    requires
        j <= word@.len(),
    ensures
        out == word_end(word@, j as int),
        j <= out <= word@.len(),
{
    let mut k: usize = j;
    while k < word.len() && word[k]
        invariant
            j <= k <= word@.len(),
            forall|x: int| j <= x < k ==> #[trigger] word@[x],
        decreases word@.len() - k,
    {
        k += 1;
    }
    proof {
        lemma_word_end_is(word@, j as int, k as int);
    }
    k
}

/// Whether a fenced block opens at position `i`: see [`opens_at`].
fn block_opens(chars: &Vec<char>, word: &Vec<bool>, i: usize) -> (out: bool)
    requires
        i <= chars@.len(),
        word@.len() == chars@.len(),
    ensures
        out == opens_at(chars@, word@, i as int),
{
    let n: usize = chars.len();
    if fence_starts(chars, i) {
        let k = find_word_end(word, i + 3);
        k < n && chars[k] == '\n'
    } else {
        false
    }
}

/// Cuts a text, given as characters, into plain text and fenced blocks,
/// where `word` tells of each character whether it is a word character: see
/// [`parts_from`].
pub fn split_fences_with(chars: &Vec<char>, word: &Vec<bool>) -> (out: Vec<Block>)
    requires
        word@.len() == chars@.len(),
    ensures
        parts(out@) == parts_from(chars@, word@, 0),
{
    let n: usize = chars.len();
    let ghost t = chars@;
    let ghost w = word@;
    let mut out: Vec<Block> = Vec::new();
    let mut pos: usize = 0;
    assert(parts(out@) + parts_from(t, w, 0) =~= parts_from(t, w, 0));
    while pos < n
        invariant
            t == chars@,
            w == word@,
            w.len() == t.len(),
            n == t.len(),
            pos <= n,
            parts_from(t, w, 0) == parts(out@) + parts_from(t, w, pos as int),
        decreases n - pos,
    {
        let mut open: usize = pos;
        while open < n && !block_opens(chars, word, open)
            invariant
                t == chars@,
                w == word@,
                w.len() == t.len(),
                n == t.len(),
                pos <= open <= n,
                forall|x: int| pos <= x < open ==> !opens_at(t, w, x),
            decreases n - open,
        {
            open += 1;
        }
        proof {
            lemma_next_open_is(t, w, pos as int, open as int);
        }
        let ghost before = parts(out@);
        if open >= n {
            let rest = string_of_range(chars, pos, n);
            out.push(Block::Text(rest));
            proof {
                assert(parts(out@) =~= before + seq![Part::Text(t.subrange(pos as int, n as int))]);
                assert(parts_from(t, w, n as int) =~= Seq::<Part>::empty());
                assert(parts(out@) + parts_from(t, w, n as int) =~= before + parts_from(
                    t,
                    w,
                    pos as int,
                ));
            }
            pos = n;
        } else {
            let named_end = find_word_end(word, open + 3);
            let code_start: usize = named_end + 1;
            let mut close: usize = code_start;
            while close < n && !fence_starts(chars, close)
                invariant
                    t == chars@,
                    n == t.len(),
                    code_start <= close <= n,
                    forall|x: int|
                        code_start <= x < close ==> !(line_start(t, x) && fence_at(t, x)),
                decreases n - close,
            {
                close += 1;
            }
            proof {
                lemma_next_close_is(t, code_start as int, close as int);
            }
            let end: usize = if close < n {
                close + 3
            } else {
                n
            };
            if open > pos {
                let plain = string_of_range(chars, pos, open);
                out.push(Block::Text(plain));
            }
            let ghost with_text = parts(out@);
            let named = string_of_range(chars, open + 3, named_end);
            let lang = if named_end == open + 3 {
                "txt".to_owned()
            } else {
                named
            };
            let code = string_of_range(chars, code_start, close);
            out.push(Block::Code { lang, code });
            proof {
                let block = Part::Code {
                    lang: language(t.subrange(open + 3, named_end as int)),
                    code: t.subrange(code_start as int, close as int),
                };
                let lead = if open > pos {
                    seq![Part::Text(t.subrange(pos as int, open as int))]
                } else {
                    Seq::<Part>::empty()
                };
                assert(with_text =~= before + lead);
                assert(parts(out@) =~= before + lead + seq![block]);
                assert(parts_from(t, w, pos as int) =~= lead + seq![block] + parts_from(
                    t,
                    w,
                    end as int,
                ));
                assert(parts(out@) + parts_from(t, w, end as int) =~= before + parts_from(
                    t,
                    w,
                    pos as int,
                ));
            }
            pos = end;
        }
    }
    assert(parts(out@) + parts_from(t, w, n as int) =~= parts(out@));
    out
}

/// Cuts a text into plain text and fenced blocks: see [`text_parts`].
pub fn split_fences(text: &str) -> (out: Vec<Block>)
    ensures
        parts(out@) == text_parts(text@),
{
    let chars = to_chars(text);
    let word = word_chars(&chars);
    assert(word@ =~= word_flags(chars@));
    split_fences_with(&chars, &word)
}

/// A stretch of a text as it is shown.
#[derive(Debug)]
pub enum Segment {
    Text(String),
    Code(String),
}

/// What a segment shows.
pub open spec fn segment_text(segment: Segment) -> Seq<char> {
    match segment {
        Segment::Text(t) => t@,
        Segment::Code(c) => c@,
    }
}

/// What segments show, one after the other.
pub open spec fn shown(segments: Seq<Segment>) -> Seq<char>
    decreases segments.len(),
{
    if segments.len() == 0 {
        Seq::empty()
    } else {
        shown(segments.drop_last()) + segment_text(segments.last())
    }
}

/// Each line without its trailing visible blanks.
pub open spec fn trimmed_lines(ls: Seq<Seq<char>>) -> Seq<Seq<char>> {
    ls.map_values(|l: Seq<char>| rtrimmed(l))
}

/// A text as it is put on a screen `width` columns wide: each line without
/// its trailing visible blanks, and the whole wrapped to the width.
pub open spec fn fitted(t: Seq<char>, width: nat) -> Seq<char> {
    wrapped(join_lines(trimmed_lines(split_lines(t))), width)
}

/// Writes text on a screen of a given size.
#[derive(Debug, Clone, Copy)]
pub struct MarkdownRenderer {
    pub width: usize,
    pub height: usize,
}

/// One less than a size of the screen, and 0 for a size of 0.
pub open spec fn usable(size: u16) -> nat {
    if size == 0 {
        0
    } else {
        (size - 1) as nat
    }
}

impl MarkdownRenderer {
    /// A renderer for `width` columns and `height` lines.
    pub fn new(width: usize, height: usize) -> (out: MarkdownRenderer)
        ensures
            out.width == width,
            out.height == height,
    {
        MarkdownRenderer { width, height }
    }

    /// A renderer for a screen of the given columns and lines, or of 80
    /// columns and 24 lines where the size is not known. One column and one
    /// line are left free.
    pub fn for_screen(size: Option<(u16, u16)>) -> (out: MarkdownRenderer)
        ensures
            out.width == match size {
                Some((columns, _)) => usable(columns),
                None => 79,
            },
            out.height == match size {
                Some((_, rows)) => usable(rows),
                None => 23,
            },
    {
        let (columns, rows): (u16, u16) = match size {
            Some(size) => size,
            None => (80, 24),
        };
        MarkdownRenderer {
            width: if columns == 0 {
                0
            } else {
                (columns - 1) as usize
            },
            height: if rows == 0 {
                0
            } else {
                (rows - 1) as usize
            },
        }
    }

    /// A renderer for the screen as the terminal tells its size: see
    /// [`MarkdownRenderer::for_screen`].
    pub fn for_terminal() -> (out: MarkdownRenderer)
        ensures
            out.width <= 65534,
            out.height <= 65534,
    {
        MarkdownRenderer::for_screen(terminal_size())
    }

    /// The code of a block as it is handed on to be coloured: wrapped to the
    /// width.
    pub fn code_block(&self, code: &str) -> (out: String)
        ensures
            out@ == wrapped(code@, self.width as nat),
    {
        wrap_ansi_simple(code, self.width)
    }

    /// The segment for a block of coloured code: the code on a new line,
    /// with the sequence that ends all colours after it.
    pub fn code_segment(highlighted: &str) -> (out: Segment)
        ensures
            out == Segment::Code(out->Code_0),
            segment_text(out) == "\n"@ + highlighted@ + "\x1b[0m"@,
    {
        let mut text = "\n".to_owned();
        text.append(highlighted);
        text.append("\x1b[0m");
        Segment::Code(text)
    }

    /// Puts segments on the screen: what they show, one after the other,
    /// fitted to the width. See [`fitted`].
    pub fn render(&self, segments: &Vec<Segment>) -> (out: String)
        ensures
            out@ == fitted(shown(segments@), self.width as nat),
    {
        let mut result = String::new();
        let mut i: usize = 0;
        assert(segments@.take(0) =~= Seq::<Segment>::empty());
        while i < segments.len()
            invariant
                i <= segments@.len(),
                result@ == shown(segments@.take(i as int)),
            decreases segments@.len() - i,
        {
            assert(segments@.take(i + 1).drop_last() =~= segments@.take(i as int));
            match &segments[i] {
                Segment::Text(t) => {
                    result.append(t.as_str());
                },
                Segment::Code(c) => {
                    result.append(c.as_str());
                },
            }
            i += 1;
        }
        assert(segments@.take(segments@.len() as int) =~= segments@);
        let raw = lines(result.as_str());
        let mut cleaned: Vec<String> = Vec::new();
        let mut k: usize = 0;
        let ghost want = trimmed_lines(split_lines(result@));
        assert(views(raw@).len() == raw@.len());
        assert(views(cleaned@) =~= want.take(0));
        while k < raw.len()
            invariant
                k <= raw@.len(),
                views(raw@) == split_lines(result@),
                want == trimmed_lines(split_lines(result@)),
                want.len() == raw@.len(),
                cleaned@.len() == k,
                views(cleaned@) == want.take(k as int),
            decreases raw@.len() - k,
        {
            let line = rtrim_visible_preserve_sgr(raw[k].as_str());
            proof {
                assert(views(raw@)[k as int] == raw@[k as int]@);
                assert(want[k as int] == line@);
                assert(views(cleaned@.push(line)) =~= want.take(k + 1));
            }
            cleaned.push(line);
            k += 1;
        }
        assert(want.take(raw@.len() as int) =~= want);
        let joined = join(&cleaned);
        wrap_ansi_simple(joined.as_str(), self.width)
    }
}

} // verus!
