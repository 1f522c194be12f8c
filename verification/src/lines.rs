use vstd::prelude::*;

verus! {

/// `String::push` appends exactly one character to the end of the string.
pub assume_specification[ String::push ](s: &mut String, c: char)
    ensures
        final(s)@ == old(s)@.push(c),
;

/// The views of a sequence of strings, in order.
pub open spec fn views(v: Seq<String>) -> Seq<Seq<char>> {
    v.map_values(|s: String| s@)
}

/// The view of an optional text.
pub open spec fn text_view(s: Option<String>) -> Option<Seq<char>> {
    match s {
        Some(s) => Some(s@),
        None => None,
    }
}

/// Collects the characters of a string slice into a vector.
pub fn to_chars(s: &str) -> (out: Vec<char>)
    ensures
        out@ == s@,
{
    let mut out: Vec<char> = Vec::new();
    for c in it: s.chars()
        invariant
            it.seq() == s@,
            out@ == it.seq().take(it.index() as int),
    {
        out.push(c);
        assert(out@ =~= it.seq().take(it.index() + 1));
    }
    assert(s@.take(s@.len() as int) =~= s@);
    out
}

/// Builds a string from the characters `chars[from..to]`.
pub fn string_of_range(chars: &Vec<char>, from: usize, to: usize) -> (out: String)
    requires
        from <= to <= chars@.len(),
    ensures
        out@ == chars@.subrange(from as int, to as int),
{
    let mut out = String::new();
    let mut i: usize = from;
    while i < to
        invariant
            from <= i <= to <= chars@.len(),
            out@ == chars@.subrange(from as int, i as int),
        decreases to - i,
    {
        out.push(chars[i]);
        i += 1;
        assert(out@ =~= chars@.subrange(from as int, i as int));
    }
    out
}

/// Index of the first line feed in `s`, or `s.len()` when there is none.
pub open spec fn first_newline(s: Seq<char>) -> int
    decreases s.len(),
{
    if s.len() == 0 || s[0] == '\n' {
        0
    } else {
        1 + first_newline(s.drop_first())
    }
}

/// `s` without one trailing carriage return, if it ends in one.
pub open spec fn strip_cr(s: Seq<char>) -> Seq<char> {
    if s.len() > 0 && s.last() == '\r' {
        s.drop_last()
    } else {
        s
    }
}

/// The lines of a text. A line ends at a line feed, which is dropped together
/// with a carriage return directly before it. Text after the last line feed is
/// a line of its own when it is not empty, and is kept as it is.
pub open spec fn split_lines(s: Seq<char>) -> Seq<Seq<char>>
    decreases s.len(),
{
    if s.len() == 0 {
        Seq::empty()
    } else {
        let i = first_newline(s);
        if 0 <= i < s.len() {
            seq![strip_cr(s.take(i))] + split_lines(s.skip(i + 1))
        } else {
            seq![s]
        }
    }
}

/// Number of lines of a text.
pub open spec fn line_count(s: Seq<char>) -> nat {
    split_lines(s).len()
}

/// `first_newline` is the position `k` once nothing before `k` is a line feed
/// and `k` is a line feed or the end.
pub proof fn lemma_first_newline(s: Seq<char>, k: int)
    requires
        0 <= k <= s.len(),
        forall|j: int| 0 <= j < k ==> s[j] != '\n',
        k == s.len() || s[k] == '\n',
    ensures
        first_newline(s) == k,
    decreases s.len(),
{
    if s.len() == 0 || s[0] == '\n' {
    } else {
        let t = s.drop_first();
        assert forall|j: int| 0 <= j < k - 1 implies t[j] != '\n' by {
            assert(t[j] == s[j + 1]);
        }
        lemma_first_newline(t, k - 1);
    }
}

/// A text has at most as many lines as characters.
pub proof fn lemma_line_count_bound(s: Seq<char>)
    ensures
        line_count(s) <= s.len(),
    decreases s.len(),
{
    if s.len() > 0 {
        let i = first_newline(s);
        if 0 <= i < s.len() {
            lemma_line_count_bound(s.skip(i + 1));
        }
    }
}

/// Splits a text into its lines.
pub fn lines(s: &str) -> (out: Vec<String>)
    ensures
        views(out@) == split_lines(s@),
{
    let chars = to_chars(s);
    let n: usize = chars.len();
    let mut out: Vec<String> = Vec::new();
    let mut start: usize = 0;
    let mut i: usize = 0;
    assert(chars@.skip(0) =~= chars@);
    assert(views(out@) =~= Seq::<Seq<char>>::empty());
    while i < n
        invariant
            start <= i <= n,
            n == chars@.len(),
            chars@ == s@,
            forall|k: int| start <= k < i ==> chars@[k] != '\n',
            split_lines(s@) == views(out@) + split_lines(chars@.skip(start as int)),
        decreases n - i,
    {
        if chars[i] == '\n' {
            let end: usize = if i > start && chars[i - 1] == '\r' {
                i - 1
            } else {
                i
            };
            let line = string_of_range(&chars, start, end);
            proof {
                let rest = chars@.skip(start as int);
                lemma_first_newline(rest, i - start);
                assert(rest.take(i - start) =~= chars@.subrange(start as int, i as int));
                assert(strip_cr(rest.take(i - start)) =~= line@);
                assert(rest.skip(i - start + 1) =~= chars@.skip(i + 1));
                assert(views(out@.push(line)) =~= views(out@) + seq![line@]);
            }
            out.push(line);
            start = i + 1;
        }
        i += 1;
    }
    if start < n {
        let line = string_of_range(&chars, start, n);
        proof {
            let rest = chars@.skip(start as int);
            lemma_first_newline(rest, n - start);
            assert(rest =~= line@);
            assert(views(out@.push(line)) =~= views(out@) + seq![line@]);
        }
        out.push(line);
    } else {
        assert(views(out@) + Seq::<Seq<char>>::empty() =~= views(out@));
    }
    out
}


/// Lines put together with one line feed between each two.
pub open spec fn join_lines(ls: Seq<Seq<char>>) -> Seq<char>
    decreases ls.len(),
{
    if ls.len() == 0 {
        Seq::empty()
    } else if ls.len() == 1 {
        ls[0]
    } else {
        join_lines(ls.drop_last()) + seq!['\n'] + ls.last()
    }
}

/// Nothing before `first_newline` is a line feed, and it is one itself unless
/// it is the end.
pub proof fn lemma_first_newline_found(s: Seq<char>)
    ensures
        0 <= first_newline(s) <= s.len(),
        forall|j: int| 0 <= j < first_newline(s) ==> s[j] != '\n',
        first_newline(s) < s.len() ==> s[first_newline(s)] == '\n',
    decreases s.len(),
{
    if s.len() == 0 || s[0] == '\n' {
    } else {
        let t = s.drop_first();
        lemma_first_newline_found(t);
        assert forall|j: int| 0 <= j < first_newline(s) implies s[j] != '\n' by {
            if j > 0 {
                assert(s[j] == t[j - 1]);
            }
        }
    }
}

/// Joining one line in front of others puts a line feed between them.
pub proof fn lemma_join_front(first: Seq<char>, rest: Seq<Seq<char>>)
    requires
        rest.len() > 0,
    ensures
        join_lines(seq![first] + rest) == first + seq!['\n'] + join_lines(rest),
    decreases rest.len(),
{
    let all = seq![first] + rest;
    assert(all.drop_last() =~= seq![first] + rest.drop_last());
    assert(all.last() == rest.last());
    if rest.len() == 1 {
        assert(all.drop_last() =~= seq![first]);
        assert(all.len() == 2);
        assert(join_lines(seq![first]) == first);
        assert(join_lines(rest) == rest[0]);
        assert(join_lines(all) == join_lines(all.drop_last()) + seq!['\n'] + all.last());
    } else {
        lemma_join_front(first, rest.drop_last());
        assert(all.len() > 2);
        assert(join_lines(all) == join_lines(all.drop_last()) + seq!['\n'] + all.last());
        assert(join_lines(rest) == join_lines(rest.drop_last()) + seq!['\n'] + rest.last());
        assert(join_lines(all) =~= first + seq!['\n'] + join_lines(rest));
    }
}

/// A text whose line feeds each stand after something other than a carriage
/// return and before something: splitting it into lines loses nothing.
pub open spec fn keeps_line_ends(s: Seq<char>) -> bool {
    forall|i: int|
        0 <= i < s.len() && #[trigger] s[i] == '\n' ==> i + 1 < s.len() && (i > 0 ==> s[i - 1]
            != '\r')
}

/// Splitting such a text into lines and joining them gives the text back.
pub proof fn lemma_split_join(s: Seq<char>)
    requires
        keeps_line_ends(s),
    ensures
        join_lines(split_lines(s)) == s,
    decreases s.len(),
{
    if s.len() == 0 {
    } else {
        let i = first_newline(s);
        lemma_first_newline_found(s);
        if i < s.len() {
            let rest = s.skip(i + 1);
            assert(s[i] == '\n');
            assert(strip_cr(s.take(i)) == s.take(i)) by {
                if i > 0 {
                    assert(s.take(i).last() == s[i - 1]);
                }
            }
            assert(keeps_line_ends(rest)) by {
                assert forall|k: int| 0 <= k < rest.len() && #[trigger] rest[k] == '\n' implies k
                    + 1 < rest.len() && (k > 0 ==> rest[k - 1] != '\r') by {
                    assert(s[k + i + 1] == '\n');
                    if k > 0 {
                        assert(rest[k - 1] == s[k + i]);
                    }
                }
            }
            lemma_split_join(rest);
            assert(rest.len() > 0);
            assert(split_lines(rest).len() > 0);
            lemma_join_front(s.take(i), split_lines(rest));
            assert(s.take(i) + seq!['\n'] + rest =~= s);
        }
    }
}

/// Puts the lines `lines[from..to]` together with one line feed between each
/// two.
pub fn join_range(lines: &Vec<String>, from: usize, to: usize) -> (out: String)
    requires
        from <= to <= lines@.len(),
    ensures
        out@ == join_lines(views(lines@).subrange(from as int, to as int)),
{
    let mut out = String::new();
    let mut i: usize = from;
    let ghost all = views(lines@);
    assert(all.subrange(from as int, from as int) =~= Seq::<Seq<char>>::empty());
    while i < to
        invariant
            from <= i <= to <= lines@.len(),
            all == views(lines@),
            out@ == join_lines(all.subrange(from as int, i as int)),
        decreases to - i,
    {
        let ghost before = all.subrange(from as int, i as int);
        let ghost after = all.subrange(from as int, i + 1);
        proof {
            assert(after.drop_last() =~= before);
            assert(after.last() == lines@[i as int]@);
        }
        if i > from {
            out.push('\n');
            assert(out@ =~= join_lines(before) + seq!['\n']);
        } else {
            assert(out@ =~= Seq::<char>::empty());
        }
        out.append(lines[i].as_str());
        assert(out@ =~= join_lines(after));
        i += 1;
    }
    out
}

/// Puts lines together with one line feed between each two.
pub fn join(lines: &Vec<String>) -> (out: String)
    ensures
        out@ == join_lines(views(lines@)),
{
    assert(views(lines@).subrange(0, lines@.len() as int) =~= views(lines@));
    join_range(lines, 0, lines.len())
}

/// Counts the lines of a text.
pub fn count_lines(s: &str) -> (n: usize)
    ensures
        n == line_count(s@),
{
    let ls = lines(s);
    assert(views(ls@).len() == ls@.len());
    ls.len()
}

/// Whether two texts are the same.
pub fn text_eq(a: &str, b: &str) -> (same: bool)
    ensures
        same == (a@ == b@),
{
    let x = a.to_owned();
    let y = b.to_owned();
    x == y
}

/// Appends the characters `chars[from..to]` to `out`.
pub fn push_range(out: &mut String, chars: &Vec<char>, from: usize, to: usize)
    requires
        from <= to <= chars@.len(),
    ensures
        final(out)@ == old(out)@ + chars@.subrange(from as int, to as int),
{
    let mut i: usize = from;
    assert(out@ =~= old(out)@ + chars@.subrange(from as int, from as int));
    while i < to
        invariant
            from <= i <= to <= chars@.len(),
            out@ == old(out)@ + chars@.subrange(from as int, i as int),
        decreases to - i,
    {
        out.push(chars[i]);
        i += 1;
        assert(out@ =~= old(out)@ + chars@.subrange(from as int, i as int));
    }
}

} // verus!
