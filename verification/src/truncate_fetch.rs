use vstd::prelude::*;
use vstd::utf8::{encode_utf8, valid_utf8};
use crate::budget::{fit_count, lemma_fit_all, lemma_fit_count, lemma_fit_count_unique, total};
use crate::lines::{string_of_range, to_chars};
use crate::width::{byte_len, char_width, lemma_byte_len_push, width_of};

verus! {

/// Fetched content cut to what is shown inline.
#[derive(Debug)]
pub struct TruncatedFetchOutput {
    pub content: String,
}

/// The width in bytes of each character.
pub open spec fn char_widths(s: Seq<char>) -> Seq<nat> {
    s.map_values(|c: char| char_width(c))
}

/// The longest run of leading characters of `s` that takes at most `limit`
/// bytes in UTF-8.
pub open spec fn fetch_prefix(s: Seq<char>, limit: nat) -> Seq<char> {
    s.take(fit_count(char_widths(s), limit) as int)
}

/// The widths of a text sum to its byte length.
pub proof fn lemma_widths_total(s: Seq<char>)
    ensures
        total(char_widths(s)) == byte_len(s),
    decreases s.len(),
{
    if s.len() > 0 {
        lemma_widths_total(s.drop_last());
        assert(char_widths(s).drop_last() =~= char_widths(s.drop_last()));
        lemma_byte_len_push(s.drop_last(), s.last());
        assert(s.drop_last().push(s.last()) =~= s);
    }
}

/// What is kept of fetched content is made of whole characters from its
/// start, is valid UTF-8 of at most `limit` bytes, and is all of the content
/// exactly when the content has at most `limit` bytes.
pub proof fn lemma_fetch_prefix(s: Seq<char>, limit: nat)
    ensures
        fetch_prefix(s, limit).is_prefix_of(s),
        byte_len(fetch_prefix(s, limit)) <= limit,
        valid_utf8(encode_utf8(fetch_prefix(s, limit))),
        fetch_prefix(s, limit) == s <==> byte_len(s) <= limit,
        fetch_prefix(s, limit).len() < s.len() ==> byte_len(
            s.take(fetch_prefix(s, limit).len() as int + 1),
        ) > limit,
{
    let k = fit_count(char_widths(s), limit) as int;
    lemma_fit_count(char_widths(s), limit);
    lemma_fit_all(char_widths(s), limit);
    lemma_widths_total(s);
    lemma_widths_total(s.take(k));
    assert(char_widths(s).take(k) =~= char_widths(s.take(k)));
    vstd::utf8::encode_utf8_valid_utf8(fetch_prefix(s, limit));
    if k == s.len() {
        assert(s.take(k) =~= s);
    } else {
        lemma_widths_total(s.take(k + 1));
        assert(char_widths(s).take(k + 1) =~= char_widths(s.take(k + 1)));
    }
}

/// Cuts fetched content to its longest run of leading characters that takes
/// at most `truncation_limit` bytes; a character is kept whole or not at all.
pub fn truncate_fetch_content(content: &str, truncation_limit: usize) -> (out:
    TruncatedFetchOutput)
    ensures
        out.content@ == fetch_prefix(content@, truncation_limit as nat),
{
    let chars = to_chars(content);
    let n: usize = chars.len();
    let ghost sizes = char_widths(chars@);
    let mut used: usize = 0;
    let mut i: usize = 0;
    let mut stopped = false;
    assert(sizes.take(0) =~= Seq::<nat>::empty());
    while i < n && !stopped
        invariant
            n == chars@.len(),
            chars@ == content@,
            sizes == char_widths(chars@),
            i <= n,
            used == total(sizes.take(i as int)),
            used <= truncation_limit,
            stopped ==> i < n && total(sizes.take(i + 1)) > truncation_limit,
        decreases n - i + if stopped { 0int } else { 1int },
    {
        let w: usize = width_of(chars[i]);
        proof {
            assert(sizes[i as int] == w);
            assert(sizes.take(i + 1).drop_last() =~= sizes.take(i as int));
        }
        if w > truncation_limit - used {
            stopped = true;
        } else {
            used = used + w;
            i += 1;
        }
    }
    proof {
        lemma_fit_count_unique(sizes, truncation_limit as nat, i as int);
    }
    let kept = string_of_range(&chars, 0, i);
    assert(kept@ =~= content@.take(i as int));
    TruncatedFetchOutput { content: kept }
}

} // verus!
