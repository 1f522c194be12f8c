use vstd::prelude::*;
use crate::decimal::{decimal, push_wide_decimal};
use crate::lines::{join, join_lines, lines, split_lines, views};

verus! {

/// Lines with their numbers in front: the number, a colon, the line. The
/// first line gets the number `start`.
pub open spec fn number_lines(ls: Seq<Seq<char>>, start: nat) -> Seq<Seq<char>> {
    Seq::new(ls.len(), |i: int| decimal((start + i) as nat) + ":"@ + ls[i])
}

/// A text with the number of each line in front of it.
pub open spec fn numbered(s: Seq<char>, start: nat) -> Seq<char> {
    join_lines(number_lines(split_lines(s), start))
}

/// Puts the number of each line in front of it, counting from `start`: see
/// [`numbered`].
pub fn to_numbered_from(s: &str, start: u64) -> (out: String)
    ensures
        out@ == numbered(s@, start as nat),
{
    let raw = lines(s);
    let mut shown: Vec<String> = Vec::new();
    let mut i: usize = 0;
    let ghost want = number_lines(split_lines(s@), start as nat);
    assert(views(shown@) =~= want.take(0));
    assert(views(raw@).len() == raw@.len());
    while i < raw.len()
        invariant
            i <= raw@.len(),
            views(raw@) == split_lines(s@),
            want == number_lines(split_lines(s@), start as nat),
            want.len() == raw@.len(),
            shown@.len() == i,
            views(shown@) == want.take(i as int),
        decreases raw@.len() - i,
    {
        let mut line = String::new();
        push_wide_decimal(&mut line, start as u128 + i as u128);
        line.append(":");
        line.append(raw[i].as_str());
        proof {
            assert(views(raw@)[i as int] == raw@[i as int]@);
            assert(line@ =~= want[i as int]);
            assert(views(shown@.push(line)) =~= want.take(i + 1));
        }
        shown.push(line);
        i += 1;
    }
    assert(want.take(raw@.len() as int) =~= want);
    join(&shown)
}

} // verus!
