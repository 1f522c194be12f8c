use vstd::prelude::*;
use crate::lines::text_view;
use crate::platform::{path_without_prefix, strip_path_prefix};

verus! {

/// How a path is shown, given what is left of it after a base: that rest, a
/// dot when the rest is empty, and the whole path when the base is no prefix
/// of it.
pub open spec fn display_path(path: Seq<char>, rest: Option<Seq<char>>) -> Seq<char> {
    match rest {
        Some(r) => if r.len() == 0 {
            "."@
        } else {
            r
        },
        None => path,
    }
}

/// Picks how a path is shown, given what is left of it after a base: see
/// [`display_path`].
pub fn display_path_from(path: &str, rest: Option<String>) -> (out: String)
    ensures
        out@ == display_path(path@, text_view(rest)),
{
    match rest {
        Some(r) => {
            if r.as_str().unicode_len() == 0 {
                ".".to_owned()
            } else {
                r
            }
        },
        None => path.to_owned(),
    }
}

/// How `path` is shown from `cwd`: relative to it where it lies below it.
pub fn format_display_path(path: &str, cwd: &str) -> (out: String)
    ensures
        out@ == display_path(path@, path_without_prefix(path@, cwd@)),
{
    display_path_from(path, strip_path_prefix(path, cwd))
}

} // verus!
