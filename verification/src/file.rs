use vstd::prelude::*;

verus! {

/// An entry of a directory.
#[derive(Debug, Clone, PartialEq, Eq)]
pub struct File {
    pub path: String,
    pub is_dir: bool,
}

} // verus!
