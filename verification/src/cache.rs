use vstd::prelude::*;

verus! {

/// Something on which caching can be switched on and off.
pub trait Cacheable: Sized {
    /// Switches caching on when `enable` is true, and off when it is false.
    fn cached(self, enable: bool) -> Self;

    /// Whether caching is on.
    fn is_cached(&self) -> bool;
}

} // verus!
