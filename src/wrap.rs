use vstd::prelude::*;

verus! {

/// A raw foreign handle: an opaque, pointer-sized value with no meaning of
/// its own.
pub type Handle = u64;

/// The uniform conversion between a typed entity and its raw handle.
pub trait Wrapper<T>: Sized {
    /// The handle this wrapper stands for.
    spec fn handle(&self) -> T;

    /// Builds a typed wrapper around a raw handle, without validating it.
    fn from_ref(r: T) -> (w: Self)
        ensures
            w.handle() == r,
    ;

    /// Hands out the raw handle for the next foreign call.
    fn to_ref(&self) -> (r: T)
        ensures
            r == self.handle(),
    ;
}

} // verus!
