//! The ownership protocol for wrapped native objects: how a wrapper is
//! built, how it lends out its raw handle, and how it takes ownership of one.
use vstd::prelude::*;

verus! {

/// Builds a wrapper from a bundle of typed arguments.
pub trait InternalConstructor: Sized {
    type Arguments;

    fn build(args: Self::Arguments) -> Self;
}

/// A wrapper that owns exactly one native handle.
pub trait RawHandle {
    type Raw;

    /// The native handle that this wrapper owns.
    spec fn handle(&self) -> Self::Raw;
}

/// Lends out the owned handle. The wrapper keeps ownership: the handle is
/// valid only while the wrapper lives, and the caller must not release it.
pub trait GetRaw: RawHandle {
    fn get_raw(&self) -> (raw: Self::Raw)
        ensures
            raw == self.handle(),
    ;
}

/// Takes ownership of a native handle. The caller hands over a handle that
/// no other wrapper owns and that has the right native type, and must not
/// use it directly afterwards.
pub trait FromRaw: RawHandle + Sized {
    fn from_raw(raw: Self::Raw) -> (owner: Self)
        ensures
            owner.handle() == raw,
    ;
}

/// Adopting a handle and then exposing it gives back that very handle: for
/// any wrapper type with both capabilities, if `from_raw(raw)` returned
/// `owner` and `owner.get_raw()` then returned `exposed`, then `exposed` is
/// `raw`.
pub proof fn lemma_expose_after_adopt<T: GetRaw + FromRaw>(raw: T::Raw, owner: T, exposed: T::Raw)
    requires
        call_ensures(T::from_raw, (raw,), owner),
        call_ensures(T::get_raw, (&owner,), exposed),
    ensures
        exposed == raw,
{
}

/// The single owner of one native handle; wrappers hold one of these.
pub struct Owned<R> {
    raw: R,
}

impl<R> RawHandle for Owned<R> {
    type Raw = R;

    closed spec fn handle(&self) -> R {
        self.raw
    }
}

impl<R: Copy> GetRaw for Owned<R> {
    fn get_raw(&self) -> (raw: R) {
        self.raw
    }
}

impl<R> FromRaw for Owned<R> {
    fn from_raw(raw: R) -> (owner: Self) {
        Owned { raw }
    }
}

} // verus!
