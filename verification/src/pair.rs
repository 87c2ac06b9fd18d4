//! Registration of a component type with its wire type.
//!
//! A component type `T` is synced as a wire type `M`: a lossless or
//! intentionally reduced projection of `T`, with caller-supplied total
//! conversions both ways.  The send pipeline converts `T` into `M` before
//! wrapping it in the envelope; the receive pipeline converts a selected
//! `M` back into `T` and overwrites the component.  `T` and `M` can be the
//! same type.

use vstd::prelude::*;

verus! {

/// The pairing of a component type with its wire type `M`.
///
/// `wire_view` names the projection; both conversions must agree with it, so
/// every implementation keeps each field represented in the wire form
/// exactly.  Fields of the component that the projection drops are the
/// implementation's documented, intentional loss.
pub trait WirePair<M>: Sized {
    /// The wire projection of this component value.
    spec fn wire_view(&self) -> M;

    /// Convert the component into its wire form.
    fn into_wire(self) -> (w: M)
        ensures
            w == self.wire_view(),
    ;

    /// Rebuild a component from its wire form.  Every field represented in
    /// the wire form is kept exactly: projecting the result again yields
    /// `w`.
    fn from_wire(w: M) -> (t: Self)
        ensures
            t.wire_view() == w,
    ;
}

/// Law (round-trip conversion): for every registered pairing, converting a
/// wire value into the component type and back yields a wire value equal to
/// the original — whatever the pairing drops, it drops from the component
/// side only.
pub fn round_trip<T: WirePair<M>, M>(w: M) -> (r: M)
    ensures
        r == w,
{
    let t = T::from_wire(w);
    t.into_wire()
}

} // verus!
