//! Network-able wire types that carry plain values.
//!
//! Conversions between these and the host engine's native component types
//! live with the host-side glue; here each type can also stand as its own
//! component (a pairing may use the same type on both sides).

use crate::pair::WirePair;
use vstd::prelude::*;

verus! {

/// The network-able version of an entity name.
#[derive(Clone, Debug, PartialEq, Eq)]
pub struct NetName {
    /// The name.
    pub name: String,
}

/// The network-able version of a visibility flag.
#[derive(Clone, Copy, Debug, PartialEq, Eq)]
pub struct NetVisibility {
    /// Whether the entity is visible.
    pub is_visible: bool,
}

/// The network-able version of an Euler-rotation axis order.
#[derive(Clone, Copy, Debug, PartialEq, Eq)]
pub enum NetEulerRot {
    /// Intrinsic three-axis rotation ZYX
    ZYX,
    /// Intrinsic three-axis rotation ZXY
    ZXY,
    /// Intrinsic three-axis rotation YXZ
    YXZ,
    /// Intrinsic three-axis rotation YZX
    YZX,
    /// Intrinsic three-axis rotation XYZ
    XYZ,
    /// Intrinsic three-axis rotation XZY
    XZY,
}

impl WirePair<NetName> for NetName {
    /// A name is synced as itself: the projection drops nothing.
    open spec fn wire_view(&self) -> NetName {
        *self
    }

    fn into_wire(self) -> (w: NetName) {
        self
    }

    fn from_wire(w: NetName) -> (t: NetName) {
        w
    }
}

impl WirePair<NetVisibility> for NetVisibility {
    /// A visibility flag is synced as itself: the projection drops nothing.
    open spec fn wire_view(&self) -> NetVisibility {
        *self
    }

    fn into_wire(self) -> (w: NetVisibility) {
        self
    }

    fn from_wire(w: NetVisibility) -> (t: NetVisibility) {
        w
    }
}

} // verus!
