//! Connection-membership predicates.
//!
//! A [`CIdSpec`] decides which connection ids a direction configuration
//! addresses.  The engine never interprets a predicate anywhere else: every
//! other module asks [`CIdSpec::matches`] or [`CIdSpec::overlaps`].

use vstd::prelude::*;

verus! {

/// A membership test over connection ids.
#[derive(Clone, Copy, Debug, PartialEq, Eq, Hash)]
pub enum CIdSpec {
    /// Addresses every connection id.
    All,
    /// Addresses no connection id.
    Empty,
    /// Addresses exactly the given connection id.
    Only(u32),
    /// Addresses every connection id except the given one.
    Except(u32),
}

impl CIdSpec {
    /// Which connection ids this predicate addresses.
    pub open spec fn spec_matches(self, cid: u32) -> bool {
        match self {
            CIdSpec::All => true,
            CIdSpec::Empty => false,
            CIdSpec::Only(c) => cid == c,
            CIdSpec::Except(c) => cid != c,
        }
    }

    /// True when some connection id is addressed by both predicates.
    pub open spec fn spec_overlaps(self, other: CIdSpec) -> bool {
        exists|cid: u32| self.spec_matches(cid) && other.spec_matches(cid)
    }

    /// Decide whether `cid` is addressed by this predicate.
    pub fn matches(self, cid: u32) -> (r: bool)
        ensures
            r == self.spec_matches(cid),
    {
        match self {
            CIdSpec::All => true,
            CIdSpec::Empty => false,
            CIdSpec::Only(c) => cid == c,
            CIdSpec::Except(c) => cid != c,
        }
    }

    /// Decide whether some connection id is addressed by both `self` and
    /// `other`.
    pub fn overlaps(self, other: CIdSpec) -> (r: bool)
        ensures
            r == self.spec_overlaps(other),
    {
        match (self, other) {
            (CIdSpec::Empty, _) => false,
            (_, CIdSpec::Empty) => false,
            (CIdSpec::All, CIdSpec::All) => {
                proof {
                    assert(CIdSpec::All.spec_matches(0u32));
                }
                true
            },
            (CIdSpec::All, CIdSpec::Only(c)) | (CIdSpec::Only(c), CIdSpec::All) => {
                proof {
                    assert(CIdSpec::Only(c).spec_matches(c));
                }
                true
            },
            (CIdSpec::All, CIdSpec::Except(c)) | (CIdSpec::Except(c), CIdSpec::All) => {
                proof {
                    let w: u32 = if c == 0 { 1 } else { 0 };
                    assert(CIdSpec::Except(c).spec_matches(w));
                }
                true
            },
            (CIdSpec::Only(a), CIdSpec::Only(b)) => {
                if a == b {
                    proof {
                        assert(CIdSpec::Only(a).spec_matches(a) && CIdSpec::Only(b).spec_matches(a));
                    }
                    true
                } else {
                    false
                }
            },
            (CIdSpec::Only(a), CIdSpec::Except(b)) | (CIdSpec::Except(b), CIdSpec::Only(a)) => {
                if a != b {
                    proof {
                        assert(CIdSpec::Only(a).spec_matches(a) && CIdSpec::Except(b).spec_matches(a));
                    }
                    true
                } else {
                    false
                }
            },
            (CIdSpec::Except(a), CIdSpec::Except(b)) => {
                proof {
                    let w: u32 = if a != 0 && b != 0 {
                        0
                    } else if a != 1 && b != 1 {
                        1
                    } else {
                        2
                    };
                    assert(CIdSpec::Except(a).spec_matches(w) && CIdSpec::Except(b).spec_matches(w));
                }
                true
            },
        }
    }
}

} // verus!
