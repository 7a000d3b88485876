//! The order of game versions.
use vstd::prelude::*;

use core::cmp::Ordering;
use vstd::std_specs::cmp::PartialOrdSpecImpl;

use crate::version::Version;

verus! {

/// The order of two numbers.
pub open spec fn number_order(a: u8, b: u8) -> Ordering {
    if a < b {
        Ordering::Less
    } else if a > b {
        Ordering::Greater
    } else {
        Ordering::Equal
    }
}

/// Versions are ordered by their major number, then by their minor number.
pub open spec fn version_order(a: (u8, u8), b: (u8, u8)) -> Ordering {
    if a.0 == b.0 {
        number_order(a.1, b.1)
    } else {
        number_order(a.0, b.0)
    }
}

impl PartialOrd for Version {
    fn partial_cmp(&self, other: &Self) -> (r: Option<Ordering>) {
        if self.major() == other.major() {
            self.minor().partial_cmp(&other.minor())
        } else {
            self.major().partial_cmp(&other.major())
        }
    }
}

impl PartialOrdSpecImpl for Version {
    open spec fn obeys_partial_cmp_spec() -> bool {
        true
    }

    open spec fn partial_cmp_spec(&self, other: &Self) -> Option<Ordering> {
        Some(version_order(self@, other@))
    }
}

/// The order of versions agrees with their equality, is antisymmetric and
/// transitive: versions form a total order.
pub proof fn lemma_version_order(a: Version, b: Version, c: Version)
    ensures
        (version_order(a@, b@) == Ordering::Equal) <==> a == b,
        (version_order(a@, b@) == Ordering::Less) <==> (version_order(b@, a@) == Ordering::Greater),
        version_order(a@, b@) == Ordering::Less && version_order(b@, c@) == Ordering::Less
            ==> version_order(a@, c@) == Ordering::Less,
{
    crate::version::lemma_version_view(a, b);
}

} // verus!
