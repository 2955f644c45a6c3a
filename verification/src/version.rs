//! HTTP protocol versions and their total order.

use crate::text::{dec_rep, u64_to_decimal};
use core::cmp::Ordering;
use vstd::prelude::*;

verus! {

/// HTTP version (usually 1.0 or 1.1): a major and a minor number.
///
/// The order is lexicographic: the major numbers decide, and on a tie the
/// minor numbers do. Downstream negotiation logic (keep-alive defaults,
/// chunked-encoding eligibility) depends on this order.
#[derive(Clone, Copy, Debug, PartialEq, Eq, Structural, Ord)]
pub struct HTTPVersion(pub usize, pub usize);

/// The lexicographic comparison of two versions, major number first.
pub open spec fn spec_version_cmp(a: HTTPVersion, b: HTTPVersion) -> Ordering {
    if a.0 < b.0 {
        Ordering::Less
    } else if a.0 > b.0 {
        Ordering::Greater
    } else if a.1 < b.1 {
        Ordering::Less
    } else if a.1 > b.1 {
        Ordering::Greater
    } else {
        Ordering::Equal
    }
}

impl PartialOrd for HTTPVersion {
    fn partial_cmp(&self, other: &HTTPVersion) -> (r: Option<Ordering>) {
        if self.0 != other.0 {
            if self.0 < other.0 {
                Some(Ordering::Less)
            } else {
                Some(Ordering::Greater)
            }
        } else if self.1 < other.1 {
            Some(Ordering::Less)
        } else if self.1 > other.1 {
            Some(Ordering::Greater)
        } else {
            Some(Ordering::Equal)
        }
    }
}

impl vstd::std_specs::cmp::PartialOrdSpecImpl for HTTPVersion {
    open spec fn obeys_partial_cmp_spec() -> bool {
        true
    }

    open spec fn partial_cmp_spec(&self, other: &HTTPVersion) -> Option<Ordering> {
        Some(spec_version_cmp(*self, *other))
    }
}

impl HTTPVersion {
    /// The canonical text of this version: `<major>.<minor>` in decimal.
    pub fn to_text(&self) -> (s: String)
        ensures
            s@ == dec_rep(self.0 as nat) + seq!['.'] + dec_rep(self.1 as nat),
    {
        let mut s = u64_to_decimal(self.0 as u64);
        s.append(".");
        let minor = u64_to_decimal(self.1 as u64);
        s.append(minor.as_str());
        proof {
            reveal_strlit(".");
            assert(s@ =~= dec_rep(self.0 as nat) + seq!['.'] + dec_rep(self.1 as nat));
        }
        s
    }
}

} // verus!
