//! Plain semantic versions and their total order.
//!
//! Registry candidates carry a released version `major.minor.patch`; released
//! versions have no pre-release part, so the numeric triple, compared
//! lexicographically, carries the whole precedence order.

use vstd::prelude::*;

verus! {

/// A released version: the `major.minor.patch` triple.
#[derive(PartialEq, Eq, Structural, Clone, Copy, Debug)]
pub struct Version {
    pub major: u64,
    pub minor: u64,
    pub patch: u64,
}

/// Lexicographic order on the version triple: `a` is at most `b`.
pub open spec fn version_le(a: Version, b: Version) -> bool {
    a.major < b.major || (a.major == b.major && (a.minor < b.minor || (a.minor == b.minor
        && a.patch <= b.patch)))
}

/// Strict part of [`version_le`].
pub open spec fn version_lt(a: Version, b: Version) -> bool {
    version_le(a, b) && a != b
}

impl Version {
    /// Build a version from its three numeric components.
    pub fn new(major: u64, minor: u64, patch: u64) -> (v: Version)
        ensures
            v == (Version { major, minor, patch }),
    {
        Version { major, minor, patch }
    }

    /// Whether `self` is at most `other` in the version order.
    pub fn le(&self, other: &Version) -> (r: bool)
        ensures
            r == version_le(*self, *other),
    {
        self.major < other.major || (self.major == other.major && (self.minor < other.minor || (
        self.minor == other.minor && self.patch <= other.patch)))
    }
}

/// The text `major.minor.patch` of a version.
pub open spec fn version_text(v: Version) -> Seq<char> {
    crate::decimal::dec_str(v.major as nat) + seq!['.'] + crate::decimal::dec_str(v.minor as nat)
        + seq!['.'] + crate::decimal::dec_str(v.patch as nat)
}

/// Render a version as `major.minor.patch`.
pub fn version_string(v: &Version) -> (r: String)
    ensures
        r@ == version_text(*v),
{
    let mut r = crate::decimal::u64_to_dec(v.major);
    r.append(".");
    let minor = crate::decimal::u64_to_dec(v.minor);
    r.append(minor.as_str());
    r.append(".");
    let patch = crate::decimal::u64_to_dec(v.patch);
    r.append(patch.as_str());
    proof {
        reveal_strlit(".");
        assert(r@ =~= version_text(*v));
    }
    r
}

/// The version order is total: two versions always compare one way or the other.
pub proof fn lemma_version_order_total(a: Version, b: Version)
    ensures
        version_le(a, b) || version_le(b, a),
        version_le(a, b) && version_le(b, a) ==> a == b,
{
}

} // verus!
