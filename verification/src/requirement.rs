//! Version requirement strings: classification, validation and normalization.
//!
//! A version given on the command line is either a bare version (`1.2.3`),
//! which stands for the exact requirement `=1.2.3`, or a requirement
//! expression (`~1.2`, `>=1.0, <2.0`, `1.2.*`), which is validated and
//! normalized by the requirement library.

use vstd::prelude::*;

use crate::errors::CloneError;

verus! {

/// The characters that open an explicit requirement expression.
pub open spec fn is_op_char(c: char) -> bool {
    c == '<' || c == '>' || c == '=' || c == '^' || c == '~'
}

/// A version string is read as a requirement expression (rather than as a
/// bare version) when it opens with an operator or mentions a wildcard.
pub open spec fn is_req_expr(s: Seq<char>) -> bool {
    s.len() > 0 && (is_op_char(s[0]) || s.contains('*'))
}

/// What parsing a requirement string and rendering the parse back to text
/// yields: `None` when the string is not a well-formed requirement,
/// otherwise the normalized rendering.
pub uninterp spec fn normalized_req(s: Seq<char>) -> Option<Seq<char>>;

/// Whether the requirement written as `s` accepts the plain version
/// `major.minor.patch`. Meaningful only when `normalized_req(s)` is `Some`.
pub uninterp spec fn req_accepts(s: Seq<char>, major: u64, minor: u64, patch: u64) -> bool;

/// Relies on `semver::VersionReq::parse` and the `Display` of the parsed
/// requirement: both depend on the requirement string alone. A string the
/// library rejects is reported as `None`; an accepted one as its normalized
/// rendering.
#[verifier::external_body]
pub(crate) fn normalize_req(version: &str) -> (r: Option<String>)
    ensures
        (r is Some) == (normalized_req(version@) is Some),
        r matches Some(s) ==> normalized_req(version@) == Some(s@),
{
    match semver::VersionReq::parse(version) {
        Ok(req) => Some(req.to_string()),
        Err(_) => None,
    }
}

/// Relies on `semver::VersionReq::parse`, `semver::Version::new` and
/// `semver::VersionReq::matches`: whether a requirement accepts a plain
/// `major.minor.patch` version depends on those five values alone.
/// A requirement string the library rejects is reported as `None`.
#[verifier::external_body]
pub(crate) fn req_matches(req: &str, major: u64, minor: u64, patch: u64) -> (r: Option<bool>)
    ensures
        (r is Some) == (normalized_req(req@) is Some),
        r matches Some(b) ==> b == req_accepts(req@, major, minor, patch),
{
    match semver::VersionReq::parse(req) {
        Ok(parsed) => Some(parsed.matches(&semver::Version::new(major, minor, patch))),
        Err(_) => None,
    }
}

/// Whether the character `c` occurs in `s`.
fn contains_char(s: &str, c: char) -> (b: bool)
    ensures
        b == s@.contains(c),
{
    let len: usize = s.unicode_len();
    let mut i: usize = 0;
    while i < len
        invariant
            len == s@.len(),
            i <= len,
            forall|j: int| 0 <= j < i ==> s@[j] != c,
        decreases len - i,
    {
        if s.get_char(i) == c {
            proof {
                assert(s@.contains(c)) by {
                    assert(s@[i as int] == c);
                }
            }
            return true;
        }
        i += 1;
    }
    false
}

/// The report raised for an empty version string.
pub open spec fn empty_version_message() -> Seq<char> {
    "Version cannot be empty."@
}

/// The report raised for a requirement expression the library rejects.
pub open spec fn invalid_req_message(version: Seq<char>) -> Seq<char> {
    "Invalid version requirement: `"@ + version + "`."@
}

/// What turning a version string into a requirement string yields: the
/// requirement on success, the report text of the malformed version
/// otherwise. A bare version `x.y.z` stands for the exact requirement
/// `=x.y.z`; a requirement expression is kept, normalized.
pub open spec fn spec_parse_version_req(v: Seq<char>) -> Result<Seq<char>, Seq<char>> {
    if v.len() == 0 {
        Err(empty_version_message())
    } else if !is_req_expr(v) {
        Ok(seq!['='] + v)
    } else {
        match normalized_req(v) {
            Some(n) => Ok(n),
            None => Err(invalid_req_message(v)),
        }
    }
}

/// Turn a version string from the command line into a requirement string.
///
/// A bare version `x.y.z` becomes the exact requirement `=x.y.z`; an explicit
/// requirement expression is validated and normalized; an empty or
/// unparseable string is a malformed specification.
pub fn parse_version_req(version: &str) -> (r: Result<String, CloneError>)
    ensures
        match spec_parse_version_req(version@) {
            Ok(n) => r matches Ok(s) && s@ == n,
            Err(m) => (r matches Err(e)
                && e matches CloneError::MalformedSpec { message }
                && message@ == m),
        },
{
    let len: usize = version.unicode_len();
    if len == 0 {
        return Err(
            CloneError::MalformedSpec { message: String::from_str("Version cannot be empty.") },
        );
    }

    let first = version.get_char(0);
    let is_req = first == '<' || first == '>' || first == '=' || first == '^' || first == '~'
        || contains_char(version, '*');

    if is_req {
        match normalize_req(version) {
            Some(s) => Ok(s),
            None => {
                let mut m = String::from_str("Invalid version requirement: `");
                m.append(version);
                m.append("`.");
                Err(CloneError::MalformedSpec { message: m })
            },
        }
    } else {
        let mut s = String::from_str("=");
        s.append(version);
        proof {
            reveal_strlit("=");
            assert(s@ =~= seq!['='] + version@);
        }
        Ok(s)
    }
}

} // verus!
