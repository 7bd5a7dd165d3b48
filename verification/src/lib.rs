//! Fetch the source code of a Rust crate from a registry.
//!
//! The crate models the fetch pipeline as verified logic over plain values:
//! parsing `name@version` specifications, selecting the best matching
//! version among candidate summaries, computing destination paths, and
//! planning the copy of a fetched source tree. Filesystem, network and
//! subprocess work is left to a driver that feeds events back in.

pub mod args;
pub mod decimal;
pub mod errors;
pub mod paths;
pub mod placement;
pub mod requirement;
pub mod select;
pub mod session;
pub mod source;
pub mod version;

pub use crate::errors::CloneError;
pub use crate::session::{Action, CloneSession, Cloner, ClonerBuilder};
pub use crate::source::{CargoSource, ClonerSource};

use vstd::prelude::*;

use crate::requirement::{empty_version_message, is_req_expr, normalized_req,
    spec_parse_version_req};

verus! {

/// A requested package: a name and an optional version requirement.
#[derive(PartialEq, Eq, Debug)]
pub struct Crate {
    pub name: String,
    pub version: Option<String>,
}

impl Crate {
    /// Create a new [`Crate`].
    /// If `version` is not specified, the latest version is chosen.
    pub fn new(name: String, version: Option<String>) -> (c: Crate)
        ensures
            c.name == name,
            c.version == version,
    {
        Crate { name, version }
    }
}

/// The report raised for a specification whose name part is missing.
pub open spec fn name_missing_message(s: Seq<char>) -> Seq<char> {
    "Crate name missing in `"@ + s + "`."@
}

/// What parsing a `name[@version]` specification yields: the name and the
/// normalized requirement on success, the report text of the malformed
/// specification otherwise. The name is everything before the first `@`;
/// everything after it is the version side, so nothing is dropped.
pub open spec fn spec_parse_crate(s: Seq<char>) -> Result<
    (Seq<char>, Option<Seq<char>>),
    Seq<char>,
> {
    match s.index_of_first('@') {
        None => if s.len() == 0 {
            Err(name_missing_message(s))
        } else {
            Ok((s, None))
        },
        Some(i) => if i == 0 {
            Err(name_missing_message(s))
        } else {
            match spec_parse_version_req(s.subrange(i + 1, s.len() as int)) {
                Ok(n) => Ok((s.subrange(0, i), Some(n))),
                Err(m) => Err(m),
            }
        },
    }
}

/// Position of the first occurrence of `c` in `s`, if any.
fn find_first(s: &str, c: char) -> (r: Option<usize>)
    ensures
        match r {
            Some(i) => i < s@.len() && s@.index_of_first(c) == Some(i as int),
            None => s@.index_of_first(c) is None,
        },
{
    let len: usize = s.unicode_len();
    let mut i: usize = 0;
    while i < len
        invariant
            len == s@.len(),
            i <= len,
            forall|j: int| 0 <= j < i ==> s@[j] != c,
        decreases len - i,
    {
        if s.get_char(i) == c {
            proof {
                s@.index_of_first_ensures(c);
                assert(s@.contains(c)) by {
                    assert(s@[i as int] == c);
                }
            }
            return Some(i);
        }
        i += 1;
    }
    proof {
        s@.index_of_first_ensures(c);
    }
    None
}

/// Parses crate specifications like: crate, crate@x.y.z, crate@~23.4.5.
///
/// The name is everything before the first `@`; the whole remainder is read
/// as the version requirement. A missing name, an empty version or an
/// unparseable requirement is a malformed specification.
pub fn parse_name_and_version(spec: &str) -> (r: Result<Crate, CloneError>)
    ensures
        match spec_parse_crate(spec@) {
            Ok((n, v)) => r matches Ok(c) && c.name@ == n && c.version.deep_view() == v,
            Err(m) => (r matches Err(e)
                && e matches CloneError::MalformedSpec { message }
                && message@ == m),
        },
{
    let len: usize = spec.unicode_len();
    match find_first(spec, '@') {
        None => {
            if len == 0 {
                Err(CloneError::MalformedSpec { message: name_missing_report(spec) })
            } else {
                Ok(Crate::new(spec.to_owned(), None))
            }
        },
        Some(i) => {
            if i == 0 {
                Err(CloneError::MalformedSpec { message: name_missing_report(spec) })
            } else {
                let name = spec.substring_char(0, i);
                let version = spec.substring_char(i + 1, len);
                match crate::requirement::parse_version_req(version) {
                    Ok(req) => Ok(Crate::new(name.to_owned(), Some(req))),
                    Err(e) => Err(e),
                }
            }
        },
    }
}

/// Splitting at the separator: in `name@ver`, when the name has no `@` of
/// its own, the name is everything before the first `@` and the version is
/// everything after it.
proof fn lemma_split_at(name: Seq<char>, ver: Seq<char>)
    requires
        name.len() > 0,
        !name.contains('@'),
    ensures
        (name + seq!['@'] + ver).index_of_first('@') == Some(name.len() as int),
        (name + seq!['@'] + ver).subrange(0, name.len() as int) == name,
        (name + seq!['@'] + ver).subrange(name.len() as int + 1, (name + seq!['@'] + ver).len() as int)
            == ver,
{
    let s = name + seq!['@'] + ver;
    s.index_of_first_ensures('@');
    assert(s[name.len() as int] == '@');
    assert(s.contains('@'));
    let i = s.index_of_first('@').unwrap();
    assert(i == name.len()) by {
        if i > name.len() {
            assert(s[name.len() as int] != '@');
        } else if i < name.len() {
            assert(name[i] == '@');
            assert(name.contains('@'));
        }
    }
    assert(s.subrange(0, name.len() as int) =~= name);
    assert(s.subrange(name.len() as int + 1, s.len() as int) =~= ver);
}

/// Law: a specification without an `@` is a plain name and carries no
/// version requirement.
pub proof fn lemma_parse_plain_name(s: Seq<char>)
    requires
        s.len() > 0,
        !s.contains('@'),
    ensures
        spec_parse_crate(s) == Ok::<_, Seq<char>>((s, None::<Seq<char>>)),
{
    s.index_of_first_ensures('@');
    if s.index_of_first('@') is Some {
        assert(s.contains('@'));
    }
}

/// Law: `name@x.y.z` with a bare version — no leading operator, no
/// wildcard — parses to the exact requirement `=x.y.z`.
pub proof fn lemma_parse_exact_version(name: Seq<char>, ver: Seq<char>)
    requires
        name.len() > 0,
        !name.contains('@'),
        ver.len() > 0,
        !is_req_expr(ver),
    ensures
        spec_parse_crate(name + seq!['@'] + ver) == Ok::<_, Seq<char>>(
            (name, Some(seq!['='] + ver)),
        ),
{
    lemma_split_at(name, ver);
}

/// Law: `name@expr` with a requirement expression the requirement library
/// accepts parses to that requirement, normalized.
pub proof fn lemma_parse_requirement_expression(name: Seq<char>, ver: Seq<char>)
    requires
        name.len() > 0,
        !name.contains('@'),
        is_req_expr(ver),
        normalized_req(ver) is Some,
    ensures
        spec_parse_crate(name + seq!['@'] + ver) == Ok::<_, Seq<char>>(
            (name, Some(normalized_req(ver).unwrap())),
        ),
{
    lemma_split_at(name, ver);
}

/// Law: `name@` with an empty version is a malformed specification.
pub proof fn lemma_parse_empty_version(name: Seq<char>)
    requires
        name.len() > 0,
        !name.contains('@'),
    ensures
        spec_parse_crate(name + seq!['@']) matches Err(m) && m == empty_version_message(),
{
    lemma_split_at(name, Seq::<char>::empty());
    assert(name + seq!['@'] =~= name + seq!['@'] + Seq::<char>::empty());
}

/// Builds the report of [`name_missing_message`].
fn name_missing_report(spec: &str) -> (r: String)
    ensures
        r@ == name_missing_message(spec@),
{
    let mut m = String::from_str("Crate name missing in `");
    m.append(spec);
    m.append("`.");
    m
}

} // verus!
