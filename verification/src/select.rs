//! Version selection: pick the best candidate among query results.
//!
//! A query yields one summary per candidate version. Selection keeps the
//! candidates the requirement accepts and picks the greatest version among
//! them; among equal versions the last one seen wins.

use vstd::prelude::*;

use crate::errors::CloneError;
use crate::requirement::{invalid_req_message, normalize_req, req_accepts, req_matches,
    normalized_req};
use crate::version::{version_le, version_lt, Version};

verus! {

/// One candidate package version, as a query reports it.
#[derive(PartialEq, Eq, Debug, Clone)]
pub struct Summary {
    pub name: String,
    pub version: Version,
}

/// Whether a requirement (absent: match everything) accepts a summary.
pub open spec fn summary_matches(s: Summary, req: Option<Seq<char>>) -> bool {
    match req {
        None => true,
        Some(r) => req_accepts(r, s.version.major, s.version.minor, s.version.patch),
    }
}

/// Whether an optional requirement string is well-formed.
pub open spec fn req_valid(req: Option<Seq<char>>) -> bool {
    match req {
        None => true,
        Some(r) => normalized_req(r) is Some,
    }
}

/// Whether `ss[i]` is the candidate selection picks: it is accepted by the
/// requirement, carries the greatest accepted version, and is the last
/// accepted carrier of that version.
pub open spec fn selected(ss: Seq<Summary>, req: Option<Seq<char>>, i: int) -> bool {
    &&& req_valid(req)
    &&& 0 <= i < ss.len()
    &&& summary_matches(ss[i], req)
    &&& forall|j: int|
        0 <= j < ss.len() && summary_matches(ss[j], req) ==> version_le(
            ss[j].version,
            ss[i].version,
        )
    &&& forall|j: int|
        i < j < ss.len() && summary_matches(ss[j], req) ==> version_lt(
            ss[j].version,
            ss[i].version,
        )
}

/// Pick the candidate to fetch: the index of the greatest version accepted
/// by the requirement, the last one in query order among equals.
///
/// Fails with a malformed-specification error when the requirement string
/// does not parse, and with package-not-found when no candidate is accepted.
pub fn select_summary(summaries: &Vec<Summary>, name: &str, req: &Option<String>) -> (r: Result<
    usize,
    CloneError,
>)
    ensures
        match r {
            Ok(i) => selected(summaries@, req.deep_view(), i as int),
            Err(e) => match e {
                CloneError::PackageNotFound { name: n, req: rq } => req_valid(req.deep_view())
                    && n@ == name@ && rq.deep_view() == req.deep_view() && (forall|j: int|
                    0 <= j < summaries@.len() ==> !summary_matches(summaries@[j], req.deep_view())),
                CloneError::MalformedSpec { message } => !req_valid(req.deep_view()) && (
                req matches Some(rs) ==> message@ == invalid_req_message(rs@)),
                _ => false,
            },
        },
{
    match req {
        Some(rs) => {
            if normalize_req(rs.as_str()).is_none() {
                let mut m = String::from_str("Invalid version requirement: `");
                m.append(rs.as_str());
                m.append("`.");
                return Err(CloneError::MalformedSpec { message: m });
            }
        },
        None => {},
    }

    let ghost rv = req.deep_view();
    let mut best: usize = 0;
    let mut have: bool = false;
    let n: usize = summaries.len();
    let mut i: usize = 0;
    while i < n
        invariant
            n == summaries@.len(),
            i <= n,
            req_valid(rv),
            rv == req.deep_view(),
            have ==> best < i && summary_matches(summaries@[best as int], rv),
            have ==> forall|j: int|
                0 <= j < i && summary_matches(summaries@[j], rv) ==> version_le(
                    summaries@[j].version,
                    summaries@[best as int].version,
                ),
            have ==> forall|j: int|
                best < j < i && summary_matches(summaries@[j], rv) ==> version_lt(
                    summaries@[j].version,
                    summaries@[best as int].version,
                ),
            !have ==> forall|j: int| 0 <= j < i ==> !summary_matches(summaries@[j], rv),
        decreases n - i,
    {
        let s = &summaries[i];
        let m: bool = match req {
            None => true,
            Some(rs) => {
                match req_matches(rs.as_str(), s.version.major, s.version.minor, s.version.patch) {
                    Some(b) => b,
                    None => vstd::pervasive::unreached(),
                }
            },
        };
        if m {
            if !have || summaries[best].version.le(&s.version) {
                best = i;
                have = true;
            }
        }
        i += 1;
    }

    if have {
        Ok(best)
    } else {
        let req_copy: Option<String> = match req {
            Some(rs) => Some(rs.clone()),
            None => None,
        };
        Err(CloneError::PackageNotFound { name: name.to_owned(), req: req_copy })
    }
}

} // verus!
