//! Where the crates are cloned from.

use vstd::prelude::*;

use crate::errors::CloneError;
use crate::paths::path_join;
use crate::paths::join_path;

verus! {

/// Whether a string parses as a registry index URL.
pub uninterp spec fn url_ok(s: Seq<char>) -> bool;

/// Relies on `url::Url::parse`: whether a string parses as a URL depends on
/// the string alone.
#[verifier::external_body]
fn parse_url_ok(s: &str) -> (r: bool)
    ensures
        r == url_ok(s@),
{
    url::Url::parse(s).is_ok()
}

/// The report raised for an index string that is not a URL.
pub open spec fn invalid_url_message(u: Seq<char>) -> Seq<char> {
    "invalid url `"@ + u + "`"@
}

/// The concrete kind of source a clone reads from.
#[derive(Debug)]
pub enum CargoSource {
    /// The default public registry.
    CratesIo,
    /// A registry reached through its index URL.
    Index { url: String },
    /// A local registry directory.
    LocalRegistry { path: String },
    /// A registry named in the configuration.
    Registry { name: String },
}

impl CargoSource {
    /// An identical copy.
    pub fn duplicate(&self) -> (s: CargoSource)
        ensures
            s == *self,
    {
        match self {
            CargoSource::CratesIo => CargoSource::CratesIo,
            CargoSource::Index { url } => CargoSource::Index { url: url.clone() },
            CargoSource::LocalRegistry { path } => CargoSource::LocalRegistry {
                path: path.clone(),
            },
            CargoSource::Registry { name } => CargoSource::Registry { name: name.clone() },
        }
    }

    /// Resolve against the working directory: a local registry path is
    /// anchored there; every other source is kept as it is.
    pub fn anchored(self, cwd: &str) -> (s: CargoSource)
        ensures
            match self {
                CargoSource::LocalRegistry { path } => (s matches CargoSource::LocalRegistry {
                    path: p,
                } && p@ == path_join(cwd@, path@)),
                _ => s == self,
            },
    {
        match self {
            CargoSource::LocalRegistry { path } => CargoSource::LocalRegistry {
                path: join_path(cwd, path.as_str()),
            },
            other => other,
        }
    }
}

impl Default for CargoSource {
    /// The default public registry.
    fn default() -> (s: Self)
        ensures
            s is CratesIo,
    {
        CargoSource::CratesIo
    }
}

/// Where to clone the crate from.
#[derive(Debug)]
pub struct ClonerSource {
    pub cargo_source: CargoSource,
}

impl Default for ClonerSource {
    /// The default public registry.
    fn default() -> (s: Self)
        ensures
            s.cargo_source is CratesIo,
    {
        ClonerSource::crates_io()
    }
}

impl ClonerSource {
    /// Creates a [`ClonerSource`] from the name of the remote registry.
    pub fn registry(key: String) -> (s: Self)
        ensures
            s.cargo_source == (CargoSource::Registry { name: key }),
    {
        Self { cargo_source: CargoSource::Registry { name: key } }
    }

    /// Creates a [`ClonerSource`] from a local registry path.
    pub fn local_registry(path: String) -> (s: Self)
        ensures
            s.cargo_source == (CargoSource::LocalRegistry { path }),
    {
        Self { cargo_source: CargoSource::LocalRegistry { path } }
    }

    /// Creates a [`ClonerSource`] from a remote registry URL, rejecting a
    /// string that does not parse as one.
    pub fn index(index: &str) -> (r: Result<Self, CloneError>)
        ensures
            url_ok(index@) ==> (r matches Ok(s) && s.cargo_source matches CargoSource::Index {
                url,
            } && url@ == index@),
            !url_ok(index@) ==> (r matches Err(e) && e matches CloneError::InvalidSourceConfig {
                message,
            } && message@ == invalid_url_message(index@)),
    {
        if parse_url_ok(index) {
            Ok(Self { cargo_source: CargoSource::Index { url: String::from_str(index) } })
        } else {
            let mut m = String::from_str("invalid url `");
            m.append(index);
            m.append("`");
            Err(CloneError::InvalidSourceConfig { message: m })
        }
    }

    /// Creates a [`ClonerSource`] from the default public registry.
    pub fn crates_io() -> (s: Self)
        ensures
            s.cargo_source is CratesIo,
    {
        Self { cargo_source: CargoSource::CratesIo }
    }
}

} // verus!
