//! The failures the fetch pipeline can report.

use vstd::prelude::*;

verus! {

/// A terminal failure of one clone invocation.
///
/// Each variant carries the values its report is built from; [`CloneError::message`]
/// renders the report text.
#[derive(PartialEq, Eq, Debug, Clone)]
pub enum CloneError {
    /// The `name@version` specification could not be parsed:
    /// missing name, empty version, or an unparseable requirement expression.
    MalformedSpec { message: String },
    /// The source descriptor does not resolve: a registry index string that is
    /// not a URL, or a registry name absent from the configuration.
    InvalidSourceConfig { message: String },
    /// No candidate version matched the package name and requirement.
    PackageNotFound { name: String, req: Option<String> },
    /// The destination directory exists and already holds an entry.
    DestinationNotEmpty { path: String },
    /// The destination path exists but is not a directory.
    DestinationNotDirectory { path: String },
    /// Git mode was requested but the package manifest declares no repository.
    MissingRepositoryMetadata { name: String },
    /// The clone subprocess could not be spawned or exited with failure.
    GitCloneFailed,
    /// An underlying filesystem or network operation failed; the report
    /// describes the operation in progress.
    Io { message: String },
}

/// The report text of a [`CloneError`], spelled out character by character.
pub open spec fn spec_message(e: CloneError) -> Seq<char> {
    match e {
        CloneError::MalformedSpec { message } => message@,
        CloneError::InvalidSourceConfig { message } => message@,
        CloneError::PackageNotFound { name, req } => {
            let shown_req = match req {
                Some(r) => r@,
                None => "*.*.*"@,
            };
            "Package `"@ + name@ + "@"@ + shown_req + "` not found"@
        },
        CloneError::DestinationNotEmpty { path } => {
            "destination path '"@ + path@ + "' already exists and is not an empty directory."@
        },
        CloneError::DestinationNotDirectory { path } => "Not a directory: "@ + path@,
        CloneError::MissingRepositoryMetadata { name } => {
            "Cannot clone "@ + name@
                + " from git repo because it is not specified in package's manifest."@
        },
        CloneError::GitCloneFailed => "Failed to clone from git repo."@,
        CloneError::Io { message } => message@,
    }
}

impl CloneError {
    /// Render the report text of this failure.
    pub fn message(&self) -> (r: String)
        ensures
            r@ == spec_message(*self),
    {
        match self {
            CloneError::MalformedSpec { message } => message.clone(),
            CloneError::InvalidSourceConfig { message } => message.clone(),
            CloneError::PackageNotFound { name, req } => {
                let mut m = String::from_str("Package `");
                m.append(name.as_str());
                m.append("@");
                match req {
                    Some(r) => m.append(r.as_str()),
                    None => m.append("*.*.*"),
                }
                m.append("` not found");
                m
            },
            CloneError::DestinationNotEmpty { path } => {
                let mut m = String::from_str("destination path '");
                m.append(path.as_str());
                m.append("' already exists and is not an empty directory.");
                m
            },
            CloneError::DestinationNotDirectory { path } => {
                let mut m = String::from_str("Not a directory: ");
                m.append(path.as_str());
                m
            },
            CloneError::MissingRepositoryMetadata { name } => {
                let mut m = String::from_str("Cannot clone ");
                m.append(name.as_str());
                m.append(" from git repo because it is not specified in package's manifest.");
                m
            },
            CloneError::GitCloneFailed => String::from_str("Failed to clone from git repo."),
            CloneError::Io { message } => message.clone(),
        }
    }
}

} // verus!
