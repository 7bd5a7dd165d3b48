//! The clone run as a verified state machine.
//!
//! A [`Cloner`] describes one batch: the crates, the base directory, the
//! source and the mode. Starting it yields a [`CloneSession`], which hands
//! the driver one [`Action`] at a time — acquire the cache lock, prepare a
//! destination, query, download, copy or clone — and takes the outcome of
//! each back through one callback. Every decision between two actions is
//! verified; the driver only performs filesystem, network and subprocess
//! work and reports what happened. Crates are processed strictly in input
//! order, and the first failure ends the run.

use vstd::prelude::*;

use crate::errors::CloneError;
use crate::paths::{path_join, path_under};
use crate::paths::join_path;
use crate::placement::{spec_copy_plan, CopyAction, TreeEntry};
use crate::placement::plan_copy;
use crate::requirement::invalid_req_message;
use crate::select::{req_valid, selected, summary_matches, Summary};
use crate::select::select_summary;
use crate::source::CargoSource;
use crate::version::{version_text, Version};
use crate::version::version_string;
use crate::Crate;

verus! {

/// What the driver must do next.
#[derive(Debug)]
pub enum Action {
    /// Take the process-wide download-cache lock, held for the whole batch.
    AcquireLock,
    /// Turn the source descriptor into a queryable handle.
    ResolveSource { source: CargoSource },
    /// Create the destination directory if it does not exist, then report
    /// whether it is a directory and whether it is empty.
    PrepareDest { path: String },
    /// Show a structured notice; `verbose_only` ones only under verbosity.
    Notice { text: String, verbose_only: bool },
    /// Query the source for all summaries of the named package.
    Query { name: String, req: Option<String> },
    /// The source reported a pending query: block until it is ready.
    BlockUntilReady,
    /// Download the chosen package and report its unpacked root and the
    /// repository its manifest declares.
    Download { name: String, version: Version },
    /// Walk the downloaded tree and report every entry.
    ListTree { root: String },
    /// Carry out the planned copy steps, in order.
    CopyTree { actions: Vec<CopyAction> },
    /// Run the version-control clone of `url` into `dest`.
    GitClone { url: String, dest: String },
    /// The batch is complete; release the lock.
    Finished,
}

/// Which answer the session waits for.
#[derive(Debug)]
pub enum Phase {
    Init,
    AwaitLock,
    AwaitSource,
    AwaitDest,
    AwaitCloneNotice,
    AwaitQuery,
    AwaitReady,
    AwaitDownloadNotice,
    AwaitDownload,
    AwaitList,
    AwaitCopy,
    AwaitGit,
    Done,
}

/// One batch in progress.
#[derive(Debug)]
pub struct CloneSession {
    /// The requested crates, in input order.
    pub crates: Vec<Crate>,
    /// The base directory of the batch.
    pub directory: String,
    /// Whether each crate goes into its own subdirectory of the base.
    pub append: bool,
    /// Whether to clone the declared repository instead of copying.
    pub use_git: bool,
    /// Where the crates are fetched from.
    pub source: CargoSource,
    /// The crate being processed.
    pub idx: usize,
    /// Which answer the session waits for.
    pub phase: Phase,
    /// The destination of the crate being processed.
    pub dest: String,
    /// Whether that destination is a directory, as last reported.
    pub dest_is_dir: bool,
    /// Whether that destination is empty, as last reported.
    pub dest_empty: bool,
    /// The summaries collected for the crate being processed.
    pub summaries: Vec<Summary>,
    /// The candidate selection picked.
    pub chosen: Option<Summary>,
    /// The unpacked root of the downloaded package.
    pub pkg_root: String,
}

/// The batch description never changes while a session runs.
pub open spec fn same_request(a: CloneSession, b: CloneSession) -> bool {
    &&& b.crates == a.crates
    &&& b.directory == a.directory
    &&& b.append == a.append
    &&& b.use_git == a.use_git
    &&& b.source == a.source
}

/// The destination of crate `k`: a subdirectory named after it when the
/// batch appends crate subdirectories, the base directory itself otherwise.
pub open spec fn dest_for(s: CloneSession, k: int) -> Seq<char> {
    if s.append {
        path_join(s.directory@, s.crates@[k].name@)
    } else {
        s.directory@
    }
}

/// The crate the session is processing.
pub open spec fn current_crate(s: CloneSession) -> Crate {
    s.crates@[s.idx as int]
}

/// The notice shown before a destination is checked.
pub open spec fn cloning_notice(dir: Seq<char>) -> Seq<char> {
    "Cloning into \""@ + dir + "\""@
}

/// The notice shown before a download.
pub open spec fn downloading_notice(name: Seq<char>, v: Version) -> Seq<char> {
    "Downloading "@ + name + " "@ + version_text(v)
}

/// A session either still points at a crate to process, or is past them
/// all; a picked candidate is at hand whenever a download is in flight.
impl CloneSession {
    pub open spec fn wf(self) -> bool {
        &&& self.idx <= self.crates@.len()
        &&& (self.phase is AwaitDest || self.phase is AwaitCloneNotice || self.phase is AwaitQuery
            || self.phase is AwaitReady || self.phase is AwaitDownloadNotice
            || self.phase is AwaitDownload || self.phase is AwaitList || self.phase is AwaitCopy
            || self.phase is AwaitGit ==> self.idx < self.crates@.len())
        &&& (self.phase is AwaitDownloadNotice || self.phase is AwaitDownload
            ==> self.chosen is Some)
    }
}

/// The session turned to crate `k`: its destination is computed and asked
/// for, or the batch is complete when no crate is left.
pub open spec fn crate_started(pre: CloneSession, post: CloneSession, a: Action, k: int) -> bool {
    &&& same_request(pre, post)
    &&& post.idx == k
    &&& if k >= pre.crates@.len() {
        post.phase is Done && a is Finished
    } else {
        post.phase is AwaitDest && post.dest@ == dest_for(pre, k) && (a matches Action::PrepareDest {
            path,
        } && path@ == dest_for(pre, k))
    }
}

impl CloneSession {
    /// Turn to the crate at `idx`, or finish the batch past the last one.
    fn start_crate(&mut self) -> (a: Action)
        requires
            old(self).idx <= old(self).crates@.len(),
        ensures
            final(self).wf(),
            crate_started(*old(self), *final(self), a, old(self).idx as int),
    {
        if self.idx >= self.crates.len() {
            self.phase = Phase::Done;
            Action::Finished
        } else {
            let dest = if self.append {
                join_path(self.directory.as_str(), self.crates[self.idx].name.as_str())
            } else {
                self.directory.clone()
            };
            self.dest = dest.clone();
            self.phase = Phase::AwaitDest;
            Action::PrepareDest { path: dest }
        }
    }

    /// Begin the batch: the cache lock comes first.
    pub fn start(&mut self) -> (a: Action)
        requires
            old(self).wf(),
            old(self).phase is Init,
        ensures
            final(self).wf(),
            same_request(*old(self), *final(self)),
            final(self).idx == old(self).idx,
            final(self).phase is AwaitLock,
            a is AcquireLock,
    {
        self.phase = Phase::AwaitLock;
        Action::AcquireLock
    }

    /// The lock is held: the source descriptor is resolved next.
    pub fn on_lock_acquired(&mut self) -> (a: Action)
        requires
            old(self).wf(),
            old(self).phase is AwaitLock,
        ensures
            final(self).wf(),
            same_request(*old(self), *final(self)),
            final(self).idx == old(self).idx,
            final(self).phase is AwaitSource,
            a matches Action::ResolveSource { source } && source == old(self).source,
    {
        self.phase = Phase::AwaitSource;
        Action::ResolveSource { source: self.source.duplicate() }
    }

    /// The source handle is there, or the descriptor named no known source.
    pub fn on_source_resolved(&mut self, known: bool) -> (r: Result<Action, CloneError>)
        requires
            old(self).wf(),
            old(self).phase is AwaitSource,
            old(self).idx == 0,
        ensures
            final(self).wf(),
            known ==> (r matches Ok(a) && crate_started(*old(self), *final(self), a, 0)),
            !known ==> (r matches Err(e) && e matches CloneError::InvalidSourceConfig { message }
                && message@ == "can't determine the source id"@ && final(self).phase is Done),
    {
        if known {
            Ok(self.start_crate())
        } else {
            self.phase = Phase::Done;
            Err(
                CloneError::InvalidSourceConfig {
                    message: String::from_str("can't determine the source id"),
                },
            )
        }
    }

    /// The destination was created if missing; its state decides, but only
    /// after the notice is out, as the run reports before it checks.
    pub fn on_dest_prepared(&mut self, is_dir: bool, empty: bool) -> (a: Action)
        requires
            old(self).wf(),
            old(self).phase is AwaitDest,
        ensures
            final(self).wf(),
            same_request(*old(self), *final(self)),
            final(self).idx == old(self).idx,
            final(self).dest == old(self).dest,
            final(self).phase is AwaitCloneNotice,
            final(self).dest_is_dir == is_dir,
            final(self).dest_empty == empty,
            a matches Action::Notice { text, verbose_only } && text@ == cloning_notice(
                old(self).directory@,
            ) && verbose_only == true,
    {
        self.dest_is_dir = is_dir;
        self.dest_empty = empty;
        self.phase = Phase::AwaitCloneNotice;
        let mut text = String::from_str("Cloning into \"");
        text.append(self.directory.as_str());
        text.append("\"");
        proof {
            assert(text@ =~= cloning_notice(self.directory@));
        }
        Action::Notice { text, verbose_only: true }
    }

    /// The notice is out. After the destination notice, a destination that
    /// is no directory or not empty ends the run; otherwise the query
    /// starts. After the download notice, the download starts.
    pub fn on_notice_shown(&mut self) -> (r: Result<Action, CloneError>)
        requires
            old(self).wf(),
            old(self).phase is AwaitCloneNotice || old(self).phase is AwaitDownloadNotice,
        ensures
            final(self).wf(),
            same_request(*old(self), *final(self)),
            final(self).idx == old(self).idx,
            final(self).dest == old(self).dest,
            old(self).phase is AwaitCloneNotice ==> (if !old(self).dest_is_dir {
                (r matches Err(e) && e matches CloneError::DestinationNotDirectory { path }
                    && path@ == old(self).dest@ && final(self).phase is Done)
            } else if !old(self).dest_empty {
                (r matches Err(e) && e matches CloneError::DestinationNotEmpty { path } && path@
                    == old(self).dest@ && final(self).phase is Done)
            } else {
                (r matches Ok(a) && a matches Action::Query { name, req } && name@ == current_crate(
                    *old(self),
                ).name@ && req == current_crate(*old(self)).version && final(self).phase
                    is AwaitQuery && final(self).summaries@ == Seq::<Summary>::empty())
            }),
            old(self).phase is AwaitDownloadNotice ==> (r matches Ok(a) && old(self).chosen
                matches Some(c) && a matches Action::Download { name, version } && name == c.name
                && version == c.version && final(self).phase is AwaitDownload && final(self).chosen
                == old(self).chosen),
    {
        match self.phase {
            Phase::AwaitCloneNotice => {
                if !self.dest_is_dir {
                    self.phase = Phase::Done;
                    return Err(CloneError::DestinationNotDirectory { path: self.dest.clone() });
                }
                if !self.dest_empty {
                    self.phase = Phase::Done;
                    return Err(CloneError::DestinationNotEmpty { path: self.dest.clone() });
                }
                self.summaries = Vec::new();
                self.phase = Phase::AwaitQuery;
                let idx: usize = self.idx;
                let name = self.crates[idx].name.clone();
                let req: Option<String> = match &self.crates[idx].version {
                    Some(v) => Some(v.clone()),
                    None => None,
                };
                Ok(Action::Query { name, req })
            },
            _ => {
                let (name, version) = match &self.chosen {
                    Some(c) => (c.name.clone(), c.version),
                    None => vstd::pervasive::unreached(),
                };
                self.phase = Phase::AwaitDownload;
                Ok(Action::Download { name, version })
            },
        }
    }

    /// The query answered. An incomplete answer is followed up after the
    /// source is ready again; a complete one goes to selection, whose pick
    /// is announced, or whose failure ends the run.
    pub fn on_query_returned(&mut self, summaries: Vec<Summary>, complete: bool) -> (r: Result<
        Action,
        CloneError,
    >)
        requires
            old(self).wf(),
            old(self).phase is AwaitQuery,
        ensures
            final(self).wf(),
            same_request(*old(self), *final(self)),
            final(self).idx == old(self).idx,
            final(self).dest == old(self).dest,
            final(self).summaries@ == old(self).summaries@ + summaries@,
            !complete ==> (r matches Ok(a) && a is BlockUntilReady && final(self).phase
                is AwaitReady),
            complete ==> (match r {
                Ok(a) => {
                    &&& final(self).phase is AwaitDownloadNotice
                    &&& (exists|i: int|
                        selected(
                            old(self).summaries@ + summaries@,
                            current_crate(*old(self)).version.deep_view(),
                            i,
                        ) && final(self).chosen == Some((old(self).summaries@ + summaries@)[i]))
                    &&& (final(self).chosen matches Some(c) && a matches Action::Notice {
                        text,
                        verbose_only,
                    } && text@ == downloading_notice(current_crate(*old(self)).name@, c.version)
                        && verbose_only == false)
                },
                Err(e) => final(self).phase is Done && (match e {
                    CloneError::PackageNotFound { name: n, req: rq } => {
                        &&& req_valid(current_crate(*old(self)).version.deep_view())
                        &&& n@ == current_crate(*old(self)).name@
                        &&& rq.deep_view() == current_crate(*old(self)).version.deep_view()
                        &&& forall|j: int|
                            0 <= j < (old(self).summaries@ + summaries@).len()
                                ==> !summary_matches(
                                (old(self).summaries@ + summaries@)[j],
                                current_crate(*old(self)).version.deep_view(),
                            )
                    },
                    CloneError::MalformedSpec { message } => !req_valid(
                        current_crate(*old(self)).version.deep_view(),
                    ) && (current_crate(*old(self)).version matches Some(rs) ==> message@
                        == invalid_req_message(rs@)),
                    _ => false,
                }),
            }),
    {
        let mut incoming = summaries;
        self.summaries.append(&mut incoming);
        if !complete {
            self.phase = Phase::AwaitReady;
            return Ok(Action::BlockUntilReady);
        }
        let idx: usize = self.idx;
        let sel = select_summary(
            &self.summaries,
            self.crates[idx].name.as_str(),
            &self.crates[idx].version,
        );
        match sel {
            Ok(i) => {
                let c_name = self.summaries[i].name.clone();
                let c_version = self.summaries[i].version;
                self.chosen = Some(Summary { name: c_name, version: c_version });
                self.phase = Phase::AwaitDownloadNotice;
                let mut text = String::from_str("Downloading ");
                text.append(self.crates[idx].name.as_str());
                text.append(" ");
                let vs = version_string(&c_version);
                text.append(vs.as_str());
                proof {
                    assert(text@ =~= downloading_notice(
                        current_crate(*old(self)).name@,
                        c_version,
                    ));
                }
                Ok(Action::Notice { text, verbose_only: false })
            },
            Err(e) => {
                self.phase = Phase::Done;
                Err(e)
            },
        }
    }

    /// The source is ready: the same query is issued again, keeping what
    /// was already collected.
    pub fn on_ready(&mut self) -> (a: Action)
        requires
            old(self).wf(),
            old(self).phase is AwaitReady,
        ensures
            final(self).wf(),
            same_request(*old(self), *final(self)),
            final(self).idx == old(self).idx,
            final(self).dest == old(self).dest,
            final(self).summaries == old(self).summaries,
            final(self).phase is AwaitQuery,
            a matches Action::Query { name, req } && name@ == current_crate(*old(self)).name@
                && req == current_crate(*old(self)).version,
    {
        self.phase = Phase::AwaitQuery;
        let idx: usize = self.idx;
        let name = self.crates[idx].name.clone();
        let req: Option<String> = match &self.crates[idx].version {
            Some(v) => Some(v.clone()),
            None => None,
        };
        Action::Query { name, req }
    }

    /// The package is on disk. In git mode a manifest without a repository
    /// ends the run before any clone is attempted; otherwise the declared
    /// repository is cloned. In registry mode the downloaded tree is walked.
    pub fn on_downloaded(&mut self, root: String, repository: Option<String>) -> (r: Result<
        Action,
        CloneError,
    >)
        requires
            old(self).wf(),
            old(self).phase is AwaitDownload,
        ensures
            final(self).wf(),
            same_request(*old(self), *final(self)),
            final(self).idx == old(self).idx,
            final(self).dest == old(self).dest,
            old(self).use_git ==> (match repository {
                None => (r matches Err(e) && e matches CloneError::MissingRepositoryMetadata {
                    name,
                } && name@ == current_crate(*old(self)).name@ && final(self).phase is Done),
                Some(u) => (r matches Ok(a) && a matches Action::GitClone { url, dest } && url == u
                    && dest == old(self).dest && final(self).phase is AwaitGit),
            }),
            !old(self).use_git ==> (r matches Ok(a) && a matches Action::ListTree { root: rt }
                && rt == root && final(self).phase is AwaitList && final(self).pkg_root == root),
    {
        if self.use_git {
            match repository {
                None => {
                    self.phase = Phase::Done;
                    let idx: usize = self.idx;
                    Err(
                        CloneError::MissingRepositoryMetadata {
                            name: self.crates[idx].name.clone(),
                        },
                    )
                },
                Some(u) => {
                    self.phase = Phase::AwaitGit;
                    Ok(Action::GitClone { url: u, dest: self.dest.clone() })
                },
            }
        } else {
            self.pkg_root = root.clone();
            self.phase = Phase::AwaitList;
            Ok(Action::ListTree { root })
        }
    }

    /// The tree is listed: the copy is planned, mirroring every entry under
    /// the destination except the registry's `.cargo-ok` marker and the
    /// walked root itself.
    pub fn on_tree_listed(&mut self, entries: &Vec<TreeEntry>) -> (a: Action)
        requires
            old(self).wf(),
            old(self).phase is AwaitList,
            forall|j: int|
                0 <= j < entries@.len() ==> path_under(old(self).pkg_root@, entries@[j].path@),
        ensures
            final(self).wf(),
            same_request(*old(self), *final(self)),
            final(self).idx == old(self).idx,
            final(self).dest == old(self).dest,
            final(self).phase is AwaitCopy,
            a matches Action::CopyTree { actions } && actions@.map_values(|c: CopyAction| c@)
                == spec_copy_plan(
                old(self).pkg_root@,
                old(self).dest@,
                entries@.map_values(|e: TreeEntry| e@),
            ),
    {
        let actions = plan_copy(self.pkg_root.as_str(), self.dest.as_str(), entries);
        self.phase = Phase::AwaitCopy;
        Action::CopyTree { actions }
    }

    /// The copy is done: the next crate starts, or the batch is complete.
    pub fn on_copied(&mut self) -> (a: Action)
        requires
            old(self).wf(),
            old(self).phase is AwaitCopy,
        ensures
            final(self).wf(),
            crate_started(*old(self), *final(self), a, old(self).idx + 1),
    {
        let _n: usize = self.crates.len();
        self.idx = self.idx + 1;
        self.start_crate()
    }

    /// The clone subprocess ended: a failure (to run, or to succeed) ends
    /// the run; otherwise the next crate starts.
    pub fn on_git_finished(&mut self, success: bool) -> (r: Result<Action, CloneError>)
        requires
            old(self).wf(),
            old(self).phase is AwaitGit,
        ensures
            final(self).wf(),
            !success ==> (r matches Err(e) && e is GitCloneFailed && final(self).phase is Done),
            success ==> (r matches Ok(a) && crate_started(
                *old(self),
                *final(self),
                a,
                old(self).idx + 1,
            )),
    {
        if !success {
            self.phase = Phase::Done;
            Err(CloneError::GitCloneFailed)
        } else {
            let _n: usize = self.crates.len();
            self.idx = self.idx + 1;
            Ok(self.start_crate())
        }
    }
}

/// Clones a crate.
pub struct Cloner {
    /// Directory where the crates will be cloned.
    pub directory: String,
    /// Where the crates will be cloned from.
    pub source: CargoSource,
    /// If true, clone the git repository present in the manifest metadata.
    pub use_git: bool,
}

impl Cloner {
    /// Creates a new [`ClonerBuilder`] that:
    /// - Uses the default public registry as source.
    /// - Clones the crates into the current directory.
    pub fn builder() -> (b: ClonerBuilder)
        ensures
            b.directory is None,
            b.source.cargo_source is CratesIo,
            b.use_git == false,
    {
        ClonerBuilder::new()
    }

    /// Start cloning the given crates, each into a subdirectory named
    /// after it.
    pub fn clone(&self, crates: Vec<Crate>) -> (s: CloneSession)
        ensures
            s.wf(),
            s.phase is Init,
            s.idx == 0,
            s.crates == crates,
            s.directory == self.directory,
            s.source == self.source,
            s.use_git == self.use_git,
            s.append == true,
    {
        self.session(crates, true)
    }

    /// Start cloning one crate, directly into the configured directory.
    pub fn clone_in_dir(&self, crate_: Crate) -> (s: CloneSession)
        ensures
            s.wf(),
            s.phase is Init,
            s.idx == 0,
            s.crates@ == seq![crate_],
            s.directory == self.directory,
            s.source == self.source,
            s.use_git == self.use_git,
            s.append == false,
    {
        let mut crates: Vec<Crate> = Vec::new();
        crates.push(crate_);
        proof {
            assert(crates@ =~= seq![crate_]);
        }
        self.session(crates, false)
    }

    /// A fresh session over this cloner's configuration.
    fn session(&self, crates: Vec<Crate>, append: bool) -> (s: CloneSession)
        ensures
            s.wf(),
            s.phase is Init,
            s.idx == 0,
            s.crates == crates,
            s.directory == self.directory,
            s.source == self.source,
            s.use_git == self.use_git,
            s.append == append,
    {
        CloneSession {
            crates,
            directory: self.directory.clone(),
            append,
            use_git: self.use_git,
            source: self.source.duplicate(),
            idx: 0,
            phase: Phase::Init,
            dest: String::new(),
            dest_is_dir: false,
            dest_empty: false,
            summaries: Vec::new(),
            chosen: None,
            pkg_root: String::new(),
        }
    }
}

/// Builder for [`Cloner`].
/// By default the cloner will clone from the public registry.
pub struct ClonerBuilder {
    /// The base directory, when one was given.
    pub directory: Option<String>,
    /// Where the crates will be cloned from.
    pub source: crate::source::ClonerSource,
    /// If true, clone the git repository present in the manifest metadata.
    pub use_git: bool,
}

impl Default for ClonerBuilder {
    /// Same as [`ClonerBuilder::new`].
    fn default() -> (b: Self)
        ensures
            b.directory is None,
            b.source.cargo_source is CratesIo,
            b.use_git == false,
    {
        ClonerBuilder::new()
    }
}

impl ClonerBuilder {
    /// Creates a new [`ClonerBuilder`] that:
    /// - Uses the default public registry as source.
    /// - Clones the crates into the current directory.
    pub fn new() -> (b: Self)
        ensures
            b.directory is None,
            b.source.cargo_source is CratesIo,
            b.use_git == false,
    {
        ClonerBuilder {
            directory: None,
            source: crate::source::ClonerSource::crates_io(),
            use_git: false,
        }
    }

    /// Clone into a different directory, instead of the current one.
    pub fn with_directory(self, directory: String) -> (b: Self)
        ensures
            b.directory == Some(directory),
            b.source == self.source,
            b.use_git == self.use_git,
    {
        Self { directory: Some(directory), ..self }
    }

    /// Clone from an alternative source, instead of the default registry.
    pub fn with_source(self, source: crate::source::ClonerSource) -> (b: Self)
        ensures
            b.directory == self.directory,
            b.source == source,
            b.use_git == self.use_git,
    {
        Self { source, ..self }
    }

    /// Clone the git repository present in the manifest metadata.
    pub fn with_git(self, use_git: bool) -> (b: Self)
        ensures
            b.directory == self.directory,
            b.source == self.source,
            b.use_git == use_git,
    {
        Self { use_git, ..self }
    }

    /// Build the [`Cloner`]. The working directory stands in for a missing
    /// base directory and anchors a local registry path.
    pub fn build(self, cwd: &str) -> (r: Result<Cloner, CloneError>)
        ensures
            r matches Ok(c) && c.use_git == self.use_git && c.directory@ == (match self.directory {
                Some(d) => d@,
                None => cwd@,
            }) && (match self.source.cargo_source {
                CargoSource::LocalRegistry { path } => (c.source matches CargoSource::LocalRegistry {
                    path: p,
                } && p@ == path_join(cwd@, path@)),
                _ => c.source == self.source.cargo_source,
            }),
    {
        let directory = match self.directory {
            Some(d) => d,
            None => String::from_str(cwd),
        };
        let source = self.source.cargo_source.anchored(cwd);
        Ok(Cloner { directory, source, use_git: self.use_git })
    }
}

} // verus!
