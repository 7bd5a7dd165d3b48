//! The options a clone run is requested with, and the run they set up.

use vstd::prelude::*;

use crate::errors::CloneError;
use crate::parse_name_and_version;
use crate::paths::ends_with_slash;
use crate::paths::path_join;
use crate::session::{CloneSession, Cloner};
use crate::source::{invalid_url_message, url_ok, CargoSource, ClonerSource};
use crate::spec_parse_crate;
use crate::Crate;

verus! {

/// The one subcommand of the tool.
pub enum Command {
    Clone(CloneOpt),
}

/// Options of one clone invocation.
pub struct CloneOpt {
    /// Terminal coloring.
    pub color: Option<Color>,
    /// Use verbose output.
    pub verbose: bool,
    /// Print less output to stdout.
    pub quiet: bool,
    /// A registry name from the configuration to clone the crates from.
    pub registry: Option<String>,
    /// Registry index to install from.
    pub index: Option<String>,
    /// A local registry path to clone the crates from.
    pub local_registry: Option<String>,
    /// Clone from a repository specified in package's metadata.
    pub git: bool,
    /// The crates to be downloaded, each `name` or `name@version`.
    pub crate_: Vec<String>,
    /// The destination directory. If it ends in a separator, crates will be
    /// placed into its subdirectories.
    pub directory: Option<String>,
}

/// Terminal coloring.
#[derive(Clone, Copy, PartialEq, Eq, Structural, Debug)]
pub enum Color {
    Auto,
    Always,
    Never,
}

/// The name of a coloring choice.
pub open spec fn color_label(c: Color) -> Seq<char> {
    match c {
        Color::Auto => "auto"@,
        Color::Always => "always"@,
        Color::Never => "never"@,
    }
}

impl Color {
    /// The name of this choice.
    pub fn label(&self) -> (s: &'static str)
        ensures
            s@ == color_label(*self),
    {
        match self {
            Color::Auto => "auto",
            Color::Always => "always",
            Color::Never => "never",
        }
    }
}

/// Which source the options choose: a named registry wins, then an index
/// URL, then a local registry path anchored at the working directory, and
/// the default public registry last.
pub open spec fn source_matches(o: CloneOpt, cwd: Seq<char>, s: CargoSource) -> bool {
    match o.registry {
        Some(rn) => s matches CargoSource::Registry { name } && name@ == rn@,
        None => match o.index {
            Some(u) => s matches CargoSource::Index { url } && url@ == u@,
            None => match o.local_registry {
                Some(p) => (s matches CargoSource::LocalRegistry { path } && path@ == path_join(
                    cwd,
                    p@,
                )),
                None => s is CratesIo,
            },
        },
    }
}

/// Whether every requested crate specification parses.
pub open spec fn all_specs_parse(inputs: Seq<String>) -> bool {
    forall|j: int| 0 <= j < inputs.len() ==> spec_parse_crate(inputs[j]@) is Ok
}

/// Whether `out` is exactly the parse of each input, in order.
pub open spec fn parsed_crates_match(inputs: Seq<String>, out: Seq<Crate>) -> bool {
    &&& out.len() == inputs.len()
    &&& forall|j: int|
        0 <= j < inputs.len() ==> match #[trigger] spec_parse_crate(inputs[j]@) {
            Ok((n, v)) => out[j].name@ == n && out[j].version.deep_view() == v,
            Err(_) => false,
        }
}

/// When each crate goes into its own subdirectory: more than one crate was
/// requested, the destination ends in a separator, or none was given.
pub open spec fn append_rule(o: CloneOpt) -> bool {
    o.crate_@.len() > 1 || (match o.directory {
        Some(d) => d@.len() > 0 && d@.last() == '/',
        None => true,
    })
}

/// The batch's base directory: the one given, or the working directory.
pub open spec fn base_directory(o: CloneOpt, cwd: Seq<char>) -> Seq<char> {
    match o.directory {
        Some(d) => d@,
        None => cwd,
    }
}

/// Set up the clone run the options describe: choose and validate the
/// source, parse every crate specification, and start a session over the
/// right base directory and placement rule.
pub fn execute(opts: &CloneOpt, cwd: &str) -> (r: Result<CloneSession, CloneError>)
    requires
        opts.crate_@.len() >= 1,
    ensures
        match r {
            Ok(s) => {
                &&& all_specs_parse(opts.crate_@)
                &&& source_matches(*opts, cwd@, s.source)
                &&& parsed_crates_match(opts.crate_@, s.crates@)
                &&& s.use_git == opts.git
                &&& s.directory@ == base_directory(*opts, cwd@)
                &&& s.append == append_rule(*opts)
                &&& s.idx == 0
                &&& s.phase is Init
                &&& s.wf()
            },
            Err(e) => match e {
                CloneError::InvalidSourceConfig { message } => {
                    &&& opts.registry is None
                    &&& (opts.index matches Some(u) && !url_ok(u@) && message@
                        == invalid_url_message(u@))
                },
                CloneError::MalformedSpec { message } => (exists|j: int|
                    0 <= j < opts.crate_@.len() && ((#[trigger] spec_parse_crate(
                        opts.crate_@[j]@,
                    )) matches Err(m) && message@ == m) && (forall|k: int|
                        0 <= k < j ==> spec_parse_crate(opts.crate_@[k]@) is Ok)),
                _ => false,
            },
        },
{
    let source = match &opts.registry {
        Some(rn) => ClonerSource::registry(rn.clone()),
        None => match &opts.index {
            Some(u) => {
                match ClonerSource::index(u.as_str()) {
                    Ok(s) => s,
                    Err(e) => {
                        return Err(e);
                    },
                }
            },
            None => match &opts.local_registry {
                Some(p) => ClonerSource::local_registry(p.clone()),
                None => ClonerSource::crates_io(),
            },
        },
    };

    let mut crates: Vec<Crate> = Vec::new();
    let n: usize = opts.crate_.len();
    let mut i: usize = 0;
    while i < n
        invariant
            n == opts.crate_@.len(),
            i <= n,
            parsed_crates_match(opts.crate_@.subrange(0, i as int), crates@),
            forall|k: int| 0 <= k < i ==> spec_parse_crate(opts.crate_@[k]@) is Ok,
        decreases n - i,
    {
        let ghost prefix = opts.crate_@.subrange(0, i as int);
        match parse_name_and_version(opts.crate_[i].as_str()) {
            Ok(c) => {
                crates.push(c);
            },
            Err(e) => {
                return Err(e);
            },
        }
        proof {
            assert(opts.crate_@.subrange(0, i + 1).drop_last() =~= prefix);
            assert(opts.crate_@.subrange(0, i + 1).last() == opts.crate_@[i as int]);
            assert forall|j: int|
                0 <= j < i + 1 implies match #[trigger] spec_parse_crate(opts.crate_@[j]@) {
                Ok((nm, v)) => crates@[j].name@ == nm && crates@[j].version.deep_view() == v,
                Err(_) => false,
            } by {
                assert(opts.crate_@.subrange(0, i + 1)[j] == opts.crate_@[j]);
            }
        }
        i += 1;
    }
    proof {
        assert(opts.crate_@.subrange(0, n as int) =~= opts.crate_@);
    }

    let mut builder = Cloner::builder().with_source(source);
    match &opts.directory {
        Some(d) => {
            builder = builder.with_directory(d.clone());
        },
        None => {},
    }
    if opts.git {
        builder = builder.with_git(true);
    }
    let cloner = match builder.build(cwd) {
        Ok(c) => c,
        Err(e) => {
            return Err(e);
        },
    };

    let multiple = crates.len() > 1;
    let can_clone_in_dir = match &opts.directory {
        Some(d) => ends_with_slash(d.as_str()),
        None => true,
    };
    if multiple || can_clone_in_dir {
        Ok(cloner.clone(crates))
    } else {
        let ghost before = crates@;
        let mut crates = crates;
        match crates.pop() {
            Some(c0) => {
                proof {
                    assert(seq![c0] =~= before);
                }
                Ok(cloner.clone_in_dir(c0))
            },
            None => vstd::pervasive::unreached(),
        }
    }
}

} // verus!
