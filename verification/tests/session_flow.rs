use cargo_clone::args::{execute, CloneOpt, Color};
use cargo_clone::errors::CloneError;
use cargo_clone::placement::{CopyAction, TreeEntry};
use cargo_clone::select::Summary;
use cargo_clone::session::{Action, CloneSession};
use cargo_clone::version::Version;

fn opts(crates: &[&str], directory: Option<&str>, git: bool) -> CloneOpt {
    CloneOpt {
        color: None::<Color>,
        verbose: false,
        quiet: false,
        registry: None,
        index: None,
        local_registry: None,
        git,
        crate_: crates.iter().map(|c| String::from(*c)).collect(),
        directory: directory.map(String::from),
    }
}

fn summary(name: &str, major: u64, minor: u64, patch: u64) -> Summary {
    Summary { name: String::from(name), version: Version { major, minor, patch } }
}

/// Walks a session up to the query of the current crate, asserting the
/// destination it prepares, and returns the query's name and requirement.
fn up_to_query(session: &mut CloneSession, first: bool, expect_dest: &str) -> (String, Option<String>) {
    if first {
        assert!(matches!(session.start(), Action::AcquireLock));
        assert!(matches!(session.on_lock_acquired(), Action::ResolveSource { .. }));
        match session.on_source_resolved(true).unwrap() {
            Action::PrepareDest { path } => assert_eq!(path.as_str(), expect_dest),
            _ => panic!("expected a destination to prepare"),
        }
    }
    match session.on_dest_prepared(true, true) {
        Action::Notice { text, verbose_only } => {
            assert!(verbose_only);
            assert!(text.starts_with("Cloning into \""));
        }
        _ => panic!("expected the cloning notice"),
    }
    match session.on_notice_shown().unwrap() {
        Action::Query { name, req } => (name, req),
        _ => panic!("expected a query"),
    }
}

/// After a complete query answer, walks through selection and download and
/// returns the downloaded name and version.
fn through_download(
    session: &mut CloneSession,
    summaries: Vec<Summary>,
    expect_notice: &str,
) -> (String, Version) {
    match session.on_query_returned(summaries, true).unwrap() {
        Action::Notice { text, verbose_only } => {
            assert!(!verbose_only);
            assert_eq!(text.as_str(), expect_notice);
        }
        _ => panic!("expected the downloading notice"),
    }
    match session.on_notice_shown().unwrap() {
        Action::Download { name, version } => (name, version),
        _ => panic!("expected a download"),
    }
}

#[test]
fn end_to_end_two_crates_into_subdirectories() {
    let o = opts(&["foo@1.0.0", "bar"], Some("dest/"), false);
    let mut session = execute(&o, "/work").unwrap();

    // foo: the exact requirement picks 1.0.0 even though 1.2.0 is offered.
    let (name, req) = up_to_query(&mut session, true, "dest/foo");
    assert_eq!(name.as_str(), "foo");
    assert_eq!(req.as_deref(), Some("=1.0.0"));
    let candidates = vec![summary("foo", 1, 0, 0), summary("foo", 1, 2, 0)];
    let (name, version) = through_download(&mut session, candidates, "Downloading foo 1.0.0");
    assert_eq!(name.as_str(), "foo");
    assert_eq!(version, Version { major: 1, minor: 0, patch: 0 });
    let root = match session.on_downloaded(String::from("/cache/foo-1.0.0"), None).unwrap() {
        Action::ListTree { root } => root,
        _ => panic!("expected the tree walk"),
    };
    assert_eq!(root.as_str(), "/cache/foo-1.0.0");
    let entries = vec![
        TreeEntry { path: String::from("/cache/foo-1.0.0"), is_file: false, is_dir: true },
        TreeEntry { path: String::from("/cache/foo-1.0.0/Cargo.toml"), is_file: true, is_dir: false },
        TreeEntry { path: String::from("/cache/foo-1.0.0/.cargo-ok"), is_file: true, is_dir: false },
    ];
    match session.on_tree_listed(&entries) {
        Action::CopyTree { actions } => assert_eq!(
            actions,
            vec![CopyAction::CopyFile {
                src: String::from("/cache/foo-1.0.0/Cargo.toml"),
                dest: String::from("dest/foo/Cargo.toml"),
            }]
        ),
        _ => panic!("expected the planned copy"),
    }

    // bar: no requirement, so the greatest version wins.
    match session.on_copied() {
        Action::PrepareDest { path } => assert_eq!(path.as_str(), "dest/bar"),
        _ => panic!("expected the second destination"),
    }
    let (name, req) = up_to_query(&mut session, false, "dest/bar");
    assert_eq!(name.as_str(), "bar");
    assert_eq!(req, None);
    let candidates = vec![summary("bar", 0, 2, 0), summary("bar", 0, 3, 1)];
    let (name, version) = through_download(&mut session, candidates, "Downloading bar 0.3.1");
    assert_eq!(name.as_str(), "bar");
    assert_eq!(version, Version { major: 0, minor: 3, patch: 1 });
    let root = match session.on_downloaded(String::from("/cache/bar-0.3.1"), None).unwrap() {
        Action::ListTree { root } => root,
        _ => panic!("expected the tree walk"),
    };
    assert_eq!(root.as_str(), "/cache/bar-0.3.1");
    let entries = vec![
        TreeEntry { path: String::from("/cache/bar-0.3.1"), is_file: false, is_dir: true },
        TreeEntry { path: String::from("/cache/bar-0.3.1/Cargo.toml"), is_file: true, is_dir: false },
    ];
    match session.on_tree_listed(&entries) {
        Action::CopyTree { actions } => assert_eq!(actions.len(), 1),
        _ => panic!("expected the planned copy"),
    }
    assert!(matches!(session.on_copied(), Action::Finished));
}

#[test]
fn single_crate_no_trailing_separator_uses_the_directory_itself() {
    let o = opts(&["foo"], Some("out"), false);
    let mut session = execute(&o, "/work").unwrap();
    let (name, req) = up_to_query(&mut session, true, "out");
    assert_eq!(name.as_str(), "foo");
    assert_eq!(req, None);
}

#[test]
fn bare_invocation_appends_the_crate_name_under_the_working_directory() {
    let o = opts(&["foo"], None, false);
    let mut session = execute(&o, "/work").unwrap();
    let (name, _) = up_to_query(&mut session, true, "/work/foo");
    assert_eq!(name.as_str(), "foo");
}

#[test]
fn nonempty_destination_fails_without_any_copy() {
    let o = opts(&["foo"], Some("out"), false);
    let mut session = execute(&o, "/work").unwrap();
    assert!(matches!(session.start(), Action::AcquireLock));
    assert!(matches!(session.on_lock_acquired(), Action::ResolveSource { .. }));
    assert!(matches!(session.on_source_resolved(true).unwrap(), Action::PrepareDest { .. }));
    // The destination exists and holds an entry: the notice still comes
    // first, then the run stops before any query or copy.
    assert!(matches!(session.on_dest_prepared(true, false), Action::Notice { .. }));
    let e = session.on_notice_shown().unwrap_err();
    match &e {
        CloneError::DestinationNotEmpty { path } => assert_eq!(path.as_str(), "out"),
        _ => panic!("expected the non-empty destination failure"),
    }
    assert_eq!(
        "destination path 'out' already exists and is not an empty directory.",
        e.message()
    );
}

#[test]
fn destination_that_is_no_directory_fails() {
    let o = opts(&["foo"], Some("out"), false);
    let mut session = execute(&o, "/work").unwrap();
    session.start();
    session.on_lock_acquired();
    session.on_source_resolved(true).unwrap();
    session.on_dest_prepared(false, false);
    let e = session.on_notice_shown().unwrap_err();
    assert!(matches!(e, CloneError::DestinationNotDirectory { .. }));
    assert_eq!("Not a directory: out", e.message());
}

#[test]
fn git_mode_without_repository_metadata_fails_before_any_clone() {
    let o = opts(&["foo"], Some("out"), true);
    let mut session = execute(&o, "/work").unwrap();
    let (_, _) = up_to_query(&mut session, true, "out");
    through_download(&mut session, vec![summary("foo", 1, 0, 0)], "Downloading foo 1.0.0");
    let e = session.on_downloaded(String::from("/cache/foo-1.0.0"), None).unwrap_err();
    assert!(matches!(e, CloneError::MissingRepositoryMetadata { .. }));
    assert_eq!(
        "Cannot clone foo from git repo because it is not specified in package's manifest.",
        e.message()
    );
}

#[test]
fn git_mode_clones_the_declared_repository() {
    let o = opts(&["foo"], Some("out"), true);
    let mut session = execute(&o, "/work").unwrap();
    up_to_query(&mut session, true, "out");
    through_download(&mut session, vec![summary("foo", 1, 0, 0)], "Downloading foo 1.0.0");
    let repo = Some(String::from("https://example.com/foo.git"));
    match session.on_downloaded(String::from("/cache/foo-1.0.0"), repo).unwrap() {
        Action::GitClone { url, dest } => {
            assert_eq!(url.as_str(), "https://example.com/foo.git");
            assert_eq!(dest.as_str(), "out");
        }
        _ => panic!("expected the clone subprocess"),
    }
    let e = session.on_git_finished(false).unwrap_err();
    assert!(matches!(e, CloneError::GitCloneFailed));
    assert_eq!("Failed to clone from git repo.", e.message());
}

#[test]
fn pending_queries_accumulate_until_ready() {
    let o = opts(&["foo"], Some("out"), false);
    let mut session = execute(&o, "/work").unwrap();
    up_to_query(&mut session, true, "out");
    // The source answers in two rounds; both rounds count.
    let first = vec![summary("foo", 1, 0, 0)];
    assert!(matches!(
        session.on_query_returned(first, false).unwrap(),
        Action::BlockUntilReady
    ));
    assert!(matches!(session.on_ready(), Action::Query { .. }));
    let second = vec![summary("foo", 1, 2, 0)];
    match session.on_query_returned(second, true).unwrap() {
        Action::Notice { text, .. } => assert_eq!(text.as_str(), "Downloading foo 1.2.0"),
        _ => panic!("expected the downloading notice"),
    }
}

#[test]
fn query_with_no_match_reports_package_not_found() {
    let o = opts(&["foo@2.0.0"], Some("out"), false);
    let mut session = execute(&o, "/work").unwrap();
    up_to_query(&mut session, true, "out");
    let e = session
        .on_query_returned(vec![summary("foo", 1, 0, 0)], true)
        .unwrap_err();
    assert!(matches!(e, CloneError::PackageNotFound { .. }));
    assert_eq!("Package `foo@=2.0.0` not found", e.message());
}

#[test]
fn invalid_index_url_is_rejected_up_front() {
    let mut o = opts(&["foo"], None, false);
    o.index = Some(String::from("not a url"));
    let e = execute(&o, "/work").unwrap_err();
    assert!(matches!(e, CloneError::InvalidSourceConfig { .. }));
    assert_eq!("invalid url `not a url`", e.message());
}

#[test]
fn unknown_registry_fails_at_resolution() {
    let mut o = opts(&["foo"], None, false);
    o.registry = Some(String::from("missing"));
    let mut session = execute(&o, "/work").unwrap();
    session.start();
    match session.on_lock_acquired() {
        Action::ResolveSource { .. } => {}
        _ => panic!("expected source resolution"),
    }
    let e = session.on_source_resolved(false).unwrap_err();
    assert!(matches!(e, CloneError::InvalidSourceConfig { .. }));
    assert_eq!("can't determine the source id", e.message());
}
