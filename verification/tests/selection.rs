use cargo_clone::errors::CloneError;
use cargo_clone::select::{select_summary, Summary};
use cargo_clone::version::{version_string, Version};

fn summaries(versions: &[(u64, u64, u64)]) -> Vec<Summary> {
    versions
        .iter()
        .map(|&(major, minor, patch)| Summary {
            name: String::from("foo"),
            version: Version { major, minor, patch },
        })
        .collect()
}

#[test]
fn select_max_without_requirement() {
    let ss = summaries(&[(1, 0, 0), (1, 2, 0), (1, 1, 5)]);
    let i = select_summary(&ss, "foo", &None).unwrap();
    assert_eq!(ss[i].version, Version { major: 1, minor: 2, patch: 0 });
}

#[test]
fn select_respects_requirement() {
    let ss = summaries(&[(1, 0, 0), (1, 2, 0), (1, 1, 5)]);
    let req = Some(String::from("~1.0"));
    let i = select_summary(&ss, "foo", &req).unwrap();
    assert_eq!(ss[i].version, Version { major: 1, minor: 0, patch: 0 });
}

#[test]
fn select_nothing_matching_is_not_found() {
    let ss = summaries(&[(1, 0, 0), (1, 2, 0), (1, 1, 5)]);
    let req = Some(String::from("=9.9.9"));
    let e = select_summary(&ss, "foo", &req).unwrap_err();
    match e {
        CloneError::PackageNotFound { ref name, ref req } => {
            assert_eq!(name.as_str(), "foo");
            assert_eq!(req.as_deref(), Some("=9.9.9"));
        }
        _ => panic!("expected a package-not-found failure"),
    }
    assert_eq!("Package `foo@=9.9.9` not found", e.message());
}

#[test]
fn select_without_requirement_or_candidates() {
    let e = select_summary(&Vec::new(), "foo", &None).unwrap_err();
    assert_eq!("Package `foo@*.*.*` not found", e.message());
}

#[test]
fn select_rejects_unparseable_requirement() {
    let ss = summaries(&[(1, 0, 0)]);
    let req = Some(String::from("=foo"));
    let e = select_summary(&ss, "foo", &req).unwrap_err();
    assert!(matches!(e, CloneError::MalformedSpec { .. }));
    assert_eq!("Invalid version requirement: `=foo`.", e.message());
}

#[test]
fn select_tie_keeps_the_last_candidate() {
    let ss = summaries(&[(2, 0, 0), (1, 0, 0), (2, 0, 0)]);
    let i = select_summary(&ss, "foo", &None).unwrap();
    assert_eq!(i, 2);
}

#[test]
fn version_renders_in_decimal() {
    assert_eq!("1.2.0", version_string(&Version { major: 1, minor: 2, patch: 0 }));
    assert_eq!("0.0.0", version_string(&Version { major: 0, minor: 0, patch: 0 }));
    assert_eq!(
        "10.907.18446744073709551615",
        version_string(&Version { major: 10, minor: 907, patch: u64::MAX })
    );
}
