use cargo_clone::paths::{join_path, last_segment_of, rel_path_of, str_equal};
use cargo_clone::placement::{plan_copy, CopyAction, TreeEntry};

fn dir(path: &str) -> TreeEntry {
    TreeEntry { path: String::from(path), is_file: false, is_dir: true }
}

fn file(path: &str) -> TreeEntry {
    TreeEntry { path: String::from(path), is_file: true, is_dir: false }
}

#[test]
fn copy_plan_skips_cargo_ok_and_mirrors_the_rest() {
    let entries = vec![
        dir("/cache/foo-1.0.0"),
        file("/cache/foo-1.0.0/Cargo.toml"),
        file("/cache/foo-1.0.0/.cargo-ok"),
        dir("/cache/foo-1.0.0/src"),
        file("/cache/foo-1.0.0/src/lib.rs"),
    ];
    let plan = plan_copy("/cache/foo-1.0.0", "dest/foo", &entries);
    assert_eq!(
        plan,
        vec![
            CopyAction::CopyFile {
                src: String::from("/cache/foo-1.0.0/Cargo.toml"),
                dest: String::from("dest/foo/Cargo.toml"),
            },
            CopyAction::MakeDir { path: String::from("dest/foo/src") },
            CopyAction::CopyFile {
                src: String::from("/cache/foo-1.0.0/src/lib.rs"),
                dest: String::from("dest/foo/src/lib.rs"),
            },
        ]
    );
}

#[test]
fn copy_plan_skips_other_entry_kinds() {
    let link = TreeEntry {
        path: String::from("root/link"),
        is_file: false,
        is_dir: false,
    };
    let entries = vec![dir("root"), link, file("root/kept")];
    let plan = plan_copy("root", "out", &entries);
    assert_eq!(
        plan,
        vec![CopyAction::CopyFile {
            src: String::from("root/kept"),
            dest: String::from("out/kept"),
        }]
    );
}

#[test]
fn join_path_inserts_separator_only_when_needed() {
    assert_eq!("out/foo", join_path("out", "foo"));
    assert_eq!("out/foo", join_path("out/", "foo"));
    assert_eq!("foo", join_path("", "foo"));
    assert_eq!("/abs", join_path("out", "/abs"));
}

#[test]
fn path_helpers() {
    assert_eq!("c", last_segment_of("a/b/c"));
    assert_eq!("abc", last_segment_of("abc"));
    assert_eq!("b/c", rel_path_of("a/b/c", "a"));
    assert_eq!("", rel_path_of("a", "a"));
    assert!(str_equal("same", "same"));
    assert!(!str_equal("same", "other"));
}
