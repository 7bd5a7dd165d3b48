//! Planning the copy of a fetched source tree into a destination.
//!
//! The walked tree arrives as a list of entries; the plan mirrors every
//! file and directory at the destination, except the registry's own
//! `.cargo-ok` marker, which is never reproduced, and the walked root
//! itself, which the destination already is.

use vstd::prelude::*;

use crate::paths::{dir_prefix, last_segment, path_join, path_under, rel_path};
use crate::paths::{join_path, last_segment_of, rel_path_of, str_equal};

verus! {

/// One entry of a walked source tree. `is_file` and `is_dir` both false
/// marks an entry of another kind (a symbolic link), which is not copied.
#[derive(PartialEq, Eq, Debug, Clone)]
pub struct TreeEntry {
    pub path: String,
    pub is_file: bool,
    pub is_dir: bool,
}

/// The mathematical shadow of a [`TreeEntry`].
pub struct TreeEntryV {
    pub path: Seq<char>,
    pub is_file: bool,
    pub is_dir: bool,
}

impl View for TreeEntry {
    type V = TreeEntryV;

    open spec fn view(&self) -> TreeEntryV {
        TreeEntryV { path: self.path@, is_file: self.is_file, is_dir: self.is_dir }
    }
}

/// One step of a copy plan: copy a regular file, or create a directory.
#[derive(PartialEq, Eq, Debug, Clone)]
pub enum CopyAction {
    CopyFile { src: String, dest: String },
    MakeDir { path: String },
}

/// The mathematical shadow of a [`CopyAction`].
pub enum CopyActionV {
    CopyFile { src: Seq<char>, dest: Seq<char> },
    MakeDir { path: Seq<char> },
}

impl View for CopyAction {
    type V = CopyActionV;

    open spec fn view(&self) -> CopyActionV {
        match self {
            CopyAction::CopyFile { src, dest } => CopyActionV::CopyFile {
                src: src@,
                dest: dest@,
            },
            CopyAction::MakeDir { path } => CopyActionV::MakeDir { path: path@ },
        }
    }
}

/// The path an action writes at the destination.
pub open spec fn action_target(a: CopyActionV) -> Seq<char> {
    match a {
        CopyActionV::CopyFile { dest, .. } => dest,
        CopyActionV::MakeDir { path } => path,
    }
}

/// What one walked entry contributes to the plan: nothing for a `.cargo-ok`
/// entry, for the walked root itself or for an entry of another kind; a file
/// copy or a directory creation at the mirrored relative path otherwise.
pub open spec fn entry_action(from: Seq<char>, to: Seq<char>, e: TreeEntryV) -> Option<
    CopyActionV,
> {
    let rel = rel_path(from, e.path);
    if last_segment(e.path) == ".cargo-ok"@ {
        None
    } else if e.is_file {
        Some(
            CopyActionV::CopyFile {
                src: e.path,
                dest: if rel.len() == 0 {
                    to
                } else {
                    path_join(to, rel)
                },
            },
        )
    } else if e.is_dir {
        if rel.len() == 0 {
            None
        } else {
            Some(CopyActionV::MakeDir { path: path_join(to, rel) })
        }
    } else {
        None
    }
}

/// The plan for a walked tree, entry by entry, in walk order.
pub open spec fn spec_copy_plan(from: Seq<char>, to: Seq<char>, entries: Seq<TreeEntryV>) -> Seq<
    CopyActionV,
>
    decreases entries.len(),
{
    if entries.len() == 0 {
        Seq::empty()
    } else {
        spec_copy_plan(from, to, entries.drop_last()) + match entry_action(
            from,
            to,
            entries.last(),
        ) {
            None => Seq::empty(),
            Some(a) => seq![a],
        }
    }
}

/// Plan the copy of the tree walked at `from` into the directory `to`.
///
/// Every entry must lie under the walked root; the driver's walk guarantees
/// it and a caller must check it.
pub fn plan_copy(from: &str, to: &str, entries: &Vec<TreeEntry>) -> (r: Vec<CopyAction>)
    requires
        forall|j: int| 0 <= j < entries@.len() ==> path_under(from@, entries@[j].path@),
    ensures
        r@.map_values(|a: CopyAction| a@) == spec_copy_plan(
            from@,
            to@,
            entries@.map_values(|e: TreeEntry| e@),
        ),
{
    let ghost evs = entries@.map_values(|e: TreeEntry| e@);
    let mut r: Vec<CopyAction> = Vec::new();
    let n: usize = entries.len();
    let mut i: usize = 0;
    while i < n
        invariant
            n == entries@.len(),
            i <= n,
            evs == entries@.map_values(|e: TreeEntry| e@),
            forall|j: int| 0 <= j < entries@.len() ==> path_under(from@, entries@[j].path@),
            r@.map_values(|a: CopyAction| a@) == spec_copy_plan(from@, to@, evs.subrange(0, i as int)),
        decreases n - i,
    {
        let e = &entries[i];
        let ghost prefix = evs.subrange(0, i as int);
        proof {
            assert(evs.subrange(0, i + 1).drop_last() =~= prefix);
            assert(evs.subrange(0, i + 1).last() == evs[i as int]);
        }
        let seg = last_segment_of(e.path.as_str());
        if !str_equal(seg, ".cargo-ok") {
            let rel = rel_path_of(e.path.as_str(), from);
            if e.is_file {
                let dest = if rel.is_empty() {
                    String::from_str(to)
                } else {
                    join_path(to, rel)
                };
                let act = CopyAction::CopyFile { src: e.path.clone(), dest };
                r.push(act);
            } else if e.is_dir {
                if !rel.is_empty() {
                    let act = CopyAction::MakeDir { path: join_path(to, rel) };
                    r.push(act);
                }
            }
        }
        proof {
            assert(r@.map_values(|a: CopyAction| a@) =~= spec_copy_plan(
                from@,
                to@,
                evs.subrange(0, i + 1),
            ));
        }
        i += 1;
    }
    proof {
        assert(evs.subrange(0, n as int) =~= evs);
    }
    r
}

/// Appending to a sequence that ends in a separator does not change which
/// characters follow the last separator of the suffix.
proof fn lemma_last_segment_append(a: Seq<char>, b: Seq<char>)
    requires
        a.len() > 0,
        a.last() == '/',
        b.len() > 0,
    ensures
        last_segment(a + b) == last_segment(b),
    decreases b.len(),
{
    let s = a + b;
    s.index_of_last_ensures('/');
    b.index_of_last_ensures('/');
    assert(s.contains('/')) by {
        assert(s[a.len() - 1] == '/');
    }
    let i = s.index_of_last('/').unwrap();
    match b.index_of_last('/') {
        Some(ib) => {
            assert(s[a.len() + ib] == '/');
            assert(i == a.len() + ib) by {
                if i < a.len() + ib {
                    assert(s[a.len() + ib] != '/');
                } else if i > a.len() + ib {
                    assert(b[i - a.len()] == '/');
                }
            }
            assert(last_segment(s) =~= last_segment(b));
        },
        None => {
            assert(i == a.len() - 1) by {
                assert(s[a.len() - 1] == '/');
                if i >= a.len() {
                    assert(b[i - a.len()] == '/');
                }
            }
            assert(last_segment(s) =~= b);
        },
    }
}

/// Law: a copy plan never writes a `.cargo-ok` entry at the destination,
/// as long as the destination itself is not so named.
pub proof fn lemma_copy_plan_skips_cargo_ok(
    from: Seq<char>,
    to: Seq<char>,
    entries: Seq<TreeEntryV>,
)
    requires
        forall|j: int| 0 <= j < entries.len() ==> path_under(from, entries[j].path),
        last_segment(to) != ".cargo-ok"@,
    ensures
        forall|k: int|
            0 <= k < spec_copy_plan(from, to, entries).len() ==> last_segment(
                action_target(spec_copy_plan(from, to, entries)[k]),
            ) != ".cargo-ok"@,
    decreases entries.len(),
{
    if entries.len() > 0 {
        lemma_copy_plan_skips_cargo_ok(from, to, entries.drop_last());
        let plan = spec_copy_plan(from, to, entries);
        let sub = spec_copy_plan(from, to, entries.drop_last());
        let e = entries.last();
        assert(path_under(from, e.path));
        match entry_action(from, to, e) {
            None => {
                assert forall|k: int| 0 <= k < plan.len() implies last_segment(
                    action_target(plan[k]),
                ) != ".cargo-ok"@ by {
                    assert(plan[k] == sub[k]);
                }
            },
            Some(a) => {
                let rel = rel_path(from, e.path);
                if rel.len() > 0 {
                    assert(e.path =~= dir_prefix(from) + rel);
                    lemma_last_segment_append(dir_prefix(from), rel);
                    if rel[0] == '/' || to.len() == 0 {
                        assert(path_join(to, rel) == rel);
                    } else {
                        assert(path_join(to, rel) =~= dir_prefix(to) + rel);
                        lemma_last_segment_append(dir_prefix(to), rel);
                    }
                }
                assert(last_segment(action_target(a)) != ".cargo-ok"@);
                assert forall|k: int| 0 <= k < plan.len() implies last_segment(
                    action_target(plan[k]),
                ) != ".cargo-ok"@ by {
                    if k < sub.len() {
                        assert(plan[k] == sub[k]);
                    } else {
                        assert(plan[k] == a);
                    }
                }
            },
        }
    }
}

/// Law: every directory of the tree below its root, other than a
/// `.cargo-ok` marker, is created by the plan at its mirrored place.
pub proof fn lemma_copy_plan_makes_directories(
    from: Seq<char>,
    to: Seq<char>,
    entries: Seq<TreeEntryV>,
    j: int,
)
    requires
        0 <= j < entries.len(),
        entries[j].is_dir,
        !entries[j].is_file,
        last_segment(entries[j].path) != ".cargo-ok"@,
        rel_path(from, entries[j].path).len() > 0,
    ensures
        spec_copy_plan(from, to, entries).contains(
            (CopyActionV::MakeDir { path: path_join(to, rel_path(from, entries[j].path)) }),
        ),
    decreases entries.len(),
{
    let plan = spec_copy_plan(from, to, entries);
    let act = entry_action(from, to, entries[j]).unwrap();
    if j == entries.len() - 1 {
        assert(plan[plan.len() - 1] == act);
        assert(plan.contains(act));
    } else {
        lemma_copy_plan_makes_directories(from, to, entries.drop_last(), j);
        let sub = spec_copy_plan(from, to, entries.drop_last());
        let k = choose|k: int| 0 <= k < sub.len() && sub[k] == act;
        assert(plan[k] == act);
        assert(plan.contains(act));
    }
}

/// Law: every file of the tree other than a `.cargo-ok` marker is
/// reproduced by the plan, at its place mirrored under the destination.
pub proof fn lemma_copy_plan_copies_files(
    from: Seq<char>,
    to: Seq<char>,
    entries: Seq<TreeEntryV>,
    j: int,
)
    requires
        0 <= j < entries.len(),
        entries[j].is_file,
        last_segment(entries[j].path) != ".cargo-ok"@,
    ensures
        spec_copy_plan(from, to, entries).contains(
            (CopyActionV::CopyFile {
                src: entries[j].path,
                dest: if rel_path(from, entries[j].path).len() == 0 {
                    to
                } else {
                    path_join(to, rel_path(from, entries[j].path))
                },
            }),
        ),
    decreases entries.len(),
{
    let plan = spec_copy_plan(from, to, entries);
    let act = entry_action(from, to, entries[j]).unwrap();
    if j == entries.len() - 1 {
        assert(plan[plan.len() - 1] == act);
        assert(plan.contains(act));
    } else {
        lemma_copy_plan_copies_files(from, to, entries.drop_last(), j);
        let sub = spec_copy_plan(from, to, entries.drop_last());
        let k = choose|k: int| 0 <= k < sub.len() && sub[k] == act;
        assert(plan[k] == act);
        assert(plan.contains(act));
    }
}

} // verus!
