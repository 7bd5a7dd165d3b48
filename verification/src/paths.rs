//! Paths as plain strings, with `/` as the separator.
//!
//! Destinations and walked trees are handled as strings: joining appends a
//! separator only when one is missing, and a tree entry is located by the
//! path of the walked root it extends.

use vstd::prelude::*;

verus! {

/// `base` extended by a further path: an absolute path replaces the base,
/// a relative one is appended past a separator.
pub open spec fn path_join(base: Seq<char>, name: Seq<char>) -> Seq<char> {
    if name.len() > 0 && name[0] == '/' {
        name
    } else if base.len() == 0 {
        name
    } else if base.last() == '/' {
        base + name
    } else {
        base + seq!['/'] + name
    }
}

/// `d` as a directory prefix: `d` itself when it already ends in the
/// separator, otherwise `d` with the separator appended.
pub open spec fn dir_prefix(d: Seq<char>) -> Seq<char> {
    if d.len() > 0 && d.last() == '/' {
        d
    } else {
        d + seq!['/']
    }
}

/// Whether `p` lies under the directory `d`: it is `d` itself or extends it
/// past a separator.
pub open spec fn path_under(d: Seq<char>, p: Seq<char>) -> bool {
    p == d || dir_prefix(d).is_prefix_of(p)
}

/// The path of `p` relative to the directory `d` it lies under; empty for
/// `d` itself.
pub open spec fn rel_path(d: Seq<char>, p: Seq<char>) -> Seq<char> {
    if p == d {
        Seq::empty()
    } else {
        p.subrange(dir_prefix(d).len() as int, p.len() as int)
    }
}

/// The part of `p` after its last separator; all of `p` when it has none.
pub open spec fn last_segment(p: Seq<char>) -> Seq<char> {
    match p.index_of_last('/') {
        None => p,
        Some(i) => p.subrange(i + 1, p.len() as int),
    }
}

/// Whether the strings `a` and `b` spell the same characters.
pub fn str_equal(a: &str, b: &str) -> (r: bool)
    ensures
        r == (a@ == b@),
{
    let la: usize = a.unicode_len();
    let lb: usize = b.unicode_len();
    if la != lb {
        return false;
    }
    let mut i: usize = 0;
    while i < la
        invariant
            la == a@.len(),
            la == b@.len(),
            i <= la,
            forall|j: int| 0 <= j < i ==> a@[j] == b@[j],
        decreases la - i,
    {
        if a.get_char(i) != b.get_char(i) {
            return false;
        }
        i += 1;
    }
    proof {
        assert(a@ =~= b@);
    }
    true
}

/// Join a directory and one further segment, inserting the separator only
/// when the directory does not already end in one.
pub fn join_path(base: &str, name: &str) -> (r: String)
    ensures
        r@ == path_join(base@, name@),
{
    let len: usize = base.unicode_len();
    let name_len: usize = name.unicode_len();
    if name_len > 0 && name.get_char(0) == '/' {
        return String::from_str(name);
    }
    if len == 0 {
        return String::from_str(name);
    }
    let mut r = String::from_str(base);
    if base.get_char(len - 1) != '/' {
        r.append("/");
        proof {
            reveal_strlit("/");
            assert(r@ =~= base@ + seq!['/']);
        }
    }
    r.append(name);
    proof {
        if base@.last() != '/' {
            assert(r@ =~= base@ + seq!['/'] + name@);
        }
    }
    r
}

/// Whether `s` ends in the separator.
pub fn ends_with_slash(s: &str) -> (r: bool)
    ensures
        r == (s@.len() > 0 && s@.last() == '/'),
{
    let len: usize = s.unicode_len();
    len > 0 && s.get_char(len - 1) == '/'
}

/// Position of the last occurrence of `c` in `s`, if any.
pub fn find_last(s: &str, c: char) -> (r: Option<usize>)
    ensures
        match r {
            Some(i) => i < s@.len() && s@.index_of_last(c) == Some(i as int),
            None => s@.index_of_last(c) is None,
        },
{
    let len: usize = s.unicode_len();
    let mut i: usize = len;
    while i > 0
        invariant
            len == s@.len(),
            i <= len,
            forall|j: int| i <= j < len ==> s@[j] != c,
        decreases i,
    {
        let k: usize = i - 1;
        if s.get_char(k) == c {
            proof {
                s@.index_of_last_ensures(c);
                assert(s@.contains(c)) by {
                    assert(s@[k as int] == c);
                }
            }
            return Some(k);
        }
        i = k;
    }
    proof {
        s@.index_of_last_ensures(c);
        if s@.contains(c) {
            let w = choose|w: int| 0 <= w < s@.len() && s@[w] == c;
            assert(s@[w] != c);
        }
    }
    None
}

/// The segment of `p` after its last separator.
pub fn last_segment_of<'a>(p: &'a str) -> (r: &'a str)
    ensures
        r@ == last_segment(p@),
{
    let len: usize = p.unicode_len();
    match find_last(p, '/') {
        None => p,
        Some(i) => p.substring_char(i + 1, len),
    }
}

/// The path of `p` relative to the directory `d` it lies under.
pub fn rel_path_of<'a>(p: &'a str, d: &str) -> (r: &'a str)
    requires
        path_under(d@, p@),
    ensures
        r@ == rel_path(d@, p@),
{
    if str_equal(p, d) {
        let r = "";
        proof {
            reveal_strlit("");
            assert(r@ =~= Seq::<char>::empty());
        }
        return r;
    }
    let dl: usize = d.unicode_len();
    let whole: usize = p.unicode_len();
    let skip: usize = if dl > 0 && d.get_char(dl - 1) == '/' {
        dl
    } else {
        dl + 1
    };
    p.substring_char(skip, whole)
}

} // verus!
