//! Paths as text, with `/` between their components.
use vstd::prelude::*;

use crate::text::{same_text, split_parts, split_text, texts};

verus! {

broadcast use vstd::string::group_string_axioms;

/// `base` with `part` behind it: a separator goes between them unless `base` is empty or ends in
/// one.
pub open spec fn joined(base: Seq<char>, part: Seq<char>) -> Seq<char> {
    if base.len() == 0 || base.last() == '/' {
        base + part
    } else {
        base.push('/') + part
    }
}

/// `base` with `part` behind it.
pub fn join_path(base: &str, part: &str) -> (path: String)
    ensures
        path@ == joined(base@, part@),
{
    let mut path = base.to_owned();
    let len: usize = base.unicode_len();
    if len > 0 && base.get_char(len - 1) != '/' {
        path.push('/');
    }
    path.append(part);
    path
}

/// A component that does not name anything: an empty one, or `.`.
pub open spec fn is_blank(part: Seq<char>) -> bool {
    part.len() == 0 || part == "."@
}

/// The last component among the first `n` that names something.
pub open spec fn last_named(parts: Seq<Seq<char>>, n: int) -> Option<Seq<char>>
    decreases n,
{
    if n <= 0 {
        None
    } else if is_blank(parts[n - 1]) {
        last_named(parts, n - 1)
    } else {
        Some(parts[n - 1])
    }
}

/// The name of what a path leads to: its last component, unless that is `..` or there is none.
pub open spec fn name_of(path: Seq<char>) -> Option<Seq<char>> {
    let parts = split_parts(path, '/');
    match last_named(parts, parts.len() as int) {
        Some(part) => if part == ".."@ {
            None
        } else {
            Some(part)
        },
        None => None,
    }
}

/// The name of what a path leads to.
pub fn file_name(path: &str) -> (name: Option<String>)
    ensures
        match name {
            Some(name) => name_of(path@) == Some(name@),
            None => name_of(path@) is None,
        },
{
    let parts = split_text(path, '/');
    let ghost all = split_parts(path@, '/');
    assert(all.len() == parts@.len());
    let mut n: usize = parts.len();
    while n > 0
        invariant
            n <= parts@.len(),
            all == texts(parts@),
            all == split_parts(path@, '/'),
            last_named(all, all.len() as int) == last_named(all, n as int),
        decreases n,
    {
        let part: &str = parts[n - 1].as_str();
        assert(all[n - 1] == part@);
        if !(part.is_empty() || same_text(part, ".")) {
            if same_text(part, "..") {
                return None;
            }
            return Some(part.to_owned());
        }
        n -= 1;
    }
    None
}

} // verus!
