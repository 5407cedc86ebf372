//! Laws of paths and names, and of the walk over the inputs of a send.
use vstd::prelude::*;

use crate::laws::text::{
    delimited, delimited_is_part, part_is_delimited, split_of_more, split_of_one,
};
use crate::order::text_less;
use crate::text::split_parts;
use crate::transfer::paths::{file_name, join_path, joined, last_named, name_of};
use crate::transfer::receive::{export_target, safe_name, safe_part, ReceiveError};
use crate::transfer::send::{
    by_name, child_name, fault_below, fault_in, files_below, files_in, files_prepared, input_fault,
    input_files, inputs_fault, listing_fault, names_of, prepare_files, sorting_keeps_files, sources,
    walk_files, walked, DirEntry, FileNode, SendError, SendFault, SendInput, SourceFile,
};

verus! {

broadcast use vstd::string::group_string_axioms;

/// Joining puts one separator between base and part, and none where the base is empty or brings
/// its own.
pub proof fn one_separator_joins(base: &str, part: &str, path: String)
    requires
        call_ensures(join_path, (base, part), path),
    ensures
        base@.len() == 0 ==> path@ == part@,
        base@.len() > 0 && base@.last() == '/' ==> path@ == base@ + part@,
        base@.len() > 0 && base@.last() != '/' ==> path@ == base@ + seq!['/'] + part@,
{
    assert(base@.len() == 0 ==> path@ =~= part@);
    assert(base@.push('/') + part@ =~= base@ + seq!['/'] + part@);
}

/// A text without a separator that can name something.
pub open spec fn plain_name(text: Seq<char>) -> bool {
    text.len() > 0 && text != seq!['.'] && text != seq!['.', '.'] && !text.contains('/')
}

proof fn dots()
    ensures
        "."@ == seq!['.'],
        ".."@ == seq!['.', '.'],
{
    reveal_strlit(".");
    reveal_strlit("..");
    assert("."@ =~= seq!['.']);
    assert(".."@ =~= seq!['.', '.']);
}

/// The name of a path that ends in a plain component is that component, whatever stands before it.
pub proof fn the_last_component_is_the_name(
    path: &str,
    name: Option<String>,
    front: Seq<char>,
    last: Seq<char>,
)
    requires
        call_ensures(file_name, (path,), name),
        path@ == last || path@ == front.push('/') + last,
        plain_name(last),
    ensures
        name is Some,
        name->0@ == last,
{
    dots();
    if path@ == last {
        split_of_one(last, '/');
    } else {
        split_of_more(front, last, '/');
    }
}

/// Separators and dots at the end of a path make no difference to its name.
pub proof fn blank_ends_make_no_difference(
    path: &str,
    name: Option<String>,
    longer: &str,
    other: Option<String>,
)
    requires
        call_ensures(file_name, (path,), name),
        call_ensures(file_name, (longer,), other),
        longer@ == path@.push('/') || longer@ == path@.push('/').push('.'),
    ensures
        name is Some == other is Some,
        name is Some ==> name->0@ == other->0@,
{
    dots();
    let end: Seq<char> = if longer@ == path@.push('/') {
        Seq::empty()
    } else {
        seq!['.']
    };
    assert(longer@ =~= path@.push('/') + end);
    split_of_more(path@, end, '/');
    let parts = split_parts(path@, '/');
    same_last_named(parts, end, parts.len() as int);
}

proof fn same_last_named(parts: Seq<Seq<char>>, end: Seq<char>, n: int)
    requires
        0 <= n <= parts.len(),
    ensures
        last_named(parts, n) == last_named(parts.push(end), n),
    decreases n,
{
    if n > 0 {
        same_last_named(parts, end, n - 1);
    }
}

/// A path that leads up, or that has no component at all, has no name.
pub proof fn a_way_up_has_no_name(path: &str, name: Option<String>, front: Seq<char>)
    requires
        call_ensures(file_name, (path,), name),
        path@ == seq!['.', '.'] || path@ == front.push('/').push('.').push('.') || path@
            == seq!['.'] || path@.len() == 0 || path@ == seq!['/'],
    ensures
        name is None,
{
    dots();
    if path@ == front.push('/').push('.').push('.') {
        assert(path@ =~= front.push('/') + seq!['.', '.']);
        split_of_more(front, seq!['.', '.'], '/');
    } else if path@ == seq!['/'] {
        let none = Seq::<char>::empty();
        assert(path@ =~= none.push('/') + none);
        split_of_one(none, '/');
        split_of_more(none, none, '/');
        let parts = split_parts(path@, '/');
        assert(parts =~= seq![none, none]);
        reveal_with_fuel(last_named, 3);
    } else {
        split_of_one(path@, '/');
        reveal_with_fuel(last_named, 2);
    }
}

/// A stretch of a name that no path component may be: nothing, a dot, two dots, or anything with
/// a backslash.
pub open spec fn unsafe_stretch(name: Seq<char>, from: int, to: int) -> bool {
    let part = name.subrange(from, to);
    part.len() == 0 || part == seq!['.'] || part == seq!['.', '.'] || part.contains('\\')
}

/// A name of the collection is mapped below the target dir exactly if none of the components
/// between its separators is empty, a dot, two dots or holds a backslash; everything else may
/// stand in a name. The target is the root, one separator and the name.
pub proof fn every_safe_name_is_mapped(
    root: &str,
    name: &str,
    target: Result<String, ReceiveError>,
)
    requires
        call_ensures(export_target, (root, name), target),
    ensures
        target is Ok <==> forall|from: int, to: int| #[trigger]
            delimited(name@, '/', from, to) ==> !unsafe_stretch(name@, from, to),
        target matches Ok(path) ==> path@ == if root@.len() == 0 || root@.last() == '/' {
            root@ + name@
        } else {
            root@ + seq!['/'] + name@
        },
        target matches Err(error) ==> (error matches ReceiveError::InvalidCollectionName {
            name: shown,
        } && shown@ == name@),
{
    safe_names(name@);
    assert(root@.push('/') + name@ =~= root@ + seq!['/'] + name@);
}

pub(crate) proof fn safe_names(name: Seq<char>)
    ensures
        safe_name(name) <==> forall|from: int, to: int| #[trigger]
            delimited(name, '/', from, to) ==> !unsafe_stretch(name, from, to),
{
    dots();
    let parts = split_parts(name, '/');
    if safe_name(name) {
        assert forall|from: int, to: int| #[trigger]
            delimited(name, '/', from, to) implies !unsafe_stretch(name, from, to) by {
            delimited_is_part(name, '/', from, to);
            if to == name.len() {
                assert(safe_part(parts[parts.len() - 1]));
            } else {
                let k = choose|k: int|
                    0 <= k < parts.len() - 1 && #[trigger] parts[k] == name.subrange(from, to);
                assert(safe_part(parts[k]));
            }
        }
    } else {
        let k = choose|k: int| 0 <= k < parts.len() && !safe_part(#[trigger] parts[k]);
        let ends = part_is_delimited(name, '/', k);
        assert(delimited(name, '/', ends.0, ends.1));
        assert(unsafe_stretch(name, ends.0, ends.1));
    }
}

/// Whether the entries called `names`, at the positions `steps` of their directories, lead from
/// `node` down to `target`.
pub open spec fn leads_to(
    node: FileNode,
    steps: Seq<int>,
    names: Seq<Seq<char>>,
    target: FileNode,
) -> bool
    decreases steps.len(),
{
    &&& names.len() == steps.len()
    &&& if steps.len() == 0 {
        node == target
    } else {
        &&& node matches FileNode::Directory(entries)
        &&& 0 <= steps[0] < entries@.len()
        &&& entries@[steps[0]] matches DirEntry::Entry { name, node: below }
        &&& name@ == names[0]
        &&& leads_to(below, steps.drop_first(), names.drop_first(), target)
    }
}

/// The name with the components behind it, a `/` before each.
pub open spec fn name_below(name: Seq<char>, names: Seq<Seq<char>>) -> Seq<char>
    decreases names.len(),
{
    if names.len() == 0 {
        name
    } else {
        name_below(name + seq!['/'] + names[0], names.drop_first())
    }
}

/// The path with the components behind it, a `/` before each where the path has none.
pub open spec fn path_below(path: Seq<char>, names: Seq<Seq<char>>) -> Seq<char>
    decreases names.len(),
{
    if names.len() == 0 {
        path
    } else if path.len() == 0 || path.last() == '/' {
        path_below(path + names[0], names.drop_first())
    } else {
        path_below(path + seq!['/'] + names[0], names.drop_first())
    }
}

proof fn one_step(name: Seq<char>, path: Seq<char>, names: Seq<Seq<char>>)
    requires
        names.len() > 0,
    ensures
        name_below(name, names) == name_below(child_name(name, names[0]), names.drop_first()),
        path_below(path, names) == path_below(joined(path, names[0]), names.drop_first()),
{
    assert(child_name(name, names[0]) =~= name + seq!['/'] + names[0]);
    assert(path.push('/') + names[0] =~= path + seq!['/'] + names[0]);
}

proof fn entry_is_searched(
    name: Seq<char>,
    path: Seq<char>,
    entries: Seq<DirEntry>,
    n: int,
    at: int,
    file: (Seq<char>, Seq<char>),
)
    requires
        0 <= at < n <= entries.len(),
        entries[at] matches DirEntry::Entry { name: child, node } && files_below(
            child_name(name, child@),
            joined(path, child@),
            node,
        ).contains(file),
    ensures
        files_in(name, path, entries, n).contains(file),
    decreases n,
{
    let rest = files_in(name, path, entries, n - 1);
    let all = files_in(name, path, entries, n);
    match entries[n - 1] {
        DirEntry::Entry { name: child, node } => {
            let first = files_below(child_name(name, child@), joined(path, child@), node);
            if at == n - 1 {
                let k = choose|k: int| 0 <= k < first.len() && first[k] == file;
                assert(all[k] == file);
            } else {
                entry_is_searched(name, path, entries, n - 1, at, file);
                let k = choose|k: int| 0 <= k < rest.len() && rest[k] == file;
                assert(all[first.len() + k] == file);
            }
        },
        _ => {
            entry_is_searched(name, path, entries, n - 1, at, file);
        },
    }
}

proof fn file_is_found(
    name: Seq<char>,
    path: Seq<char>,
    node: FileNode,
    steps: Seq<int>,
    names: Seq<Seq<char>>,
)
    requires
        leads_to(node, steps, names, FileNode::File),
    ensures
        files_below(name, path, node).contains((name_below(name, names), path_below(path, names))),
    decreases steps.len(),
{
    if steps.len() == 0 {
        assert(files_below(name, path, node)[0] == (name, path));
    } else {
        one_step(name, path, names);
        if let FileNode::Directory(entries) = node {
            if let DirEntry::Entry { name: child, node: below } = entries@[steps[0]] {
                file_is_found(
                    child_name(name, child@),
                    joined(path, child@),
                    below,
                    steps.drop_first(),
                    names.drop_first(),
                );
            }
            entry_is_searched(
                name,
                path,
                entries@,
                entries@.len() as int,
                steps[0],
                (name_below(name, names), path_below(path, names)),
            );
        }
    }
}

/// How a file that the walk found was come to.
proof fn way_to_file(name: Seq<char>, path: Seq<char>, node: FileNode, k: int) -> (way: (
    Seq<int>,
    Seq<Seq<char>>,
))
    requires
        0 <= k < files_below(name, path, node).len(),
    ensures
        leads_to(node, way.0, way.1, FileNode::File),
        files_below(name, path, node)[k] == (name_below(name, way.1), path_below(path, way.1)),
    decreases node, 0int,
{
    match node {
        FileNode::Directory(entries) => way_in(name, path, entries, entries@.len() as int, k),
        _ => (Seq::empty(), Seq::empty()),
    }
}

proof fn way_in(name: Seq<char>, path: Seq<char>, entries: Vec<DirEntry>, n: int, k: int) -> (way: (
    Seq<int>,
    Seq<Seq<char>>,
))
    requires
        0 <= k < files_in(name, path, entries@, n).len(),
    ensures
        leads_to(FileNode::Directory(entries), way.0, way.1, FileNode::File),
        files_in(name, path, entries@, n)[k] == (
            name_below(name, way.1),
            path_below(path, way.1),
        ),
    decreases entries@, n,
{
    match entries@[n - 1] {
        DirEntry::Entry { name: child, node } => {
            let first = files_below(child_name(name, child@), joined(path, child@), node);
            if k < first.len() {
                let rest = way_to_file(child_name(name, child@), joined(path, child@), node, k);
                let way = (seq![n - 1] + rest.0, seq![child@] + rest.1);
                assert(way.0.drop_first() =~= rest.0);
                assert(way.1.drop_first() =~= rest.1);
                one_step(name, path, way.1);
                way
            } else {
                way_in(name, path, entries, n - 1, k - first.len())
            }
        },
        _ => way_in(name, path, entries, n - 1, k),
    }
}

/// The walk leaves out no file: whatever regular file a chain of entries leads to stands in the
/// result, under the name of the input and the names of the entries, with its path.
pub proof fn the_walk_leaves_out_no_file(
    path: &str,
    node: &FileNode,
    files: Vec<SourceFile>,
    root: String,
    steps: Seq<int>,
    names: Seq<Seq<char>>,
)
    requires
        call_ensures(walk_files, (path, Some(node)), Ok::<_, SendError>(files)),
        call_ensures(file_name, (path,), Some(root)),
        leads_to(*node, steps, names, FileNode::File),
    ensures
        exists|k: int|
            0 <= k < files@.len() && (#[trigger] files@[k]).name@ == name_below(root@, names)
                && files@[k].path@ == path_below(path@, names),
{
    let file = (name_below(root@, names), path_below(path@, names));
    file_is_found(root@, path@, *node, steps, names);
    sorting_keeps_files(input_files(path@, *node), sources(files@), file);
    let k = choose|k: int| 0 <= k < sources(files@).len() && sources(files@)[k] == file;
    assert(files@[k].name@ == file.0);
}

/// The walk makes nothing up: every file of the result is a regular file that a chain of entries
/// leads to, under their names.
pub proof fn the_walk_makes_nothing_up(
    path: &str,
    node: &FileNode,
    files: Vec<SourceFile>,
    root: String,
    k: int,
) -> (way: (Seq<int>, Seq<Seq<char>>))
    requires
        call_ensures(walk_files, (path, Some(node)), Ok::<_, SendError>(files)),
        call_ensures(file_name, (path,), Some(root)),
        0 <= k < files@.len(),
    ensures
        leads_to(*node, way.0, way.1, FileNode::File),
        files@[k].name@ == name_below(root@, way.1),
        files@[k].path@ == path_below(path@, way.1),
{
    let file = sources(files@)[k];
    assert(sources(files@).contains(file));
    let found = input_files(path@, *node);
    sorting_keeps_files(found, sources(files@), file);
    let j = choose|j: int| 0 <= j < found.len() && found[j] == file;
    way_to_file(root@, path@, *node, j)
}

proof fn flat_count(name: Seq<char>, path: Seq<char>, entries: Seq<DirEntry>, n: int)
    requires
        0 <= n <= entries.len(),
        forall|i: int|
            0 <= i < n ==> (#[trigger] entries[i] matches DirEntry::Entry { node, .. } && node
                is File),
    ensures
        files_in(name, path, entries, n).len() == n,
    decreases n,
{
    if n > 0 {
        flat_count(name, path, entries, n - 1);
        if let DirEntry::Entry { name: child, node } = entries[n - 1] {
            assert(node is File);
            assert(files_below(child_name(name, child@), joined(path, child@), node).len() == 1);
        }
    }
}

/// A directory that holds regular files alone gives as many files as it has entries, and an input
/// that is a regular file gives one.
pub proof fn as_many_files_as_entries(
    path: &str,
    node: &FileNode,
    files: Vec<SourceFile>,
    root: String,
)
    requires
        call_ensures(walk_files, (path, Some(node)), Ok::<_, SendError>(files)),
        call_ensures(file_name, (path,), Some(root)),
    ensures
        node is File ==> files@.len() == 1,
        node matches FileNode::Directory(entries) ==> ((forall|i: int|
            0 <= i < entries@.len() ==> (#[trigger] entries@[i] matches DirEntry::Entry {
                node: below,
                ..
            } && below is File)) ==> files@.len() == entries@.len()),
{
    let found = input_files(path@, *node);
    assert(sources(files@).len() == files@.len());
    assert(sources(files@).len() == found.len());
    if let FileNode::Directory(entries) = *node {
        if forall|i: int|
            0 <= i < entries@.len() ==> (#[trigger] entries@[i] matches DirEntry::Entry {
                node: below,
                ..
            } && below is File) {
            flat_count(root@, path@, entries@, entries@.len() as int);
        }
    }
}

/// The files come in the order of their names.
pub proof fn files_come_in_the_order_of_their_names(
    path: &str,
    node: &FileNode,
    files: Vec<SourceFile>,
    i: int,
    j: int,
)
    requires
        call_ensures(walk_files, (path, Some(node)), Ok::<_, SendError>(files)),
        0 <= i < j < files@.len(),
    ensures
        files@[i].name@ == files@[j].name@ || text_less(files@[i].name@, files@[j].name@),
{
    let found = input_files(path@, *node);
    let names = names_of(found);
    assert(by_name(found, sources(files@)));
    assert(sources(files@).len() == files@.len());
    let o = choose|o: Seq<usize>|
        #[trigger] crate::order::is_ordering(names, o) && sources(files@)
            == crate::transfer::send::picked(found, o);
    assert(crate::order::entry_less(names, o[i] as int, o[j] as int));
    assert(sources(files@)[i] == found[o[i] as int]);
    assert(sources(files@)[j] == found[o[j] as int]);
    assert(names[o[i] as int] == files@[i].name@);
    assert(names[o[j] as int] == files@[j].name@);
}

/// What is wrong with a node at a path, as an error reports it.
pub open spec fn is_trouble(target: FileNode, path: Seq<char>, error: SendError) -> bool {
    match (target, error) {
        (FileNode::Other, SendError::UnsupportedFileType { path: p }) => p@ == path,
        (FileNode::NotUtf8, SendError::InvalidUtf8PathComponent { path: p }) => p@ == path,
        (FileNode::Unreadable(why), SendError::ReadMetadata { path: p, source }) => p@ == path
            && source@ == why@,
        (FileNode::Unlistable(why), SendError::ReadDirectory { path: p, source }) => p@ == path
            && source@ == why@,
        (FileNode::Directory(entries), SendError::ReadDirectory { path: p, source }) => p@ == path
            && exists|i: int|
            0 <= i < entries@.len() && (#[trigger] entries@[i] matches DirEntry::Broken(why)
                && why@ == source@),
        (FileNode::Directory(entries), SendError::InvalidUtf8PathComponent { path: p }) => exists|
            i: int,
        |
            0 <= i < entries@.len() && (#[trigger] entries@[i] matches DirEntry::NotUtf8(shown)
                && shown@ == p@),
        _ => false,
    }
}

/// Whether a node stops the walk.
pub open spec fn stops_the_walk(target: FileNode) -> bool {
    match target {
        FileNode::Symlink | FileNode::File => false,
        FileNode::Directory(entries) => exists|i: int|
            0 <= i < entries@.len() && !(#[trigger] entries@[i] is Entry),
        _ => true,
    }
}

proof fn listing_is_fine(path: Seq<char>, entries: Seq<DirEntry>, i: int)
    requires
        0 <= i,
    ensures
        listing_fault(path, entries, i) is None <==> forall|j: int|
            i <= j < entries.len() ==> #[trigger] entries[j] is Entry,
    decreases entries.len() - i,
{
    if i < entries.len() {
        listing_is_fine(path, entries, i + 1);
        if entries[i] is Entry && listing_fault(path, entries, i + 1) is None {
            assert forall|j: int| i <= j < entries.len() implies #[trigger] entries[j] is Entry by {
                if j > i {
                    assert(entries[j] is Entry);
                }
            }
        }
    }
}

proof fn no_fault_in(path: Seq<char>, entries: Seq<DirEntry>, n: int, at: int)
    requires
        fault_in(path, entries, n) is None,
        0 <= at < n <= entries.len(),
    ensures
        entries[at] matches DirEntry::Entry { name, node } ==> fault_below(
            joined(path, name@),
            node,
        ) is None,
    decreases n,
{
    if at < n - 1 {
        no_fault_in(path, entries, n - 1, at);
    }
}

proof fn a_clean_walk_meets_no_trouble(
    path: Seq<char>,
    node: FileNode,
    steps: Seq<int>,
    names: Seq<Seq<char>>,
    target: FileNode,
)
    requires
        fault_below(path, node) is None,
        leads_to(node, steps, names, target),
    ensures
        !stops_the_walk(target),
    decreases steps.len(),
{
    if let FileNode::Directory(entries) = node {
        listing_is_fine(path, entries@, 0);
        if steps.len() > 0 {
            no_fault_in(path, entries@, entries@.len() as int, steps[0]);
            if let DirEntry::Entry { name, node: below } = entries@[steps[0]] {
                a_clean_walk_meets_no_trouble(
                    joined(path, name@),
                    below,
                    steps.drop_first(),
                    names.drop_first(),
                    target,
                );
            }
        }
    }
}

proof fn trouble_in_listing(path: Seq<char>, entries: Vec<DirEntry>, i: int, error: SendError)
    requires
        0 <= i,
        listing_fault(path, entries@, i) == Some(error@),
    ensures
        is_trouble(FileNode::Directory(entries), path, error),
    decreases entries@.len() - i,
{
    match entries@[i] {
        DirEntry::Entry { .. } => trouble_in_listing(path, entries, i + 1, error),
        DirEntry::Broken(why) => {
            assert(entries@[i] matches DirEntry::Broken(why));
        },
        DirEntry::NotUtf8(shown) => {
            assert(entries@[i] matches DirEntry::NotUtf8(shown));
        },
    }
}

/// How the walk came to what stopped it.
proof fn way_to_trouble(path: Seq<char>, node: FileNode, error: SendError) -> (way: (
    Seq<int>,
    Seq<Seq<char>>,
    FileNode,
))
    requires
        fault_below(path, node) == Some(error@),
    ensures
        leads_to(node, way.0, way.1, way.2),
        is_trouble(way.2, path_below(path, way.1), error),
    decreases node, 0int,
{
    match node {
        FileNode::Directory(entries) => {
            if listing_fault(path, entries@, 0) is Some {
                trouble_in_listing(path, entries, 0, error);
                (Seq::empty(), Seq::empty(), node)
            } else {
                way_to_trouble_in(path, entries, entries@.len() as int, error)
            }
        },
        _ => (Seq::empty(), Seq::empty(), node),
    }
}

proof fn way_to_trouble_in(path: Seq<char>, entries: Vec<DirEntry>, n: int, error: SendError) -> (way: (
    Seq<int>,
    Seq<Seq<char>>,
    FileNode,
))
    requires
        fault_in(path, entries@, n) == Some(error@),
    ensures
        leads_to(FileNode::Directory(entries), way.0, way.1, way.2),
        is_trouble(way.2, path_below(path, way.1), error),
    decreases entries@, n,
{
    match entries@[n - 1] {
        DirEntry::Entry { name: child, node } => {
            if fault_below(joined(path, child@), node) is Some {
                let rest = way_to_trouble(joined(path, child@), node, error);
                let way = (seq![n - 1] + rest.0, seq![child@] + rest.1, rest.2);
                assert(way.0.drop_first() =~= rest.0);
                assert(way.1.drop_first() =~= rest.1);
                one_step(Seq::empty(), path, way.1);
                way
            } else {
                way_to_trouble_in(path, entries, n - 1, error)
            }
        },
        _ => way_to_trouble_in(path, entries, n - 1, error),
    }
}

/// A walk that succeeds has met nothing that it cannot send: links and regular files aside, and
/// directories that list their entries, no chain of entries leads to anything.
pub proof fn a_walk_succeeds_over_files_alone(
    path: &str,
    node: &FileNode,
    files: Vec<SourceFile>,
    steps: Seq<int>,
    names: Seq<Seq<char>>,
    target: FileNode,
)
    requires
        call_ensures(walk_files, (path, Some(node)), Ok::<_, SendError>(files)),
        leads_to(*node, steps, names, target),
    ensures
        !stops_the_walk(target),
{
    if !(*node is Symlink) {
        a_clean_walk_meets_no_trouble(path@, *node, steps, names, target);
    }
}

/// A walk that fails says why: the input is missing or has no name, or a chain of entries leads to
/// what the error speaks of, at the path that the error gives.
pub proof fn a_failed_walk_says_why(path: &str, node: Option<&FileNode>, error: SendError) -> (way: (
    Seq<int>,
    Seq<Seq<char>>,
    FileNode,
))
    requires
        call_ensures(walk_files, (path, node), Err::<Vec<SourceFile>, _>(error)),
    ensures
        match node {
            None => error matches SendError::MissingSource { path: p } && p@ == path@,
            Some(node) => {
                ||| (name_of(path@) is None || *node is NotUtf8) && (error
                    matches SendError::InvalidRootName { path: p } && p@ == path@)
                ||| leads_to(*node, way.0, way.1, way.2) && is_trouble(
                    way.2,
                    path_below(path@, way.1),
                    error,
                )
            },
        },
{
    let nowhere = (Seq::<int>::empty(), Seq::<Seq<char>>::empty(), FileNode::File);
    match node {
        None => nowhere,
        Some(node) => match *node {
            FileNode::Unreadable(_) => {
                let way = (Seq::<int>::empty(), Seq::<Seq<char>>::empty(), *node);
                assert(leads_to(*node, way.0, way.1, way.2));
                way
            },
            FileNode::NotUtf8 => nowhere,
            _ => if name_of(path@) is None {
                nowhere
            } else {
                way_to_trouble(path@, *node, error)
            },
        },
    }
}

/// An input needs a name, unless it is a link or cannot be looked at, which is found first; what is
/// not there is missing, whatever it is called.
pub proof fn an_input_needs_a_name(
    path: &str,
    node: Option<&FileNode>,
    files: Result<Vec<SourceFile>, SendError>,
    name: Option<String>,
)
    requires
        call_ensures(walk_files, (path, node), files),
        call_ensures(file_name, (path,), name),
    ensures
        node is None ==> (files matches Err(SendError::MissingSource { path: p }) && p@ == path@),
        node matches Some(found) ==> (found matches FileNode::Unreadable(why) ==> (files
            matches Err(SendError::ReadMetadata { path: p, source }) && p@ == path@ && source@
            == why@)),
        node matches Some(found) ==> (found is NotUtf8 || (name is None && !(found is Symlink)
            && !(found is Unreadable)) ==> (files matches Err(
            SendError::InvalidRootName { path: p },
        ) && p@ == path@)),
{
}

/// Where trouble lies below a node.
proof fn trouble_below(path: Seq<char>, node: FileNode) -> (way: (
    Seq<int>,
    Seq<Seq<char>>,
    FileNode,
))
    requires
        fault_below(path, node) is Some,
    ensures
        leads_to(node, way.0, way.1, way.2),
        stops_the_walk(way.2),
    decreases node, 0int,
{
    match node {
        FileNode::Directory(entries) => {
            if listing_fault(path, entries@, 0) is Some {
                listing_is_fine(path, entries@, 0);
                (Seq::empty(), Seq::empty(), node)
            } else {
                trouble_in(path, entries, entries@.len() as int)
            }
        },
        _ => (Seq::empty(), Seq::empty(), node),
    }
}

proof fn trouble_in(path: Seq<char>, entries: Vec<DirEntry>, n: int) -> (way: (
    Seq<int>,
    Seq<Seq<char>>,
    FileNode,
))
    requires
        fault_in(path, entries@, n) is Some,
    ensures
        leads_to(FileNode::Directory(entries), way.0, way.1, way.2),
        stops_the_walk(way.2),
    decreases entries@, n,
{
    match entries@[n - 1] {
        DirEntry::Entry { name: child, node } => {
            if fault_below(joined(path, child@), node) is Some {
                let rest = trouble_below(joined(path, child@), node);
                let way = (seq![n - 1] + rest.0, seq![child@] + rest.1, rest.2);
                assert(way.0.drop_first() =~= rest.0);
                assert(way.1.drop_first() =~= rest.1);
                way
            } else {
                trouble_in(path, entries, n - 1)
            }
        },
        _ => trouble_in(path, entries, n - 1),
    }
}

/// Whether nothing at or below a node stops the walk.
pub open spec fn walkable(node: FileNode) -> bool {
    forall|steps: Seq<int>, names: Seq<Seq<char>>, target: FileNode| #[trigger]
        leads_to(node, steps, names, target) ==> !stops_the_walk(target)
}

proof fn walkable_has_no_fault(path: Seq<char>, node: FileNode)
    requires
        walkable(node),
    ensures
        fault_below(path, node) is None,
{
    if fault_below(path, node) is Some {
        let way = trouble_below(path, node);
        assert(leads_to(node, way.0, way.1, way.2));
    }
}

/// Walking fails over a directory whose entries cannot all be listed, for the first of these.
pub proof fn an_entry_that_cannot_be_listed_stops_the_walk(
    path: &str,
    entries: Vec<DirEntry>,
    node: &FileNode,
    name: String,
    outcome: Result<Vec<SourceFile>, SendError>,
    i: int,
)
    requires
        *node == FileNode::Directory(entries),
        call_ensures(walk_files, (path, Some(node)), outcome),
        call_ensures(file_name, (path,), Some(name)),
        0 <= i < entries@.len(),
        forall|j: int| 0 <= j < i ==> #[trigger] entries@[j] is Entry,
        !(entries@[i] is Entry),
    ensures
        match entries@[i] {
            DirEntry::Broken(why) => outcome matches Err(
                SendError::ReadDirectory { path: p, source },
            ) && p@ == path@ && source@ == why@,
            DirEntry::NotUtf8(shown) => outcome matches Err(
                SendError::InvalidUtf8PathComponent { path: p },
            ) && p@ == shown@,
            DirEntry::Entry { .. } => true,
        },
{
    first_unlisted(path@, entries@, 0, i);
}

/// Where all entries can be listed, walking fails over the last of them that cannot be walked, for
/// the reason that walking this one gives.
pub proof fn the_last_entry_in_trouble_stops_the_walk(
    path: &str,
    entries: Vec<DirEntry>,
    node: &FileNode,
    name: String,
    outcome: Result<Vec<SourceFile>, SendError>,
    i: int,
    below: &str,
    child: &FileNode,
    child_name: String,
    error: SendError,
)
    requires
        *node == FileNode::Directory(entries),
        call_ensures(walk_files, (path, Some(node)), outcome),
        call_ensures(file_name, (path,), Some(name)),
        forall|j: int| 0 <= j < entries@.len() ==> #[trigger] entries@[j] is Entry,
        forall|j: int|
            i < j < entries@.len() ==> (#[trigger] entries@[j] matches DirEntry::Entry { node: n, .. }
                ==> walkable(n)),
        0 <= i < entries@.len(),
        entries@[i] matches DirEntry::Entry { name: called, node: found } && found == *child
            && below@ == joined(path@, called@),
        call_ensures(walk_files, (below, Some(child)), Err::<Vec<SourceFile>, _>(error)),
        call_ensures(file_name, (below,), Some(child_name)),
        !(child is NotUtf8),
    ensures
        outcome matches Err(why) && why@ == error@,
{
    listing_is_fine(path@, entries@, 0);
    last_trouble(path@, entries@, entries@.len() as int, i);
}

proof fn first_unlisted(path: Seq<char>, entries: Seq<DirEntry>, from: int, i: int)
    requires
        0 <= from <= i < entries.len(),
        forall|j: int| 0 <= j < i ==> #[trigger] entries[j] is Entry,
    ensures
        listing_fault(path, entries, from) == listing_fault(path, entries, i),
    decreases i - from,
{
    if from < i {
        assert(entries[from] is Entry);
        first_unlisted(path, entries, from + 1, i);
    }
}

proof fn last_trouble(path: Seq<char>, entries: Seq<DirEntry>, n: int, i: int)
    requires
        0 <= i < n <= entries.len(),
        forall|j: int|
            i < j < entries.len() ==> (#[trigger] entries[j] matches DirEntry::Entry { node, .. }
                ==> walkable(node)),
        entries[i] matches DirEntry::Entry { name, node } && fault_below(
            joined(path, name@),
            node,
        ) is Some,
    ensures
        entries[i] matches DirEntry::Entry { name, node } && fault_in(path, entries, n)
            == fault_below(joined(path, name@), node),
    decreases n,
{
    if i < n - 1 {
        if let DirEntry::Entry { name, node } = entries[n - 1] {
            walkable_has_no_fault(joined(path, name@), node);
        }
        last_trouble(path, entries, n - 1, i);
    }
}

/// A link is no input: it is passed over, as the links below the inputs are.
pub proof fn a_link_gives_nothing(
    path: &str,
    node: &FileNode,
    files: Result<Vec<SourceFile>, SendError>,
)
    requires
        call_ensures(walk_files, (path, Some(node)), files),
        node is Symlink,
    ensures
        files matches Ok(list) && list@.len() == 0,
{
    if let Ok(list) = files {
        assert(sources(list@).len() == input_files(path@, *node).len());
        assert(sources(list@).len() == list@.len());
    }
}

/// The files of a send are the files of its inputs: what walking an input gives stands in the
/// list, what stands there was given by walking an input, and every name stands there once, in
/// the order of the names.
pub proof fn a_send_holds_the_files_of_all_inputs(
    inputs: &Vec<SendInput>,
    files: Vec<SourceFile>,
    i: int,
    path: &str,
    node: &FileNode,
    walk: Vec<SourceFile>,
    k: int,
    a: int,
    b: int,
)
    requires
        call_ensures(prepare_files, (inputs,), Ok::<_, SendError>(files)),
        0 <= i < inputs@.len(),
        inputs@[i].path@ == path@,
        inputs@[i].node == Some(*node),
        call_ensures(walk_files, (path, Some(node)), Ok::<_, SendError>(walk)),
        0 <= k < walk@.len(),
        0 <= a < b < files@.len(),
    ensures
        exists|m: int|
            0 <= m < files@.len() && (#[trigger] files@[m])@ == walk@[k]@,
        text_less(files@[a].name@, files@[b].name@),
{
    let walks = choose|walks: Seq<Seq<(Seq<char>, Seq<char>)>>| #[trigger]
        files_prepared(inputs@, walks, Ok(sources(files@)));
    let found = input_files(inputs@[i].path@, *node);
    crate::transfer::send::sorting_is_deterministic(found, sources(walk@), walks[i]);
    let file = walk@[k]@;
    assert(walks[i][k] == sources(walk@)[k]);
    in_flatten(walks, i, k);
    sorting_keeps_files(walks.flatten(), sources(files@), file);
    let m = choose|m: int| 0 <= m < sources(files@).len() && sources(files@)[m] == file;
    assert(files@[m]@ == file);
    assert(names_of(sources(files@))[a] == files@[a].name@);
    assert(names_of(sources(files@))[b] == files@[b].name@);
}

proof fn in_flatten(walks: Seq<Seq<(Seq<char>, Seq<char>)>>, i: int, k: int)
    requires
        0 <= i < walks.len(),
        0 <= k < walks[i].len(),
    ensures
        walks.flatten().contains(walks[i][k]),
    decreases walks.len(),
{
    let all = walks.flatten();
    let front = walks.drop_last();
    assert(front.push(walks.last()) =~= walks);
    front.lemma_flatten_push(walks.last());
    if i == walks.len() - 1 {
        assert(all[front.flatten().len() + k] == walks[i][k]);
    } else {
        in_flatten(front, i, k);
        let m = choose|m: int| 0 <= m < front.flatten().len() && front.flatten()[m] == walks[i][k];
        assert(all[m] == walks[i][k]);
    }
}

proof fn from_flatten(walks: Seq<Seq<(Seq<char>, Seq<char>)>>, m: int) -> (at: (int, int))
    requires
        0 <= m < walks.flatten().len(),
    ensures
        0 <= at.0 < walks.len(),
        0 <= at.1 < walks[at.0].len(),
        walks[at.0][at.1] == walks.flatten()[m],
    decreases walks.len(),
{
    if walks.len() == 0 {
        assert(walks.flatten() =~= Seq::empty());
        (0, 0)
    } else {
        let front = walks.drop_last();
        assert(front.push(walks.last()) =~= walks);
        front.lemma_flatten_push(walks.last());
        if m < front.flatten().len() {
            from_flatten(front, m)
        } else {
            (walks.len() - 1, m - front.flatten().len())
        }
    }
}

/// Nothing is sent that lies outside the inputs: every file of the list is a regular file that a
/// chain of entries leads to from one of them.
pub proof fn a_send_holds_nothing_else(inputs: &Vec<SendInput>, files: Vec<SourceFile>, m: int) -> (way: (
    int,
    Seq<int>,
    Seq<Seq<char>>,
))
    requires
        call_ensures(prepare_files, (inputs,), Ok::<_, SendError>(files)),
        0 <= m < files@.len(),
    ensures
        0 <= way.0 < inputs@.len(),
        inputs@[way.0].node matches Some(node) && leads_to(node, way.1, way.2, FileNode::File),
        name_of(inputs@[way.0].path@) matches Some(root) && files@[m].name@ == name_below(
            root,
            way.2,
        ),
        files@[m].path@ == path_below(inputs@[way.0].path@, way.2),
{
    let walks = choose|walks: Seq<Seq<(Seq<char>, Seq<char>)>>| #[trigger]
        files_prepared(inputs@, walks, Ok(sources(files@)));
    let file = sources(files@)[m];
    assert(sources(files@).contains(file));
    sorting_keeps_files(walks.flatten(), sources(files@), file);
    let j = choose|j: int| 0 <= j < walks.flatten().len() && walks.flatten()[j] == file;
    let at = from_flatten(walks, j);
    let i = at.0;
    let found = input_files(inputs@[i].path@, inputs@[i].node->0);
    assert(walks[i].contains(file));
    assert(input_fault(inputs@[i].path@, inputs@[i].node) is None);
    sorting_keeps_files(found, walks[i], file);
    let k = choose|k: int| 0 <= k < found.len() && found[k] == file;
    let way = way_to_file(name_of(inputs@[i].path@)->0, inputs@[i].path@, inputs@[i].node->0, k);
    (i, way.0, way.1)
}

/// The first input that cannot be walked fails the send, for the reason that walking it gives.
pub proof fn a_bad_input_fails_the_send(
    inputs: &Vec<SendInput>,
    outcome: Result<Vec<SourceFile>, SendError>,
    i: int,
    path: &str,
    node: Option<&FileNode>,
    error: SendError,
)
    requires
        call_ensures(prepare_files, (inputs,), outcome),
        0 <= i < inputs@.len(),
        inputs@[i].path@ == path@,
        inputs@[i].node == crate::transfer::send::option_view(node),
        call_ensures(walk_files, (path, node), Err::<Vec<SourceFile>, _>(error)),
        forall|j: int|
            0 <= j < i ==> input_fault((#[trigger] inputs@[j]).path@, inputs@[j].node) is None,
    ensures
        outcome matches Err(why) && why@ == error@,
{
    first_bad_input(inputs@, 0, i);
    if let Err(why) = outcome {
        let walks = choose|walks: Seq<Seq<(Seq<char>, Seq<char>)>>| #[trigger]
            files_prepared(inputs@, walks, Err(why@));
        assert(input_fault(inputs@[i].path@, inputs@[i].node) is Some);
    }
    if let Ok(files) = outcome {
        let walks = choose|walks: Seq<Seq<(Seq<char>, Seq<char>)>>| #[trigger]
            files_prepared(inputs@, walks, Ok(sources(files@)));
        assert(input_fault(inputs@[i].path@, inputs@[i].node) is None);
    }
}

proof fn first_bad_input(inputs: Seq<SendInput>, from: int, i: int)
    requires
        0 <= from <= i < inputs.len(),
        forall|j: int|
            0 <= j < i ==> input_fault((#[trigger] inputs[j]).path@, inputs[j].node) is None,
        input_fault(inputs[i].path@, inputs[i].node) is Some,
    ensures
        inputs_fault(inputs, from) == input_fault(inputs[i].path@, inputs[i].node),
    decreases i - from,
{
    if from < i {
        first_bad_input(inputs, from + 1, i);
    }
}

/// A send fails exactly where it must: inputs that can each be walked are refused only over a name
/// that two of their files share, and then there are two such files.
pub proof fn a_send_fails_over_a_shared_name_alone(
    inputs: &Vec<SendInput>,
    error: SendError,
) -> (ways: ((int, Seq<Seq<char>>), (int, Seq<Seq<char>>)))
    requires
        call_ensures(prepare_files, (inputs,), Err::<Vec<SourceFile>, _>(error)),
        forall|i: int|
            0 <= i < inputs@.len() ==> input_fault(
                (#[trigger] inputs@[i]).path@,
                inputs@[i].node,
            ) is None,
    ensures
        error is DuplicateName,
        0 <= ways.0.0 < inputs@.len(),
        0 <= ways.1.0 < inputs@.len(),
        name_of(inputs@[ways.0.0].path@) matches Some(root) && name_below(root, ways.0.1)
            == error->DuplicateName_name@,
        name_of(inputs@[ways.1.0].path@) matches Some(root) && name_below(root, ways.1.1)
            == error->DuplicateName_name@,
{
    let outcome: Result<Seq<(Seq<char>, Seq<char>)>, SendFault> = Err(error@);
    let walks = choose|walks: Seq<Seq<(Seq<char>, Seq<char>)>>| #[trigger]
        files_prepared(inputs@, walks, outcome);
    if !(error is DuplicateName) {
        assert(inputs_fault(inputs@, 0) == Some(error@));
        faultless(inputs@, 0);
    }
    let names = names_of(walks.flatten());
    let name = error->DuplicateName_name@;
    let j = choose|j: int|
        {
            &&& 0 <= j < names.len()
            &&& #[trigger] names[j] == name
            &&& names.take(j).contains(name)
            &&& names.take(j).no_duplicates()
        };
    let i = choose|i: int| 0 <= i < j && names.take(j)[i] == name;
    (named_in_walks(inputs@, walks, i), named_in_walks(inputs@, walks, j))
}

proof fn faultless(inputs: Seq<SendInput>, i: int)
    requires
        0 <= i,
        forall|j: int|
            0 <= j < inputs.len() ==> input_fault(
                (#[trigger] inputs[j]).path@,
                inputs[j].node,
            ) is None,
    ensures
        inputs_fault(inputs, i) is None,
    decreases inputs.len() - i,
{
    if i < inputs.len() {
        faultless(inputs, i + 1);
    }
}

proof fn named_in_walks(
    inputs: Seq<SendInput>,
    walks: Seq<Seq<(Seq<char>, Seq<char>)>>,
    m: int,
) -> (way: (int, Seq<Seq<char>>))
    requires
        walked(inputs, walks),
        0 <= m < walks.flatten().len(),
    ensures
        0 <= way.0 < inputs.len(),
        name_of(inputs[way.0].path@) matches Some(root) && name_below(root, way.1)
            == walks.flatten()[m].0,
{
    let at = from_flatten(walks, m);
    let i = at.0;
    let file = walks.flatten()[m];
    assert(walks[i].contains(file));
    assert(input_fault(inputs[i].path@, inputs[i].node) is None);
    let found = input_files(inputs[i].path@, inputs[i].node->0);
    sorting_keeps_files(found, walks[i], file);
    let k = choose|k: int| 0 <= k < found.len() && found[k] == file;
    let way = way_to_file(name_of(inputs[i].path@)->0, inputs[i].path@, inputs[i].node->0, k);
    (i, way.1)
}

} // verus!
