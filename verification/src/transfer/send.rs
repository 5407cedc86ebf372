//! Preparing a send: the files below the inputs, in a stable order, and their import.
//!
//! Symbolic links are skipped wherever they stand.
use vstd::multiset::Multiset;
use vstd::prelude::*;

use crate::order::{entry_less, is_ordering, ordering, text_less_is_total};
use crate::text::{quote, quoted, same_text, texts};
use crate::transfer::paths::{file_name, join_path, joined, name_of};

verus! {

broadcast use vstd::string::group_string_axioms;

/// Progress events emitted while preparing a send.
#[derive(Debug, Clone, PartialEq, Eq)]
pub enum ProgressEvent {
    /// A file was found and its size determined.
    FileFound { name: String, size: u64 },
    /// A file finished importing into the store.
    FileImported { name: String },
}

/// What stands at a path.
#[derive(Debug)]
pub enum FileNode {
    /// A symbolic link.
    Symlink,
    /// A regular file.
    File,
    /// A directory with its entries, in the order in which they are listed.
    Directory(Vec<DirEntry>),
    /// A directory that cannot be listed, and why.
    Unlistable(String),
    /// Something that is no symbolic link, and whose own name is not UTF-8.
    NotUtf8,
    /// Neither of these.
    Other,
    /// Nothing could be learned about the path, and why.
    Unreadable(String),
}

/// An entry of a directory.
#[derive(Debug)]
pub enum DirEntry {
    /// A name and what stands there.
    Entry { name: String, node: FileNode },
    /// The listing broke off here, and why.
    Broken(String),
    /// The name is not UTF-8; the path as far as it can be shown.
    NotUtf8(String),
}

/// Errors from send preparation.
#[derive(Debug, Clone, PartialEq, Eq)]
pub enum SendError {
    /// The input path does not exist.
    MissingSource { path: String },
    /// Failed to read metadata for a path.
    ReadMetadata { path: String, source: String },
    /// Failed to list a directory.
    ReadDirectory { path: String, source: String },
    /// A path component is not valid UTF-8.
    InvalidUtf8PathComponent { path: String },
    /// The input path has no name component to derive collection names from.
    InvalidRootName { path: String },
    /// The path is neither a regular file nor a directory.
    UnsupportedFileType { path: String },
    /// Two inputs would produce the same collection name.
    DuplicateName { name: String },
    /// The store failed to import a file.
    Import { name: String, source: String },
    /// The import ended without a result.
    ImportStreamEnded { name: String },
    /// The collection could not be stored.
    StoreCollection { source: String },
}

/// What went wrong while preparing a send.
pub enum SendFault {
    MissingSource(Seq<char>),
    ReadMetadata(Seq<char>, Seq<char>),
    ReadDirectory(Seq<char>, Seq<char>),
    InvalidUtf8PathComponent(Seq<char>),
    InvalidRootName(Seq<char>),
    UnsupportedFileType(Seq<char>),
    DuplicateName(Seq<char>),
    Import(Seq<char>, Seq<char>),
    ImportStreamEnded(Seq<char>),
    StoreCollection(Seq<char>),
}

impl View for SendError {
    type V = SendFault;

    open spec fn view(&self) -> SendFault {
        match self {
            SendError::MissingSource { path } => SendFault::MissingSource(path@),
            SendError::ReadMetadata { path, source } => SendFault::ReadMetadata(path@, source@),
            SendError::ReadDirectory { path, source } => SendFault::ReadDirectory(path@, source@),
            SendError::InvalidUtf8PathComponent { path } => SendFault::InvalidUtf8PathComponent(
                path@,
            ),
            SendError::InvalidRootName { path } => SendFault::InvalidRootName(path@),
            SendError::UnsupportedFileType { path } => SendFault::UnsupportedFileType(path@),
            SendError::DuplicateName { name } => SendFault::DuplicateName(name@),
            SendError::Import { name, source } => SendFault::Import(name@, source@),
            SendError::ImportStreamEnded { name } => SendFault::ImportStreamEnded(name@),
            SendError::StoreCollection { source } => SendFault::StoreCollection(source@),
        }
    }
}

/// The sentence that reports a fault.
pub open spec fn send_fault_text(fault: SendFault) -> Seq<char> {
    match fault {
        SendFault::MissingSource(path) => "source path "@ + path + " does not exist"@,
        SendFault::ReadMetadata(path, source) => "failed to read metadata for "@ + path + ": "@
            + source,
        SendFault::ReadDirectory(path, source) => "failed to read directory "@ + path + ": "@
            + source,
        SendFault::InvalidUtf8PathComponent(path) => "path component of "@ + path
            + " is not valid UTF-8"@,
        SendFault::InvalidRootName(path) => "cannot derive a name for input path "@ + path,
        SendFault::UnsupportedFileType(path) => "unsupported file type at "@ + path,
        SendFault::DuplicateName(name) => "duplicate collection name "@ + quoted(name),
        SendFault::Import(name, source) => "failed to import "@ + quoted(name) + ": "@ + source,
        SendFault::ImportStreamEnded(name) => "import of "@ + quoted(name)
            + " ended without a result"@,
        SendFault::StoreCollection(source) => "failed to store collection: "@ + source,
    }
}

impl SendError {
    /// The sentence that reports the error.
    pub fn to_string(&self) -> (text: String)
        ensures
            text@ == send_fault_text(self@),
    {
        let mut text: String;
        match self {
            SendError::MissingSource { path } => {
                text = "source path ".to_owned();
                text.append(path.as_str());
                text.append(" does not exist");
            },
            SendError::ReadMetadata { path, source } => {
                text = "failed to read metadata for ".to_owned();
                text.append(path.as_str());
                text.append(": ");
                text.append(source.as_str());
            },
            SendError::ReadDirectory { path, source } => {
                text = "failed to read directory ".to_owned();
                text.append(path.as_str());
                text.append(": ");
                text.append(source.as_str());
            },
            SendError::InvalidUtf8PathComponent { path } => {
                text = "path component of ".to_owned();
                text.append(path.as_str());
                text.append(" is not valid UTF-8");
            },
            SendError::InvalidRootName { path } => {
                text = "cannot derive a name for input path ".to_owned();
                text.append(path.as_str());
            },
            SendError::UnsupportedFileType { path } => {
                text = "unsupported file type at ".to_owned();
                text.append(path.as_str());
            },
            SendError::DuplicateName { name } => {
                text = "duplicate collection name ".to_owned();
                text.append(quote(name.as_str()).as_str());
            },
            SendError::Import { name, source } => {
                text = "failed to import ".to_owned();
                text.append(quote(name.as_str()).as_str());
                text.append(": ");
                text.append(source.as_str());
            },
            SendError::ImportStreamEnded { name } => {
                text = "import of ".to_owned();
                text.append(quote(name.as_str()).as_str());
                text.append(" ended without a result");
            },
            SendError::StoreCollection { source } => {
                text = "failed to store collection: ".to_owned();
                text.append(source.as_str());
            },
        }
        text
    }
}

/// A file to send: its name in the collection, and its path on disk.
#[derive(Debug, Clone, PartialEq, Eq)]
pub struct SourceFile {
    pub name: String,
    pub path: String,
}

impl View for SourceFile {
    type V = (Seq<char>, Seq<char>);

    open spec fn view(&self) -> (Seq<char>, Seq<char>) {
        (self.name@, self.path@)
    }
}

/// Names and paths of a list of files.
pub open spec fn sources(files: Seq<SourceFile>) -> Seq<(Seq<char>, Seq<char>)> {
    files.map_values(|f: SourceFile| f@)
}

/// The collection names of a list of files.
pub open spec fn names_of(files: Seq<(Seq<char>, Seq<char>)>) -> Seq<Seq<char>> {
    files.map_values(|f: (Seq<char>, Seq<char>)| f.0)
}

/// The name of an entry below `name`.
pub open spec fn child_name(name: Seq<char>, child: Seq<char>) -> Seq<char> {
    name.push('/') + child
}

/// The regular files at and below `path`, which is called `name`, in the order in which the walk
/// comes to them: of the entries of a directory, the last comes first.
pub open spec fn files_below(name: Seq<char>, path: Seq<char>, node: FileNode) -> Seq<
    (Seq<char>, Seq<char>),
>
    decreases node, 0int,
{
    match node {
        FileNode::File => seq![(name, path)],
        FileNode::Directory(entries) => files_in(name, path, entries@, entries@.len() as int),
        _ => Seq::empty(),
    }
}

/// The regular files below the first `n` entries of a directory.
pub open spec fn files_in(
    name: Seq<char>,
    path: Seq<char>,
    entries: Seq<DirEntry>,
    n: int,
) -> Seq<(Seq<char>, Seq<char>)>
    decreases entries, n,
{
    if n <= 0 || n > entries.len() {
        Seq::empty()
    } else {
        match entries[n - 1] {
            DirEntry::Entry { name: child, node } => files_below(
                child_name(name, child@),
                joined(path, child@),
                node,
            ) + files_in(name, path, entries, n - 1),
            _ => files_in(name, path, entries, n - 1),
        }
    }
}

/// The first fault that the walk meets at and below `path`.
pub open spec fn fault_below(path: Seq<char>, node: FileNode) -> Option<SendFault>
    decreases node, 0int,
{
    match node {
        FileNode::Symlink | FileNode::File => None,
        FileNode::NotUtf8 => Some(SendFault::InvalidUtf8PathComponent(path)),
        FileNode::Other => Some(SendFault::UnsupportedFileType(path)),
        FileNode::Unreadable(source) => Some(SendFault::ReadMetadata(path, source@)),
        FileNode::Unlistable(source) => Some(SendFault::ReadDirectory(path, source@)),
        FileNode::Directory(entries) => match listing_fault(path, entries@, 0) {
            Some(fault) => Some(fault),
            None => fault_in(path, entries@, entries@.len() as int),
        },
    }
}

/// The first entry from position `i` on that makes a listing unusable.
pub open spec fn listing_fault(path: Seq<char>, entries: Seq<DirEntry>, i: int) -> Option<SendFault>
    decreases entries.len() - i,
{
    if i >= entries.len() {
        None
    } else {
        match entries[i] {
            DirEntry::Broken(source) => Some(SendFault::ReadDirectory(path, source@)),
            DirEntry::NotUtf8(shown) => Some(SendFault::InvalidUtf8PathComponent(shown@)),
            DirEntry::Entry { .. } => listing_fault(path, entries, i + 1),
        }
    }
}

/// The first fault below the first `n` entries of a directory, the last entry first.
pub open spec fn fault_in(path: Seq<char>, entries: Seq<DirEntry>, n: int) -> Option<SendFault>
    decreases entries, n,
{
    if n <= 0 || n > entries.len() {
        None
    } else {
        match entries[n - 1] {
            DirEntry::Entry { name: child, node } => match fault_below(
                joined(path, child@),
                node,
            ) {
                Some(fault) => Some(fault),
                None => fault_in(path, entries, n - 1),
            },
            _ => fault_in(path, entries, n - 1),
        }
    }
}

/// `out` is `files` in the order of their names; files of equal name keep their order.
pub open spec fn by_name(
    files: Seq<(Seq<char>, Seq<char>)>,
    out: Seq<(Seq<char>, Seq<char>)>,
) -> bool {
    exists|o: Seq<usize>| #[trigger] is_ordering(names_of(files), o) && out == picked(files, o)
}

/// The files at the given positions.
pub open spec fn picked(files: Seq<(Seq<char>, Seq<char>)>, positions: Seq<usize>) -> Seq<
    (Seq<char>, Seq<char>),
> {
    positions.map_values(|i: usize| files[i as int])
}

/// Why walking an input fails, if it does.
pub open spec fn input_fault(path: Seq<char>, node: Option<FileNode>) -> Option<SendFault> {
    match node {
        None => Some(SendFault::MissingSource(path)),
        Some(FileNode::Symlink) => None,
        Some(FileNode::Unreadable(source)) => Some(SendFault::ReadMetadata(path, source@)),
        Some(FileNode::NotUtf8) => Some(SendFault::InvalidRootName(path)),
        Some(node) => if name_of(path) is None {
            Some(SendFault::InvalidRootName(path))
        } else {
            fault_below(path, node)
        },
    }
}

/// The files that walking an input finds, in the order in which it comes to them.
pub open spec fn input_files(path: Seq<char>, node: FileNode) -> Seq<(Seq<char>, Seq<char>)> {
    match name_of(path) {
        Some(name) => files_below(name, path, node),
        None => Seq::empty(),
    }
}

fn first_listing_error(path: &str, entries: &Vec<DirEntry>) -> (error: Option<SendError>)
    ensures
        match error {
            Some(error) => listing_fault(path@, entries@, 0) == Some(error@),
            None => listing_fault(path@, entries@, 0) is None && forall|i: int|
                0 <= i < entries@.len() ==> #[trigger] entries@[i] is Entry,
        },
{
    let mut i: usize = 0;
    while i < entries.len()
        invariant
            i <= entries@.len(),
            listing_fault(path@, entries@, 0) == listing_fault(path@, entries@, i as int),
            forall|j: int| 0 <= j < i ==> #[trigger] entries@[j] is Entry,
        decreases entries@.len() - i,
    {
        match &entries[i] {
            DirEntry::Broken(source) => {
                return Some(
                    SendError::ReadDirectory { path: path.to_owned(), source: source.clone() },
                );
            },
            DirEntry::NotUtf8(shown) => {
                return Some(SendError::InvalidUtf8PathComponent { path: shown.clone() });
            },
            DirEntry::Entry { .. } => {},
        }
        i += 1;
    }
    None
}

/// Appends the files at and below `path` to `found`.
fn visit(name: &str, path: &str, node: &FileNode, found: &mut Vec<SourceFile>) -> (outcome: Result<
    (),
    SendError,
>)
    ensures
        match outcome {
            Ok(()) => fault_below(path@, *node) is None && sources(final(found)@) == sources(
                old(found)@,
            ) + files_below(name@, path@, *node),
            Err(error) => fault_below(path@, *node) == Some(error@),
        },
    decreases node,
{
    let ghost before = found@;
    match node {
        FileNode::Symlink => {
            assert(sources(found@) =~= sources(before) + files_below(name@, path@, *node));
            Ok(())
        },
        FileNode::File => {
            found.push(SourceFile { name: name.to_owned(), path: path.to_owned() });
            assert(sources(found@) =~= sources(before) + files_below(name@, path@, *node));
            Ok(())
        },
        FileNode::NotUtf8 => Err(SendError::InvalidUtf8PathComponent { path: path.to_owned() }),
        FileNode::Other => Err(SendError::UnsupportedFileType { path: path.to_owned() }),
        FileNode::Unreadable(source) => Err(
            SendError::ReadMetadata { path: path.to_owned(), source: source.clone() },
        ),
        FileNode::Unlistable(source) => Err(
            SendError::ReadDirectory { path: path.to_owned(), source: source.clone() },
        ),
        FileNode::Directory(entries) => {
            match first_listing_error(path, entries) {
                Some(error) => {
                    return Err(error);
                },
                None => {},
            }
            let mut n: usize = entries.len();
            let ghost all = files_in(name@, path@, entries@, entries@.len() as int);
            assert(sources(found@) + all =~= sources(before) + all);
            while n > 0
                invariant
                    n <= entries@.len(),
                    *node == FileNode::Directory(*entries),
                    all == files_in(name@, path@, entries@, entries@.len() as int),
                    forall|i: int| 0 <= i < entries@.len() ==> #[trigger] entries@[i] is Entry,
                    listing_fault(path@, entries@, 0) is None,
                    sources(found@) + files_in(name@, path@, entries@, n as int) == sources(before)
                        + all,
                    fault_in(path@, entries@, entries@.len() as int) == fault_in(
                        path@,
                        entries@,
                        n as int,
                    ),
                decreases n,
            {
                let entry = &entries[n - 1];
                assert(entries@[n - 1] is Entry);
                match entry {
                    DirEntry::Entry { name: child, node: below } => {
                        let mut child_text = name.to_owned();
                        child_text.push('/');
                        child_text.append(child.as_str());
                        let child_path = join_path(path, child.as_str());
                        let ghost so_far = found@;
                        assert(decreases_to!(*node => entries@));
                        assert(decreases_to!(entries@ => entries@[n - 1]));
                        match visit(child_text.as_str(), child_path.as_str(), below, found) {
                            Ok(()) => {},
                            Err(error) => {
                                return Err(error);
                            },
                        }
                        assert(sources(found@) + files_in(name@, path@, entries@, n - 1)
                            =~= sources(so_far) + files_in(name@, path@, entries@, n as int));
                    },
                    _ => {},
                }
                n -= 1;
            }
            assert(sources(found@) + files_in(name@, path@, entries@, 0) =~= sources(found@));
            Ok(())
        },
    }
}

/// The files in the order of their names.
fn sort_files(files: &Vec<SourceFile>) -> (out: Vec<SourceFile>)
    ensures
        by_name(sources(files@), sources(out@)),
{
    let mut names: Vec<String> = Vec::new();
    let mut i: usize = 0;
    while i < files.len()
        invariant
            i <= files@.len(),
            names@.len() == i,
            forall|j: int| 0 <= j < i ==> names@[j]@ == files@[j].name@,
        decreases files@.len() - i,
    {
        names.push(files[i].name.clone());
        i += 1;
    }
    assert(texts(names@) =~= names_of(sources(files@)));
    let order: Vec<usize> = ordering(&names);
    let mut out: Vec<SourceFile> = Vec::new();
    let mut k: usize = 0;
    while k < order.len()
        invariant
            k <= order@.len(),
            is_ordering(names_of(sources(files@)), order@),
            out@.len() == k,
            forall|j: int| 0 <= j < k ==> #[trigger] out@[j]@ == files@[order@[j] as int]@,
        decreases order@.len() - k,
    {
        assert(names_of(sources(files@)).len() == files@.len());
        let file = &files[order[k]];
        out.push(SourceFile { name: file.name.clone(), path: file.path.clone() });
        k += 1;
    }
    assert(sources(out@) =~= picked(sources(files@), order@));
    out
}

/// Walks an input, a file or a directory, into the files at and below it, sorted by name.
///
/// `node` is what stands at the path; nothing if the path does not exist. The collection name of
/// the input is its file name, and those of nested entries follow it behind a `/`.
pub fn walk_files(path: &str, node: Option<&FileNode>) -> (files: Result<Vec<SourceFile>, SendError>)
    ensures
        match files {
            Ok(files) => input_fault(path@, option_view(node)) is None && by_name(
                input_files(path@, *node->0),
                sources(files@),
            ),
            Err(error) => input_fault(path@, option_view(node)) == Some(error@),
        },
{
    let node: &FileNode = match node {
        Some(node) => node,
        None => {
            return Err(SendError::MissingSource { path: path.to_owned() });
        },
    };
    let mut found: Vec<SourceFile> = Vec::new();
    match node {
        FileNode::Symlink => {
            let out = sort_files(&found);
            assert(sources(found@) =~= input_files(path@, *node));
            return Ok(out);
        },
        FileNode::Unreadable(source) => {
            return Err(SendError::ReadMetadata { path: path.to_owned(), source: source.clone() });
        },
        FileNode::NotUtf8 => {
            return Err(SendError::InvalidRootName { path: path.to_owned() });
        },
        _ => {},
    }
    let name = match file_name(path) {
        Some(name) => name,
        None => {
            return Err(SendError::InvalidRootName { path: path.to_owned() });
        },
    };
    match visit(name.as_str(), path, node, &mut found) {
        Ok(()) => {},
        Err(error) => {
            return Err(error);
        },
    }
    assert(sources(found@) =~= input_files(path@, *node));
    Ok(sort_files(&found))
}

/// The referenced value, if there is one.
pub open spec fn option_view(node: Option<&FileNode>) -> Option<FileNode> {
    match node {
        Some(node) => Some(*node),
        None => None,
    }
}

/// An input of a send: a path, and what stands there.
#[derive(Debug)]
pub struct SendInput {
    pub path: String,
    pub node: Option<FileNode>,
}

/// `walks` holds, for each input, the files below it in the order of their names.
pub open spec fn walked(inputs: Seq<SendInput>, walks: Seq<Seq<(Seq<char>, Seq<char>)>>) -> bool {
    &&& walks.len() == inputs.len()
    &&& forall|i: int|
        0 <= i < inputs.len() ==> {
            &&& input_fault((#[trigger] inputs[i]).path@, inputs[i].node) is None
            &&& by_name(input_files(inputs[i].path@, inputs[i].node->0), walks[i])
        }
}

/// The first fault among the inputs from position `i` on.
pub open spec fn inputs_fault(inputs: Seq<SendInput>, i: int) -> Option<SendFault>
    decreases inputs.len() - i,
{
    if i >= inputs.len() {
        None
    } else {
        match input_fault(inputs[i].path@, inputs[i].node) {
            Some(fault) => Some(fault),
            None => inputs_fault(inputs, i + 1),
        }
    }
}

/// `name` is the first in the list that stands there for the second time.
pub open spec fn first_repeat(names: Seq<Seq<char>>, name: Seq<char>) -> bool {
    exists|j: int|
        {
            &&& 0 <= j < names.len()
            &&& #[trigger] names[j] == name
            &&& names.take(j).contains(name)
            &&& names.take(j).no_duplicates()
        }
}

/// Names in ascending order, none of them twice.
pub open spec fn strictly_sorted(names: Seq<Seq<char>>) -> bool {
    forall|i: int, j: int|
        0 <= i < j < names.len() ==> crate::order::text_less(#[trigger] names[i], #[trigger] names[j])
}

/// What preparing a send promises of the list of files: the files below the inputs, each name
/// once, in the order of their names; or the first input that cannot be walked; or the first name
/// that two files share, the inputs taken in order and the files of each by name.
pub open spec fn files_prepared(
    inputs: Seq<SendInput>,
    walks: Seq<Seq<(Seq<char>, Seq<char>)>>,
    outcome: Result<Seq<(Seq<char>, Seq<char>)>, SendFault>,
) -> bool {
    let all = walks.flatten();
    match outcome {
        Ok(files) => {
            &&& walked(inputs, walks)
            &&& names_of(all).no_duplicates()
            &&& by_name(all, files)
            &&& strictly_sorted(names_of(files))
        },
        Err(SendFault::DuplicateName(name)) => {
            &&& walked(inputs, walks)
            &&& first_repeat(names_of(all), name)
        },
        Err(fault) => inputs_fault(inputs, 0) == Some(fault),
    }
}

/// The outcome with its strings taken by their views.
pub open spec fn files_outcome(outcome: Result<Vec<SourceFile>, SendError>) -> Result<
    Seq<(Seq<char>, Seq<char>)>,
    SendFault,
> {
    match outcome {
        Ok(files) => Ok(sources(files@)),
        Err(error) => Err(error@),
    }
}

/// The position of the first name that stands in the list for the second time.
fn find_repeat(names: &Vec<String>) -> (repeat: Option<usize>)
    ensures
        match repeat {
            Some(j) => {
                &&& j < names@.len()
                &&& texts(names@).take(j as int).contains(texts(names@)[j as int])
                &&& texts(names@).take(j as int).no_duplicates()
            },
            None => texts(names@).no_duplicates(),
        },
{
    let ghost keys = texts(names@);
    let order: Vec<usize> = ordering(names);
    let mut repeat: Option<usize> = None;
    let mut k: usize = 1;
    while k < order.len()
        invariant
            1 <= k,
            k <= order@.len() || k == 1,
            keys == texts(names@),
            is_ordering(keys, order@),
            repeat matches Some(j) ==> exists|m: int|
                0 < m < k && #[trigger] order@[m] == j && keys[order@[m - 1] as int]
                    == keys[order@[m] as int],
            forall|m: int|
                #![trigger order@[m]]
                0 < m < k && keys[order@[m - 1] as int] == keys[order@[m] as int] ==> (repeat
                    matches Some(j) && j <= order@[m]),
        decreases order@.len() - k,
    {
        let earlier: usize = order[k - 1];
        let later: usize = order[k];
        if same_text(names[earlier].as_str(), names[later].as_str()) {
            assert(keys[earlier as int] == keys[later as int]);
            repeat = match repeat {
                Some(j) => {
                    if later < j {
                        Some(later)
                    } else {
                        Some(j)
                    }
                },
                None => Some(later),
            };
        }
        k += 1;
    }
    proof {
        match repeat {
            Some(j) => {
                let m = choose|m: int|
                    0 < m < k && #[trigger] order@[m] == j && keys[order@[m - 1] as int]
                        == keys[order@[m] as int];
                let i = order@[m - 1] as int;
                assert(entry_less(keys, i, j as int));
                text_less_is_total(keys[i], keys[j as int]);
                assert(keys.take(j as int)[i] == keys[j as int]);
                assert forall|a: int, b: int| 0 <= a < b < j implies keys.take(j as int)[a]
                    != keys.take(j as int)[b] by {
                    if keys[a] == keys[b] {
                        let q = crate::order::repeats_are_adjacent(keys, order@, a, b);
                        assert(order@[q] == b);
                    }
                }
            },
            None => {
                assert forall|a: int, b: int| 0 <= a < b < keys.len() implies keys[a] != keys[b] by {
                    if keys[a] == keys[b] {
                        let q = crate::order::repeats_are_adjacent(keys, order@, a, b);
                        assert(order@[q] == b);
                    }
                }
            },
        }
    }
    repeat
}

/// The files to send, found below `inputs`, in the order in which the collection lists them.
pub fn prepare_files(inputs: &Vec<SendInput>) -> (outcome: Result<Vec<SourceFile>, SendError>)
    ensures
        exists|walks: Seq<Seq<(Seq<char>, Seq<char>)>>| #[trigger]
            files_prepared(inputs@, walks, files_outcome(outcome)),
{
    let mut all: Vec<SourceFile> = Vec::new();
    let ghost mut walks: Seq<Seq<(Seq<char>, Seq<char>)>> = Seq::empty();
    let mut i: usize = 0;
    assert(sources(all@) =~= walks.flatten());
    while i < inputs.len()
        invariant
            i <= inputs@.len(),
            walked(inputs@.take(i as int), walks),
            sources(all@) == walks.flatten(),
            inputs_fault(inputs@, 0) == inputs_fault(inputs@, i as int),
        decreases inputs@.len() - i,
    {
        let input = &inputs[i];
        let node: Option<&FileNode> = input.node.as_ref();
        assert(option_view(node) == input.node);
        let mut files = match walk_files(input.path.as_str(), node) {
            Ok(files) => files,
            Err(error) => {
                proof {
                    let out: Result<Vec<SourceFile>, SendError> = Err(error);
                    if error@ is DuplicateName {
                        no_duplicate_below(input.path@, *node->0);
                    }
                    assert(files_prepared(inputs@, walks, files_outcome(out)));
                }
                return Err(error);
            },
        };
        proof {
            let walk = sources(files@);
            let before = walks;
            walks = walks.push(walk);
            before.lemma_flatten_push(walk);
            assert(sources(all@ + files@) =~= sources(all@) + walk);
            assert(inputs@.take(i + 1) =~= inputs@.take(i as int).push(*input));
            assert forall|j: int| 0 <= j < i + 1 implies {
                &&& input_fault((#[trigger] inputs@.take(i + 1)[j]).path@, inputs@.take(i + 1)[j].node) is None
                &&& by_name(
                    input_files(inputs@.take(i + 1)[j].path@, inputs@.take(i + 1)[j].node->0),
                    walks[j],
                )
            } by {
                if j < i {
                    assert(inputs@.take(i + 1)[j] == inputs@.take(i as int)[j]);
                }
            }
        }
        all.append(&mut files);
        i += 1;
    }
    assert(inputs@.take(i as int) =~= inputs@);
    let mut names: Vec<String> = Vec::new();
    let mut k: usize = 0;
    while k < all.len()
        invariant
            k <= all@.len(),
            names@.len() == k,
            forall|j: int| 0 <= j < k ==> names@[j]@ == all@[j].name@,
        decreases all@.len() - k,
    {
        names.push(all[k].name.clone());
        k += 1;
    }
    let ghost found = sources(all@);
    assert(texts(names@) =~= names_of(found));
    match find_repeat(&names) {
        Some(j) => {
            let error = SendError::DuplicateName { name: names[j].clone() };
            proof {
                assert(names_of(found)[j as int] == names@[j as int]@);
                let out: Result<Vec<SourceFile>, SendError> = Err(error);
                assert(files_prepared(inputs@, walks, files_outcome(out)));
            }
            Err(error)
        },
        None => {
            let sorted = sort_files(&all);
            proof {
                by_name_without_repeats(found, sources(sorted@));
                let out: Result<Vec<SourceFile>, SendError> = Ok(sorted);
                assert(files_prepared(inputs@, walks, files_outcome(out)));
            }
            Ok(sorted)
        },
    }
}

/// Walking an input never reports a name that occurs twice.
proof fn no_duplicate_below(path: Seq<char>, node: FileNode)
    ensures
        !(fault_below(path, node) matches Some(SendFault::DuplicateName(_))),
    decreases node, 0int,
{
    if let FileNode::Directory(entries) = node {
        no_duplicate_listed(path, entries@, 0);
        no_duplicate_in(path, entries@, entries@.len() as int);
    }
}

proof fn no_duplicate_listed(path: Seq<char>, entries: Seq<DirEntry>, i: int)
    ensures
        !(listing_fault(path, entries, i) matches Some(SendFault::DuplicateName(_))),
    decreases entries.len() - i,
{
    if 0 <= i < entries.len() {
        no_duplicate_listed(path, entries, i + 1);
    } else if i < 0 {
        no_duplicate_listed(path, entries, i + 1);
    }
}

proof fn no_duplicate_in(path: Seq<char>, entries: Seq<DirEntry>, n: int)
    ensures
        !(fault_in(path, entries, n) matches Some(SendFault::DuplicateName(_))),
    decreases entries, n,
{
    if 0 < n <= entries.len() {
        if let DirEntry::Entry { name, node } = entries[n - 1] {
            no_duplicate_below(joined(path, name@), node);
        }
        no_duplicate_in(path, entries, n - 1);
    }
}

/// Files without a repeated name stand in strictly ascending order once they are sorted.
proof fn by_name_without_repeats(
    files: Seq<(Seq<char>, Seq<char>)>,
    out: Seq<(Seq<char>, Seq<char>)>,
)
    requires
        by_name(files, out),
        names_of(files).no_duplicates(),
    ensures
        strictly_sorted(names_of(out)),
{
    let names = names_of(files);
    let o = choose|o: Seq<usize>| #[trigger] is_ordering(names, o) && out == picked(files, o);
    assert forall|i: int, j: int| 0 <= i < j < out.len() implies crate::order::text_less(
        #[trigger] names_of(out)[i],
        #[trigger] names_of(out)[j],
    ) by {
        assert(entry_less(names, o[i] as int, o[j] as int));
        assert(names[o[i] as int] == names_of(out)[i]);
        assert(names[o[j] as int] == names_of(out)[j]);
    }
}

/// The same files always come out in the same order, so the same input always makes the same
/// collection.
pub proof fn sorting_is_deterministic(
    files: Seq<(Seq<char>, Seq<char>)>,
    a: Seq<(Seq<char>, Seq<char>)>,
    b: Seq<(Seq<char>, Seq<char>)>,
)
    requires
        by_name(files, a),
        by_name(files, b),
    ensures
        a == b,
{
    let names = names_of(files);
    let x = choose|o: Seq<usize>| #[trigger] is_ordering(names, o) && a == picked(files, o);
    let y = choose|o: Seq<usize>| #[trigger] is_ordering(names, o) && b == picked(files, o);
    crate::order::ordering_is_unique(names, x, y);
}

/// The files below an input in the order of their names.
spec fn walk_of(input: SendInput) -> Seq<(Seq<char>, Seq<char>)> {
    choose|walk: Seq<(Seq<char>, Seq<char>)>|
        by_name(input_files(input.path@, input.node->0), walk)
}

/// Adds the files below an input to a multiset of files.
spec fn add_walk(
    input: SendInput,
    found: Multiset<(Seq<char>, Seq<char>)>,
) -> Multiset<(Seq<char>, Seq<char>)> {
    found.add(walk_of(input).to_multiset())
}

/// The files that are found below the inputs, each as often as it is found, do not depend on the
/// order of the inputs.
proof fn walks_add_up(inputs: Seq<SendInput>, walks: Seq<Seq<(Seq<char>, Seq<char>)>>)
    requires
        walked(inputs, walks),
    ensures
        walks.flatten().to_multiset() == inputs.fold_right(
            |input: SendInput, found: Multiset<(Seq<char>, Seq<char>)>| add_walk(input, found),
            Multiset::empty(),
        ),
    decreases inputs.len(),
{
    let f = |input: SendInput, found: Multiset<(Seq<char>, Seq<char>)>| add_walk(input, found);
    let none = Multiset::<(Seq<char>, Seq<char>)>::empty();
    if inputs.len() == 0 {
        assert(walks.flatten().to_multiset() =~= none) by {
            broadcast use vstd::seq_lib::group_to_multiset_ensures;
            assert(walks.flatten() =~= Seq::empty());
        }
    } else {
        let n = inputs.len() - 1;
        let front = walks.drop_last();
        let walk = walks.last();
        assert(walked(inputs.drop_last(), front)) by {
            assert forall|i: int| 0 <= i < n implies {
                &&& input_fault((#[trigger] inputs.drop_last()[i]).path@, inputs.drop_last()[i].node) is None
                &&& by_name(
                    input_files(inputs.drop_last()[i].path@, inputs.drop_last()[i].node->0),
                    front[i],
                )
            } by {
                assert(inputs[i] == inputs.drop_last()[i]);
            }
        }
        walks_add_up(inputs.drop_last(), front);
        let last = inputs[n];
        assert(by_name(input_files(last.path@, last.node->0), walk));
        sorting_is_deterministic(input_files(last.path@, last.node->0), walk, walk_of(last));
        front.lemma_flatten_push(walk);
        assert(front.push(walk) =~= walks);
        vstd::seq_lib::lemma_multiset_commutative(front.flatten(), walk);
        adding_walks_commutes();
        inputs.drop_last().lemma_fold_right_commute_one(last, f, none);
        assert(inputs.fold_right(f, none) == f(last, inputs.drop_last().fold_right(f, none)));
    }
}

proof fn adding_walks_commutes()
    ensures
        vstd::seq_lib::commutative_foldr(
            |input: SendInput, found: Multiset<(Seq<char>, Seq<char>)>| add_walk(input, found),
        ),
{
    assert forall|x: SendInput, y: SendInput, found: Multiset<(Seq<char>, Seq<char>)>|
        #[trigger] add_walk(x, add_walk(y, found)) == add_walk(y, add_walk(x, found)) by {
        assert(add_walk(x, add_walk(y, found)) =~= add_walk(y, add_walk(x, found)));
    }
}

/// Sorting neither adds nor drops a file.
pub(crate) proof fn sorting_keeps_files(
    files: Seq<(Seq<char>, Seq<char>)>,
    out: Seq<(Seq<char>, Seq<char>)>,
    file: (Seq<char>, Seq<char>),
)
    requires
        by_name(files, out),
    ensures
        files.contains(file) <==> out.contains(file),
{
    let names = names_of(files);
    let o = choose|o: Seq<usize>| #[trigger] is_ordering(names, o) && out == picked(files, o);
    if files.contains(file) {
        let j = choose|j: int| 0 <= j < files.len() && files[j] == file;
        crate::order::ordering_covers(names, o, j);
        let k = choose|k: int| 0 <= k < o.len() && #[trigger] o[k] == j;
        assert(out[k] == file);
    }
    if out.contains(file) {
        let k = choose|k: int| 0 <= k < out.len() && out[k] == file;
        assert(files[o[k] as int] == file);
    }
}

/// Two lists of the same files in strictly ascending order are the same list.
proof fn sorted_lists_agree(a: Seq<(Seq<char>, Seq<char>)>, b: Seq<(Seq<char>, Seq<char>)>)
    requires
        strictly_sorted(names_of(a)),
        strictly_sorted(names_of(b)),
        forall|file: (Seq<char>, Seq<char>)| a.contains(file) <==> #[trigger] b.contains(file),
    ensures
        a == b,
    decreases a.len(),
{
    if a.len() == 0 {
        if b.len() > 0 {
            assert(b.contains(b[0]));
        }
        assert(a =~= b);
    } else {
        assert(a.contains(a[0]));
        assert(b.contains(a[0]));
        let k = choose|k: int| 0 <= k < b.len() && b[k] == a[0];
        assert(b.contains(b[0]));
        assert(a.contains(b[0]));
        let m = choose|m: int| 0 <= m < a.len() && a[m] == b[0];
        if k > 0 && m > 0 {
            assert(crate::order::text_less(names_of(b)[0], names_of(b)[k]));
            assert(crate::order::text_less(names_of(a)[0], names_of(a)[m]));
            text_less_is_total(a[0].0, b[0].0);
        }
        assert(a[0] == b[0]);
        let rest_a = a.drop_first();
        let rest_b = b.drop_first();
        assert(forall|i: int| 0 <= i < rest_a.len() ==> names_of(rest_a)[i] == names_of(a)[i + 1]);
        assert(forall|i: int| 0 <= i < rest_b.len() ==> names_of(rest_b)[i] == names_of(b)[i + 1]);
        assert forall|file: (Seq<char>, Seq<char>)| rest_a.contains(file)
            <==> #[trigger] rest_b.contains(file) by {
            rest_of_sorted(a, file);
            rest_of_sorted(b, file);
            assert(a.contains(file) <==> b.contains(file));
        }
        sorted_lists_agree(rest_a, rest_b);
        assert(a =~= seq![a[0]] + rest_a);
        assert(b =~= seq![b[0]] + rest_b);
    }
}

proof fn rest_of_sorted(list: Seq<(Seq<char>, Seq<char>)>, file: (Seq<char>, Seq<char>))
    requires
        list.len() > 0,
        strictly_sorted(names_of(list)),
    ensures
        list.drop_first().contains(file) <==> list.contains(file) && file != list[0],
{
    if list.drop_first().contains(file) {
        let k = choose|k: int| 0 <= k < list.len() - 1 && list.drop_first()[k] == file;
        assert(list[k + 1] == file);
        assert(crate::order::text_less(names_of(list)[0], names_of(list)[k + 1]));
        text_less_is_total(list[0].0, file.0);
    }
    if list.contains(file) && file != list[0] {
        let k = choose|k: int| 0 <= k < list.len() && list[k] == file;
        assert(list.drop_first()[k - 1] == file);
    }
}

proof fn faultless_inputs(inputs: Seq<SendInput>, i: int)
    requires
        0 <= i,
        forall|j: int|
            0 <= j < inputs.len() ==> input_fault(
                (#[trigger] inputs[j]).path@,
                inputs[j].node,
            ) is None,
    ensures
        inputs_fault(inputs, i) is None,
    decreases inputs.len() - i,
{
    if i < inputs.len() {
        faultless_inputs(inputs, i + 1);
    }
}

/// Lists of files with the same files, each as often, either both hold a name twice or neither
/// does.
proof fn repeats_do_not_depend_on_order(
    a: Seq<(Seq<char>, Seq<char>)>,
    b: Seq<(Seq<char>, Seq<char>)>,
)
    requires
        a.to_multiset() == b.to_multiset(),
        names_of(a).no_duplicates(),
    ensures
        names_of(b).no_duplicates(),
{
    broadcast use vstd::seq_lib::group_to_multiset_ensures;

    assert forall|i: int, j: int| 0 <= i < a.len() && 0 <= j < a.len() && i != j implies a[i]
        != a[j] by {
        assert(names_of(a)[i] != names_of(a)[j]);
    }
    a.lemma_multiset_has_no_duplicates();
    b.lemma_multiset_has_no_duplicates_conv();
    assert forall|i: int, j: int| 0 <= i < b.len() && 0 <= j < b.len() && i != j implies names_of(
        b,
    )[i] != names_of(b)[j] by {
        assert(b.to_multiset().count(b[i]) > 0 && b.to_multiset().count(b[j]) > 0);
        let x = choose|x: int| 0 <= x < a.len() && a[x] == b[i];
        let y = choose|y: int| 0 <= y < a.len() && a[y] == b[j];
        assert(x != y);
        assert(names_of(a)[x] != names_of(a)[y]);
    }
}

/// The order in which the inputs are given makes no difference: where they can be prepared, the
/// same inputs in any order give the same files in the same order, and so the same collection.
pub proof fn input_order_makes_no_difference(
    inputs: Seq<SendInput>,
    walks: Seq<Seq<(Seq<char>, Seq<char>)>>,
    files: Seq<(Seq<char>, Seq<char>)>,
    permuted: Seq<SendInput>,
    permuted_walks: Seq<Seq<(Seq<char>, Seq<char>)>>,
    outcome: Result<Seq<(Seq<char>, Seq<char>)>, SendFault>,
)
    requires
        inputs.to_multiset() == permuted.to_multiset(),
        files_prepared(inputs, walks, Ok(files)),
        files_prepared(permuted, permuted_walks, outcome),
    ensures
        outcome == Ok::<_, SendFault>(files),
{
    broadcast use vstd::seq_lib::group_to_multiset_ensures;

    let f = |input: SendInput, found: Multiset<(Seq<char>, Seq<char>)>| add_walk(input, found);
    assert forall|j: int| 0 <= j < permuted.len() implies input_fault(
        (#[trigger] permuted[j]).path@,
        permuted[j].node,
    ) is None by {
        assert(permuted.to_multiset().count(permuted[j]) > 0);
        assert(inputs.contains(permuted[j]));
        let i = choose|i: int| 0 <= i < inputs.len() && inputs[i] == permuted[j];
        assert(input_fault(inputs[i].path@, inputs[i].node) is None);
    }
    faultless_inputs(permuted, 0);
    assert(walked(permuted, permuted_walks));
    let all = walks.flatten();
    let other = permuted_walks.flatten();
    walks_add_up(inputs, walks);
    walks_add_up(permuted, permuted_walks);
    adding_walks_commutes();
    vstd::seq_lib::lemma_fold_right_permutation(inputs, permuted, f, Multiset::empty());
    repeats_do_not_depend_on_order(all, other);
    match outcome {
        Ok(files2) => {
            assert forall|file: (Seq<char>, Seq<char>)| files.contains(file)
                <==> #[trigger] files2.contains(file) by {
                sorting_keeps_files(all, files, file);
                sorting_keeps_files(other, files2, file);
                assert(all.contains(file) <==> all.to_multiset().count(file) > 0);
                assert(other.contains(file) <==> other.to_multiset().count(file) > 0);
            }
            sorted_lists_agree(files, files2);
        },
        Err(SendFault::DuplicateName(name)) => {
            let names = names_of(other);
            let j = choose|j: int|
                {
                    &&& 0 <= j < names.len()
                    &&& #[trigger] names[j] == name
                    &&& names.take(j).contains(name)
                    &&& names.take(j).no_duplicates()
                };
            let i = choose|i: int| 0 <= i < j && names.take(j)[i] == name;
            assert(names[i] == names[j]);
        },
        Err(_) => {},
    }
}

/// Every file found below an input is named after the input: by its name alone, or by its name,
/// a `/` and more.
pub proof fn found_names_start_with_the_input(
    name: Seq<char>,
    path: Seq<char>,
    node: FileNode,
    i: int,
)
    requires
        0 <= i < files_below(name, path, node).len(),
    ensures
        ({
            let found = files_below(name, path, node)[i].0;
            found == name || name.push('/').is_prefix_of(found)
        }),
    decreases node, 0int,
{
    if let FileNode::Directory(entries) = node {
        names_in_start_with_the_input(name, path, entries@, entries@.len() as int, i);
    }
}

proof fn names_in_start_with_the_input(
    name: Seq<char>,
    path: Seq<char>,
    entries: Seq<DirEntry>,
    n: int,
    i: int,
)
    requires
        0 <= i < files_in(name, path, entries, n).len(),
    ensures
        name.push('/').is_prefix_of(files_in(name, path, entries, n)[i].0),
    decreases entries, n,
{
    match entries[n - 1] {
        DirEntry::Entry { name: child, node } => {
            let below = child_name(name, child@);
            let first = files_below(below, joined(path, child@), node);
            if i < first.len() {
                found_names_start_with_the_input(below, joined(path, child@), node, i);
                let found = first[i].0;
                assert(name.push('/') =~= below.take(name.len() as int + 1));
                assert(found == below || found.take(below.len() as int + 1) =~= below.push('/'));
                assert(name.push('/') =~= found.take(name.len() as int + 1));
            } else {
                names_in_start_with_the_input(name, path, entries, n - 1, i - first.len());
            }
        },
        _ => {
            names_in_start_with_the_input(name, path, entries, n - 1, i);
        },
    }
}

/// Whether the listings at and below a node are those of a file system: the entries of a directory
/// have names of their own, and no name holds a `/`.
pub open spec fn well_listed(node: FileNode) -> bool
    decreases node, 0int,
{
    match node {
        FileNode::Directory(entries) => {
            &&& forall|i: int, j: int|
                0 <= i < j < entries@.len() ==> !same_name(#[trigger] entries@[i], #[trigger] entries@[j])
            &&& all_well_listed(entries@, entries@.len() as int)
        },
        _ => true,
    }
}

/// Whether two entries have the same name.
pub open spec fn same_name(a: DirEntry, b: DirEntry) -> bool {
    match (a, b) {
        (DirEntry::Entry { name: x, .. }, DirEntry::Entry { name: y, .. }) => x@ == y@,
        _ => false,
    }
}

/// Whether the first `n` entries of a directory have names without a `/`, and what stands there
/// is listed well.
pub open spec fn all_well_listed(entries: Seq<DirEntry>, n: int) -> bool
    decreases entries, n,
{
    if n <= 0 || n > entries.len() {
        true
    } else {
        &&& all_well_listed(entries, n - 1)
        &&& match entries[n - 1] {
            DirEntry::Entry { name, node } => !name@.contains('/') && well_listed(node),
            _ => true,
        }
    }
}

/// Whether a text is `name`, or `name`, a `/` and more.
spec fn named_after(text: Seq<char>, name: Seq<char>) -> bool {
    text == name || name.push('/').is_prefix_of(text)
}

proof fn named_after_starts_with(text: Seq<char>, name: Seq<char>)
    requires
        named_after(text, name),
    ensures
        text.len() >= name.len(),
        text.take(name.len() as int) == name,
{
    if text != name {
        assert(name.push('/') == text.subrange(0, name.len() as int + 1));
        assert(name.push('/').take(name.len() as int) =~= name);
        assert(text.take(name.len() as int) =~= name.push('/').take(name.len() as int));
    } else {
        assert(text.take(name.len() as int) =~= name);
    }
}

/// Two names without a `/` that follow the same front in one text are the same name.
proof fn one_component(front: Seq<char>, a: Seq<char>, b: Seq<char>, text: Seq<char>)
    requires
        !a.contains('/'),
        !b.contains('/'),
        named_after(text, child_name(front, a)),
        named_after(text, child_name(front, b)),
    ensures
        a == b,
{
    component_is_not_shorter(front, a, b, text);
    component_is_not_shorter(front, b, a, text);
    named_after_starts_with(text, child_name(front, a));
    named_after_starts_with(text, child_name(front, b));
    let from = front.len() as int + 1;
    assert(child_name(front, a).skip(from) =~= a);
    assert(child_name(front, b).skip(from) =~= b);
}

proof fn component_is_not_shorter(front: Seq<char>, a: Seq<char>, b: Seq<char>, text: Seq<char>)
    requires
        !b.contains('/'),
        named_after(text, child_name(front, a)),
        named_after(text, child_name(front, b)),
    ensures
        a.len() >= b.len(),
{
    if a.len() < b.len() {
        let at = front.len() as int + 1 + a.len();
        assert(text.len() >= child_name(front, b).len());
        assert(text != child_name(front, a));
        assert(text[at] == child_name(front, a).push('/')[at]);
        assert(text[at] == child_name(front, b)[at]);
        assert(b[a.len() as int] == '/');
    }
}

/// The entry of a directory that a file was found below.
proof fn entry_of_file(name: Seq<char>, path: Seq<char>, entries: Seq<DirEntry>, n: int, i: int)
    -> (at: int)
    requires
        0 <= i < files_in(name, path, entries, n).len(),
    ensures
        0 <= at < n <= entries.len(),
        entries[at] matches DirEntry::Entry { name: child, .. } && named_after(
            files_in(name, path, entries, n)[i].0,
            child_name(name, child@),
        ),
    decreases n,
{
    match entries[n - 1] {
        DirEntry::Entry { name: child, node } => {
            let first = files_below(child_name(name, child@), joined(path, child@), node);
            if i < first.len() {
                found_names_start_with_the_input(
                    child_name(name, child@),
                    joined(path, child@),
                    node,
                    i,
                );
                n - 1
            } else {
                entry_of_file(name, path, entries, n - 1, i - first.len())
            }
        },
        _ => entry_of_file(name, path, entries, n - 1, i),
    }
}

/// The entries of a directory that is listed well have names without a `/`.
proof fn entry_name_is_plain(entries: Seq<DirEntry>, n: int, at: int)
    requires
        all_well_listed(entries, n),
        0 <= at < n <= entries.len(),
    ensures
        entries[at] matches DirEntry::Entry { name, .. } ==> !name@.contains('/'),
    decreases n,
{
    if at < n - 1 {
        entry_name_is_plain(entries, n - 1, at);
    }
}

proof fn names_below_differ(name: Seq<char>, path: Seq<char>, node: FileNode)
    requires
        well_listed(node),
    ensures
        names_of(files_below(name, path, node)).no_duplicates(),
    decreases node, 0int,
{
    if let FileNode::Directory(entries) = node {
        names_in_differ(name, path, entries@, entries@.len() as int);
    }
}

proof fn names_in_differ(name: Seq<char>, path: Seq<char>, entries: Seq<DirEntry>, n: int)
    requires
        all_well_listed(entries, n),
        forall|i: int, j: int|
            0 <= i < j < entries.len() ==> !same_name(#[trigger] entries[i], #[trigger] entries[j]),
    ensures
        names_of(files_in(name, path, entries, n)).no_duplicates(),
    decreases entries, n,
{
    if 0 < n <= entries.len() {
        names_in_differ(name, path, entries, n - 1);
        if let DirEntry::Entry { name: child, node } = entries[n - 1] {
            let below = child_name(name, child@);
            let first = files_below(below, joined(path, child@), node);
            let rest = files_in(name, path, entries, n - 1);
            let all = files_in(name, path, entries, n);
            names_below_differ(below, joined(path, child@), node);
            assert forall|i: int, j: int| 0 <= i < j < all.len() implies names_of(all)[i]
                != names_of(all)[j] by {
                if j < first.len() {
                    assert(names_of(first)[i] != names_of(first)[j]);
                } else if i >= first.len() {
                    assert(names_of(rest)[i - first.len()] != names_of(rest)[j - first.len()]);
                } else if all[i].0 == all[j].0 {
                    found_names_start_with_the_input(below, joined(path, child@), node, i);
                    let at = entry_of_file(name, path, entries, n - 1, j - first.len());
                    entry_name_is_plain(entries, n, at);
                    entry_name_is_plain(entries, n, n - 1);
                    if let DirEntry::Entry { name: other, .. } = entries[at] {
                        one_component(name, child@, other@, all[i].0);
                    }
                    assert(same_name(entries[at], entries[n - 1]));
                }
            }
        }
    }
}

/// Walking an input whose directories are listed as a file system lists them finds every name
/// once: the names come out in strictly ascending order.
pub proof fn a_walk_finds_each_name_once(
    path: Seq<char>,
    node: FileNode,
    files: Seq<(Seq<char>, Seq<char>)>,
)
    requires
        well_listed(node),
        by_name(input_files(path, node), files),
    ensures
        names_of(files).no_duplicates(),
        strictly_sorted(names_of(files)),
{
    match name_of(path) {
        Some(name) => names_below_differ(name, path, node),
        None => {},
    }
    by_name_without_repeats(input_files(path, node), files);
    assert forall|i: int, j: int| 0 <= i < j < files.len() implies names_of(files)[i] != names_of(
        files,
    )[j] by {
        text_less_is_total(names_of(files)[i], names_of(files)[j]);
    }
}

/// A single file inside a prepared transfer.
#[derive(Debug, Clone, PartialEq, Eq)]
pub struct PreparedFile {
    /// Local source path on disk.
    pub path: String,
    /// Collection name.
    pub name: String,
    /// Size in bytes.
    pub size: u64,
    /// Hash of the imported blob.
    pub hash: [u8; 32],
}

/// The result of preparing a send: a ticket plus the file inventory.
#[derive(Debug)]
pub struct PreparedTransfer {
    /// Ticket that a receiver fetches the collection with.
    pub ticket: String,
    /// Hash of the stored collection.
    pub collection_hash: [u8; 32],
    /// The files in collection order, sorted by name.
    pub files: Vec<PreparedFile>,
    /// Sum of all file sizes in bytes.
    pub total_bytes: u64,
}

/// The sum of the sizes of a list of files.
pub open spec fn total_size(files: Seq<PreparedFile>) -> int
    decreases files.len(),
{
    if files.len() == 0 {
        0
    } else {
        total_size(files.drop_last()) + files.last().size
    }
}

/// What the store reports while it imports a file.
#[derive(Debug)]
pub enum ImportItem {
    /// The file's size.
    Size(u64),
    /// Something is under way that needs no reaction.
    Progress,
    /// The import is complete; the hash of the blob.
    Done([u8; 32]),
    /// The import failed, and why.
    Error(String),
    /// There are no more reports.
    Ended,
}

/// The import of a list of files, one after the other.
pub struct Import {
    sources: Vec<SourceFile>,
    files: Vec<PreparedFile>,
    size: u64,
    total_bytes: u64,
}

impl Import {
    /// The files to import.
    pub closed spec fn list(self) -> Seq<SourceFile> {
        self.sources@
    }

    /// The files imported so far.
    pub closed spec fn done(self) -> Seq<PreparedFile> {
        self.files@
    }

    /// The last size reported for the file being imported.
    pub closed spec fn reported(self) -> u64 {
        self.size
    }

    /// The files imported so far are the first of the list, under their names and paths.
    pub open spec fn wf(self) -> bool {
        &&& self.done().len() <= self.list().len()
        &&& forall|i: int|
            0 <= i < self.done().len() ==> (#[trigger] self.done()[i]).name@ == self.list()[i].name@
                && self.done()[i].path@ == self.list()[i].path@
        &&& total_size(self.done()) <= u64::MAX
    }

    #[verifier::type_invariant]
    closed spec fn inv(self) -> bool {
        &&& self.wf()
        &&& self.total_bytes == total_size(self.files@)
    }

    /// Starts importing `sources`.
    pub fn new(sources: Vec<SourceFile>) -> (import: Self)
        ensures
            import.wf(),
            import.list() == sources@,
            import.done().len() == 0,
            import.reported() == 0,
    {
        Import { sources, files: Vec::new(), size: 0, total_bytes: 0 }
    }

    /// The path of the file to import next; none once all are imported.
    pub fn next_path(&self) -> (path: Option<&str>)
        ensures
            self.wf(),
            match path {
                Some(path) => self.done().len() < self.list().len() && path@
                    == self.list()[self.done().len() as int].path@,
                None => self.done().len() == self.list().len(),
            },
    {
        proof {
            use_type_invariant(self);
        }
        if self.files.len() < self.sources.len() {
            Some(self.sources[self.files.len()].path.as_str())
        } else {
            None
        }
    }

    /// Whether the size reported for the current file still fits in the total.
    pub fn fits(&self) -> (fits: bool)
        ensures
            fits == (total_size(self.done()) + self.reported() <= u64::MAX),
    {
        proof {
            use_type_invariant(self);
        }
        self.total_bytes <= u64::MAX - self.size
    }

    /// Takes a report on the current file. A size announces the file; the completion adds it to
    /// the imported files with the size reported last.
    pub fn report(&mut self, item: ImportItem) -> (outcome: Result<Option<ProgressEvent>, SendError>)
        requires
            old(self).done().len() < old(self).list().len(),
            item is Done ==> total_size(old(self).done()) + old(self).reported() <= u64::MAX,
        ensures
            final(self).wf(),
            final(self).list() == old(self).list(),
            ({
                let file = old(self).list()[old(self).done().len() as int];
                match item {
                    ImportItem::Size(size) => {
                        &&& outcome matches Ok(Some(ProgressEvent::FileFound { name, size: found }))
                        &&& name@ == file.name@ && found == size
                        &&& final(self).reported() == size
                        &&& final(self).done() == old(self).done()
                    },
                    ImportItem::Progress => {
                        &&& outcome matches Ok(None)
                        &&& *final(self) == *old(self)
                    },
                    ImportItem::Done(hash) => {
                        &&& outcome matches Ok(Some(ProgressEvent::FileImported { name }))
                        &&& name@ == file.name@
                        &&& final(self).done().drop_last() == old(self).done()
                        &&& final(self).done().len() == old(self).done().len() + 1
                        &&& final(self).done().last().name@ == file.name@
                        &&& final(self).done().last().path@ == file.path@
                        &&& final(self).done().last().size == old(self).reported()
                        &&& final(self).done().last().hash == hash
                        &&& final(self).reported() == 0
                    },
                    ImportItem::Error(source) => {
                        &&& outcome matches Err(error)
                        &&& error@ == SendFault::Import(file.name@, source@)
                        &&& *final(self) == *old(self)
                    },
                    ImportItem::Ended => {
                        &&& outcome matches Err(error)
                        &&& error@ == SendFault::ImportStreamEnded(file.name@)
                        &&& *final(self) == *old(self)
                    },
                }
            }),
    {
        proof {
            use_type_invariant(&*self);
        }
        let at: usize = self.files.len();
        let name = self.sources[at].name.clone();
        match item {
            ImportItem::Size(size) => {
                self.size = size;
                Ok(Some(ProgressEvent::FileFound { name, size }))
            },
            ImportItem::Progress => Ok(None),
            ImportItem::Done(hash) => {
                let file = PreparedFile {
                    path: self.sources[at].path.clone(),
                    name: name.clone(),
                    size: self.size,
                    hash,
                };
                self.complete(file);
                Ok(Some(ProgressEvent::FileImported { name }))
            },
            ImportItem::Error(source) => Err(SendError::Import { name, source }),
            ImportItem::Ended => Err(SendError::ImportStreamEnded { name }),
        }
    }

    /// Adds an imported file.
    fn complete(&mut self, file: PreparedFile)
        requires
            old(self).inv(),
            old(self).files@.len() < old(self).sources@.len(),
            file.name@ == old(self).sources@[old(self).files@.len() as int].name@,
            file.path@ == old(self).sources@[old(self).files@.len() as int].path@,
            file.size == old(self).size,
            old(self).total_bytes + file.size <= u64::MAX,
        ensures
            final(self).inv(),
            final(self).sources == old(self).sources,
            final(self).files@ == old(self).files@.push(file),
            final(self).size == 0,
    {
        let mut next = Import {
            sources: Vec::new(),
            files: Vec::new(),
            size: 0,
            total_bytes: 0,
        };
        core::mem::swap(self, &mut next);
        let Import { sources, mut files, size, total_bytes } = next;
        let ghost before = files@;
        files.push(file);
        assert(files@.drop_last() =~= before);
        *self = Import { sources, files, size: 0, total_bytes: total_bytes + size };
    }

    /// The collection of the files imported so far: the name of each, and the hash of its blob.
    pub fn collection(&self) -> (list: Vec<(String, [u8; 32])>)
        ensures
            list@.len() == self.done().len(),
            forall|i: int|
                0 <= i < list@.len() ==> (#[trigger] list@[i]).0@ == self.done()[i].name@
                    && list@[i].1 == self.done()[i].hash,
    {
        let mut list: Vec<(String, [u8; 32])> = Vec::new();
        let mut i: usize = 0;
        while i < self.files.len()
            invariant
                i <= self.files@.len(),
                list@.len() == i,
                forall|j: int|
                    0 <= j < i ==> (#[trigger] list@[j]).0@ == self.files@[j].name@ && list@[j].1
                        == self.files@[j].hash,
            decreases self.files@.len() - i,
        {
            list.push((self.files[i].name.clone(), self.files[i].hash));
            i += 1;
        }
        list
    }

    /// The prepared transfer, once every file is imported and the collection is stored.
    pub fn finish(self, ticket: String, collection_hash: [u8; 32]) -> (prepared: PreparedTransfer)
        requires
            self.done().len() == self.list().len(),
        ensures
            prepared.ticket == ticket,
            prepared.collection_hash == collection_hash,
            prepared.files@ == self.done(),
            prepared.total_bytes == total_size(self.done()),
            self.wf(),
    {
        proof {
            use_type_invariant(&self);
        }
        PreparedTransfer {
            ticket,
            collection_hash,
            files: self.files,
            total_bytes: self.total_bytes,
        }
    }
}

} // verus!
