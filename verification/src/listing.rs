//! From what was read of a directory to the rows of its listing.

use vstd::prelude::*;
use crate::content::{entry_data, Content, ContentData, ContentView};
use crate::paths::{file_name_of, parent_dir, parent_of, parent_or_self};

verus! {

/// What was found out about one child of a directory.
#[derive(Debug, Clone)]
pub enum ChildReading {
    /// The child could not be read.
    Unreadable,
    /// The child was read.
    Found {
        /// Its path.
        path: String,
        /// Whether it is a regular file; anything else is listed as a
        /// directory.
        is_file: bool,
        /// Its length in bytes, `None` where the metadata lookup failed.
        byte_len: Option<u64>,
    },
}

/// What was found out about a directory.
#[derive(Debug, Clone)]
pub struct DirReading {
    /// The length in bytes that the metadata of the parent link's target
    /// reported, `None` where the lookup failed.
    pub parent_len: Option<u64>,
    /// The children in the order in which they were enumerated, `None` where
    /// the directory could not be enumerated at all.
    pub children: Option<Vec<ChildReading>>,
}

/// The row that leads up from `cwd`: a directory named `..`, whose path is
/// the parent of `cwd`, or `cwd` itself where it has none.
pub open spec fn parent_link(cwd: Seq<char>, parent_len: Option<u64>) -> ContentView {
    ContentView::Directory(entry_data(parent_or_self(cwd), true, parent_len))
}

/// The row for one child: a placeholder where it could not be read or its
/// path ends in no name, a file or a directory otherwise.
pub open spec fn child_entry(child: ChildReading) -> ContentView {
    match child {
        ChildReading::Unreadable => ContentView::Corrupt,
        ChildReading::Found { path, is_file, byte_len } => {
            if file_name_of(path@).is_none() {
                ContentView::Corrupt
            } else if is_file {
                ContentView::File(entry_data(path@, false, byte_len))
            } else {
                ContentView::Directory(entry_data(path@, false, byte_len))
            }
        },
    }
}

/// The rows below the parent link: one per child, in the order read, or a
/// single placeholder where the directory could not be enumerated.
pub open spec fn child_entries(children: Option<Vec<ChildReading>>) -> Seq<ContentView> {
    match children {
        Some(found) => Seq::new(found@.len(), |i: int| child_entry(found@[i])),
        None => seq![ContentView::Corrupt],
    }
}

/// The listing of `cwd`: the parent link, then the rows of its children.
pub open spec fn listing(cwd: Seq<char>, reading: DirReading) -> Seq<ContentView> {
    seq![parent_link(cwd, reading.parent_len)] + child_entries(reading.children)
}

/// What a sequence of rows holds, as mathematical values.
pub open spec fn rows(content: Seq<Content>) -> Seq<ContentView> {
    Seq::new(content.len(), |i: int| content[i]@)
}

/// The row for one child.
pub fn read_child(child: &ChildReading) -> (r: Content)
    ensures
        r@ == child_entry(*child),
        r@.well_formed(),
{
    match child {
        ChildReading::Unreadable => Content::Corrupt,
        ChildReading::Found { path, is_file, byte_len } => {
            match ContentData::try_new(path.clone(), false, *byte_len) {
                Some(data) => {
                    if *is_file {
                        Content::File(data)
                    } else {
                        Content::Directory(data)
                    }
                },
                None => Content::Corrupt,
            }
        },
    }
}

/// Lists the directory `cwd` from what was read of it.
///
/// The parent link always comes first, also at the filesystem root, where it
/// leads back to `cwd`. The children follow in the order read, each failure
/// as a placeholder in its place; a directory that could not be enumerated
/// gives the parent link and one placeholder.
pub fn get_dir_content(cwd: String, reading: DirReading) -> (files: Vec<Content>)
    ensures
        rows(files@) == listing(cwd@, reading),
        files@.len() >= 1,
        files@[0]@ == parent_link(cwd@, reading.parent_len),
        files@[0]@ is Directory,
        parent_of(cwd@).is_none() ==> files@[0]@->Directory_0.path == cwd@,
        reading.children matches Some(found) ==> files@.len() == found@.len() + 1,
        reading.children.is_none() ==> files@.len() == 2 && files@[1]@ == ContentView::Corrupt,
        forall|i: int| 0 <= i < files@.len() ==> (#[trigger] files@[i])@.well_formed(),
{
    let mut files: Vec<Content> = Vec::new();
    let parent = ContentData::new(parent_dir(cwd.as_str()), true, reading.parent_len);
    files.push(Content::Directory(parent));
    match &reading.children {
        Some(found) => {
            let mut i: usize = 0;
            while i < found.len()
                invariant
                    i <= found@.len(),
                    files@.len() == i + 1,
                    files@[0]@ == parent_link(cwd@, reading.parent_len),
                    forall|j: int| 1 <= j <= i ==> (#[trigger] files@[j])@ == child_entry(found@[j - 1]),
                    forall|j: int| 0 <= j < files@.len() ==> (#[trigger] files@[j])@.well_formed(),
                decreases found@.len() - i,
            {
                let row = read_child(&found[i]);
                files.push(row);
                i = i + 1;
            }
        },
        None => {
            files.push(Content::Corrupt);
        },
    }
    assert(rows(files@) =~= listing(cwd@, reading));
    files
}

/// Every listing starts with the parent link: a directory named `..` that
/// leads to the parent of the listed path, or, at a root, where a path has no
/// parent, back to the path itself.
pub proof fn law_parent_link_leads(cwd: Seq<char>, reading: DirReading)
    ensures
        listing(cwd, reading).len() >= 1,
        listing(cwd, reading)[0] == parent_link(cwd, reading.parent_len),
        listing(cwd, reading)[0] is Directory,
        listing(cwd, reading)[0]->Directory_0.is_parent,
        listing(cwd, reading)[0]->Directory_0.name == ".."@,
        parent_of(cwd) == Some(listing(cwd, reading)[0]->Directory_0.path) || (parent_of(
            cwd,
        ).is_none() && listing(cwd, reading)[0]->Directory_0.path == cwd),
{
}

/// A directory that could not be enumerated is listed as the parent link and
/// one placeholder, and nothing else.
pub proof fn law_unreadable_directory(cwd: Seq<char>, reading: DirReading)
    ensures
        reading.children.is_none() ==> listing(cwd, reading) == seq![
            parent_link(cwd, reading.parent_len),
            ContentView::Corrupt,
        ],
{
    if reading.children.is_none() {
        assert(listing(cwd, reading) =~= seq![
            parent_link(cwd, reading.parent_len),
            ContentView::Corrupt,
        ]);
    }
}

/// A directory that was enumerated is listed with one row per child, each in
/// the place in which the child was read.
pub proof fn law_children_in_order(cwd: Seq<char>, reading: DirReading, i: int)
    ensures
        reading.children matches Some(found) ==> {
            &&& listing(cwd, reading).len() == found@.len() + 1
            &&& 0 <= i < found@.len() ==> listing(cwd, reading)[i + 1] == child_entry(found@[i])
        },
{
}

} // verus!
