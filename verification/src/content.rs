//! The rows of a directory listing.

use vstd::prelude::*;
use crate::paths::{file_name, file_name_of};

verus! {

/// Bytes in the unit that sizes are kept in.
pub const BYTES_PER_UNIT: u64 = 1024;

/// What a [`ContentData`] holds, as mathematical values.
pub struct ContentDataView {
    pub is_parent: bool,
    pub path: Seq<char>,
    pub name: Seq<char>,
    pub size: u64,
}

/// What a [`Content`] holds, as mathematical values.
pub enum ContentView {
    File(ContentDataView),
    Directory(ContentDataView),
    Corrupt,
}

/// The size kept for an entry whose metadata lookup gave `byte_len`: whole
/// kilobytes, rounded down, and 0 where the lookup failed.
pub open spec fn stored_size(byte_len: Option<u64>) -> u64 {
    match byte_len {
        Some(n) => (n / BYTES_PER_UNIT) as u64,
        None => 0,
    }
}

/// The data of the entry for `path`: named `..` where it is the link to the
/// parent directory, by the final component of `path` otherwise.
pub open spec fn entry_data(path: Seq<char>, parent: bool, byte_len: Option<u64>)
    -> ContentDataView {
    ContentDataView {
        is_parent: parent,
        path,
        name: if parent { ".."@ } else { file_name_of(path).unwrap() },
        size: stored_size(byte_len),
    }
}

impl ContentDataView {
    /// The naming rule of a listing: an entry is called `..` exactly when it
    /// is the parent link, and by the final component of its path otherwise.
    pub open spec fn well_formed(self) -> bool {
        if self.is_parent {
            self.name == ".."@
        } else {
            file_name_of(self.path) == Some(self.name) && self.name != ".."@
        }
    }
}

impl ContentView {
    /// The naming rule, for the entries that carry data.
    pub open spec fn well_formed(self) -> bool {
        match self {
            ContentView::File(d) => d.well_formed() && !d.is_parent,
            ContentView::Directory(d) => d.well_formed(),
            ContentView::Corrupt => true,
        }
    }

    /// The size shown for the entry.
    pub open spec fn size(self) -> u64 {
        match self {
            ContentView::File(d) => d.size,
            ContentView::Directory(d) => d.size,
            ContentView::Corrupt => 0,
        }
    }

    /// The text shown for the entry.
    pub open spec fn label(self) -> Seq<char> {
        match self {
            ContentView::File(d) => d.name,
            ContentView::Directory(d) => d.name,
            ContentView::Corrupt => "File or directory corrupted."@,
        }
    }
}

/// Path, display name and size of one file or directory.
#[derive(Debug, Clone)]
pub struct ContentData {
    /// Whether this is the link to the parent directory.
    pub is_parent: bool,
    /// The path that the entry stands for.
    pub path: String,
    /// The name under which the entry is shown.
    pub name: String,
    /// The size of the entry, in kilobytes.
    pub size: u64,
}

impl View for ContentData {
    type V = ContentDataView;

    open spec fn view(&self) -> ContentDataView {
        ContentDataView {
            is_parent: self.is_parent,
            path: self.path@,
            name: self.name@,
            size: self.size,
        }
    }
}

impl Default for ContentData {
    /// A placeholder that stands for no entry of any listing.
    fn default() -> (r: ContentData)
        ensures
            r@ == (ContentDataView {
                is_parent: false,
                path: "no path"@,
                name: "unknown"@,
                size: 0,
            }),
    {
        ContentData {
            is_parent: false,
            path: "no path".to_string(),
            name: "unknown".to_string(),
            size: 0,
        }
    }
}

impl ContentData {
    /// The entry for `path`, given the byte length that its metadata lookup
    /// reported (`None` where the lookup failed). A path that is not the
    /// parent link must end in an ordinary name.
    pub fn new(path: String, parent: bool, byte_len: Option<u64>) -> (r: ContentData)
        requires
            parent || file_name_of(path@).is_some(),
        ensures
            r@ == entry_data(path@, parent, byte_len),
            r@.well_formed(),
    {
        let name = if parent {
            "..".to_string()
        } else {
            match file_name(path.as_str()) {
                Some(n) => n,
                None => vstd::pervasive::unreached(),
            }
        };
        let size = match byte_len {
            Some(len) => len / BYTES_PER_UNIT,
            None => 0,
        };
        ContentData { is_parent: parent, path, name, size }
    }

    /// As [`ContentData::new`], for any path: `None` where `path` is not the
    /// parent link and does not end in an ordinary name.
    pub fn try_new(path: String, parent: bool, byte_len: Option<u64>) -> (r: Option<ContentData>)
        ensures
            r.is_some() == (parent || file_name_of(path@).is_some()),
            r matches Some(d) ==> d@ == entry_data(path@, parent, byte_len) && d@.well_formed(),
    {
        if parent || file_name(path.as_str()).is_some() {
            Some(ContentData::new(path, parent, byte_len))
        } else {
            None
        }
    }
}

/// One row of a listing: a file, a directory, or a placeholder for an entry
/// that could not be read.
#[derive(Debug, Clone)]
pub enum Content {
    File(ContentData),
    Directory(ContentData),
    Corrupt,
}

impl View for Content {
    type V = ContentView;

    open spec fn view(&self) -> ContentView {
        match self {
            Content::File(d) => ContentView::File(d@),
            Content::Directory(d) => ContentView::Directory(d@),
            Content::Corrupt => ContentView::Corrupt,
        }
    }
}

impl Content {
    /// The size shown for the row: that of the file or directory, 0 for a
    /// placeholder.
    pub fn size(&self) -> (r: u64)
        ensures
            r == self@.size(),
    {
        match self {
            Content::File(files) => files.size,
            Content::Directory(dirs) => dirs.size,
            Content::Corrupt => 0,
        }
    }

    /// The text shown for the row: the entry's name, or a fixed notice for a
    /// placeholder.
    pub fn label(&self) -> (r: String)
        ensures
            r@ == self@.label(),
    {
        match self {
            Content::File(file_data) => file_data.name.clone(),
            Content::Directory(file_data) => file_data.name.clone(),
            Content::Corrupt => "File or directory corrupted.".to_string(),
        }
    }
}

} // verus!
