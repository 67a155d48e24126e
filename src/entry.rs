//! One row of a listing and how it is derived from an entry's raw metadata.

use vstd::prelude::*;
use vstd::string::*;
use crate::clock::{format_utc_stamp, utc_stamp};
use crate::permissions::{get_formatted_permissions, permission_text};
use crate::size::{get_human_readable_size, size_text};

verus! {

/// The kind of a directory entry.
#[derive(Clone, Copy, Debug, PartialEq, Eq, Structural)]
pub enum FileType {
    Dir,
    File,
    SymLink,
}

impl FileType {
    /// The first character of the permission column.
    pub open spec fn glyph(self) -> char {
        match self {
            FileType::Dir => 'd',
            FileType::SymLink => 'l',
            FileType::File => '-',
        }
    }

    /// The text of the type column.
    pub open spec fn label(self) -> Seq<char> {
        match self {
            FileType::Dir => seq!['D', 'i', 'r'],
            FileType::File => seq!['F', 'i', 'l', 'e'],
            FileType::SymLink => seq!['S', 'y', 'm', 'L', 'i', 'n', 'k'],
        }
    }

    pub fn glyph_str(&self) -> (r: &'static str)
        ensures
            r@ == seq![self.glyph()],
    {
        match self {
            FileType::Dir => {
                proof { reveal_strlit("d"); }
                "d"
            },
            FileType::SymLink => {
                proof { reveal_strlit("l"); }
                "l"
            },
            FileType::File => {
                proof { reveal_strlit("-"); }
                "-"
            },
        }
    }

    /// The type column: `Dir`, `File` or `SymLink`.
    pub fn to_string(&self) -> (r: String)
        ensures
            r@ == self.label(),
    {
        match self {
            FileType::Dir => {
                proof { reveal_strlit("Dir"); }
                String::from_str("Dir")
            },
            FileType::File => {
                proof { reveal_strlit("File"); }
                String::from_str("File")
            },
            FileType::SymLink => {
                proof { reveal_strlit("SymLink"); }
                String::from_str("SymLink")
            },
        }
    }
}

/// The type of an entry: a directory first, then a symbolic link, else a file.
pub open spec fn kind_of(is_dir: bool, is_symlink: bool) -> FileType {
    if is_dir {
        FileType::Dir
    } else if is_symlink {
        FileType::SymLink
    } else {
        FileType::File
    }
}

pub fn classify(is_dir: bool, is_symlink: bool) -> (r: FileType)
    ensures
        r == kind_of(is_dir, is_symlink),
{
    if is_dir {
        FileType::Dir
    } else if is_symlink {
        FileType::SymLink
    } else {
        FileType::File
    }
}

/// What the filesystem reports of one entry, as plain values.
pub struct Metadata {
    /// The entry's base name.
    pub name: String,
    pub is_dir: bool,
    /// Whether the entry itself is a symbolic link (the link is not followed).
    pub is_symlink: bool,
    /// The size in bytes that the metadata reports.
    pub len: u64,
    /// The Unix mode bits.
    pub mode: u32,
    /// Last modification, in whole seconds since the Unix epoch (floored).
    pub modified_secs: i64,
}

/// One row of a listing.
pub struct FileEntry {
    pub name: String,
    pub file_type: FileType,
    pub size: String,
    pub modified_at: String,
    pub permissions: String,
}

/// A row as plain values.
pub struct EntryView {
    pub name: Seq<char>,
    pub file_type: FileType,
    pub size: Seq<char>,
    pub modified_at: Seq<char>,
    pub permissions: Seq<char>,
}

impl View for FileEntry {
    type V = EntryView;

    open spec fn view(&self) -> EntryView {
        EntryView {
            name: self.name@,
            file_type: self.file_type,
            size: self.size@,
            modified_at: self.modified_at@,
            permissions: self.permissions@,
        }
    }
}

/// The row shown for an entry with metadata `m` whose modification stamp reads `stamp`.
pub open spec fn row_of(m: Metadata, stamp: Seq<char>) -> EntryView {
    EntryView {
        name: m.name@,
        file_type: kind_of(m.is_dir, m.is_symlink),
        size: size_text(m.len as nat),
        modified_at: stamp,
        permissions: permission_text(m.mode, kind_of(m.is_dir, m.is_symlink)),
    }
}

impl FileEntry {
    /// A copy of the row with the same field values.
    pub fn duplicate(&self) -> (r: FileEntry)
        ensures
            r@ == self@,
    {
        FileEntry {
            name: self.name.clone(),
            file_type: self.file_type,
            size: self.size.clone(),
            modified_at: self.modified_at.clone(),
            permissions: self.permissions.clone(),
        }
    }

    /// The row for metadata `m`, given the text of its modification stamp.
    pub fn from_parts(m: Metadata, stamp: String) -> (r: FileEntry)
        ensures
            r@ == row_of(m, stamp@),
    {
        let file_type = classify(m.is_dir, m.is_symlink);
        let size = get_human_readable_size(m.len);
        let permissions = get_formatted_permissions(m.mode, &file_type);
        FileEntry { name: m.name, file_type, size, modified_at: stamp, permissions }
    }

    /// The row for metadata `m`, with its stamp formatted in UTC; `None` where the
    /// modification time cannot be shown, in which case the entry is left out.
    pub fn from_metadata(m: Metadata) -> (r: Option<FileEntry>)
        ensures
            match utc_stamp(m.modified_secs as int) {
                Some(stamp) => r is Some && r->0@ == row_of(m, stamp),
                None => r is None,
            },
    {
        match format_utc_stamp(m.modified_secs) {
            Some(stamp) => Some(FileEntry::from_parts(m, stamp)),
            None => None,
        }
    }
}

} // verus!
