use vstd::prelude::*;

use crate::encoding::{decoded_text, FilenameEncoding};
use crate::error::Error;

verus! {

/// What an entry becomes on disk.
#[derive(Clone, Copy, Debug, PartialEq, Eq, Structural)]
pub enum EntryKind {
    Directory,
    File,
}

/// An entry as its reader presents it: the stored name, not yet decoded,
/// and whether the archive flags it as a directory.
pub struct EntryHeader {
    pub raw_name: Vec<u8>,
    pub dir_flag: bool,
}

/// Where an accepted entry goes, relative to the destination root, and
/// whether it is created as a directory or written as a file.
pub struct EntryPlan {
    pub path: String,
    pub kind: EntryKind,
}

/// A stored name that ends with `/` names a directory.
pub open spec fn names_directory(raw: Seq<u8>) -> bool {
    raw.len() > 0 && raw.last() == 0x2fu8
}

pub open spec fn kind_of(raw: Seq<u8>, dir_flag: bool) -> EntryKind {
    if dir_flag || names_directory(raw) {
        EntryKind::Directory
    } else {
        EntryKind::File
    }
}

/// A `..` segment starts at position `i` of `name`.
pub open spec fn parent_step_at(name: Seq<char>, i: int) -> bool {
    &&& 0 <= i
    &&& i + 1 < name.len()
    &&& name[i] == '.'
    &&& name[i + 1] == '.'
    &&& (i == 0 || name[i - 1] == '/')
    &&& (i + 2 == name.len() || name[i + 2] == '/')
}

/// A relative name without `..` segments cannot leave the directory it is
/// joined to.
pub open spec fn stays_inside(name: Seq<char>) -> bool {
    &&& !(name.len() > 0 && name[0] == '/')
    &&& forall|i: int| !#[trigger] parent_step_at(name, i)
}

/// Tells whether a decoded name stays inside the destination root.
pub fn stays_inside_root(name: &str) -> (r: bool)
    ensures
        r == stays_inside(name@),
{
    let n = name.unicode_len();
    if n > 0 && name.get_char(0) == '/' {
        return false;
    }
    let mut i: usize = 0;
    while i < n
        invariant
            n == name@.len(),
            i <= n,
            forall|j: int| 0 <= j < i ==> !#[trigger] parent_step_at(name@, j),
        decreases n - i,
    {
        if i + 1 < n && name.get_char(i) == '.' && name.get_char(i + 1) == '.'
            && (i == 0 || name.get_char(i - 1) == '/')
            && (i + 2 == n || name.get_char(i + 2) == '/') {
            assert(parent_step_at(name@, i as int));
            return false;
        }
        i = i + 1;
    }
    assert forall|j: int| !#[trigger] parent_step_at(name@, j) by {
        if 0 <= j && j < i {
        }
    }
    true
}

/// Tells whether a stored name ends with `/`.
pub fn is_directory_name(raw: &[u8]) -> (r: bool)
    ensures
        r == names_directory(raw@),
{
    raw.len() > 0 && raw[raw.len() - 1] == 0x2fu8
}

/// The plan for one entry: its name decoded under `label`, refused where
/// it does not decode or would leave the destination root.
pub open spec fn plan_outcome(label: Seq<u8>, raw: Seq<u8>, dir_flag: bool) -> Option<(Seq<char>, EntryKind)> {
    match decoded_text(label, raw) {
        Some(name) => if stays_inside(name) {
            Some((name, kind_of(raw, dir_flag)))
        } else {
            None
        },
        None => None,
    }
}

/// Decodes an entry's name and decides what it becomes on disk.
pub fn plan_entry(encoding: &FilenameEncoding, header: &EntryHeader) -> (r: Result<EntryPlan, Error>)
    ensures
        match r {
            Ok(p) => plan_outcome(encoding.label_view(), header.raw_name@, header.dir_flag)
                == Some((p.path@, p.kind)),
            Err(e) => plan_outcome(encoding.label_view(), header.raw_name@, header.dir_flag) is None
                && (if decoded_text(encoding.label_view(), header.raw_name@) is None {
                    e is EncodingError
                } else {
                    e is UnsafePath
                }),
        },
{
    let name = match encoding.decode(header.raw_name.as_slice()) {
        Ok(n) => n,
        Err(e) => return Err(e),
    };
    if !stays_inside_root(name.as_str()) {
        return Err(Error::UnsafePath);
    }
    let kind = if header.dir_flag || is_directory_name(header.raw_name.as_slice()) {
        EntryKind::Directory
    } else {
        EntryKind::File
    };
    Ok(EntryPlan { path: name, kind })
}

} // verus!
