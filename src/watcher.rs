//! Which configuration files a folder watcher reacts to.

use vstd::prelude::*;
use crate::state::opt_text;
use crate::text::str_eq;

verus! {

/// The parent of a path as `std::path::Path` computes it.
pub uninterp spec fn path_parent(path: Seq<char>) -> Option<Seq<char>>;

/// Relies on `std::path::Path::parent`: the path without its last component,
/// `None` for a root or an empty path.
#[verifier::external_body]
fn parent_of(path: &str) -> (r: Option<String>)
    ensures
        opt_text(r) == path_parent(path@),
{
    std::path::Path::new(path).parent().map(|p| p.to_string_lossy().into_owned())
}

/// The last component of a path as `std::path::Path` computes it.
pub uninterp spec fn path_file_name(path: Seq<char>) -> Option<Seq<char>>;

/// Relies on `std::path::Path::file_name`: the final component of the
/// path, `None` when the path ends in `..`, is a root, or is empty.
#[verifier::external_body]
fn file_name_of(path: &str) -> (r: Option<String>)
    ensures
        opt_text(r) == path_file_name(path@),
{
    std::path::Path::new(path).file_name().map(|f| f.to_string_lossy().into_owned())
}

/// A folder and the names of the files in it whose changes matter.
pub struct FolderWatcher {
    path: String,
    files: Vec<String>,
}

/// The folder watched for a path: the path itself, or, for a file, its
/// parent (the path itself when it has none).
pub open spec fn watched_folder(path: Seq<char>, is_file: bool) -> Seq<char> {
    if is_file && path_parent(path) is Some {
        path_parent(path).unwrap()
    } else {
        path
    }
}

impl FolderWatcher {
    /// The watched folder.
    pub closed spec fn folder(&self) -> Seq<char> {
        self.path@
    }

    /// The names of the watched files.
    pub closed spec fn file_names(&self) -> Seq<Seq<char>> {
        self.files@.map_values(|s: String| s@)
    }

    /// Watches `files` in the folder `path`; `is_file` tells that `path`
    /// names a file, whose folder is then watched instead.
    pub fn from_folder(path: &str, is_file: bool, files: Vec<String>) -> (r: FolderWatcher)
        ensures
            r.folder() == watched_folder(path@, is_file),
            r.file_names() == files@.map_values(|s: String| s@),
    {
        let folder = if is_file {
            match parent_of(path) {
                Some(p) => p,
                None => path.to_owned(),
            }
        } else {
            path.to_owned()
        };
        FolderWatcher { path: folder, files }
    }

    /// Watches one file, given by its path; `is_file` tells that the path
    /// names a file, whose folder is then watched. `None` when the path has
    /// no file name.
    pub fn from_file(path: &str, is_file: bool) -> (r: Option<FolderWatcher>)
        ensures
            r is Some == (path_file_name(path@) is Some),
            r matches Some(w) ==> w.folder() == watched_folder(path@, is_file) && w.file_names() == seq![
                path_file_name(path@).unwrap(),
            ],
    {
        let name = match file_name_of(path) {
            Some(n) => n,
            None => return None,
        };
        let mut files: Vec<String> = Vec::new();
        files.push(name);
        let r = FolderWatcher::from_folder(path, is_file, files);
        assert(r.file_names() =~= seq![path_file_name(path@).unwrap()]);
        Some(r)
    }

    /// The watched folder.
    pub fn path(&self) -> (r: &str)
        ensures
            r@ == self.folder(),
    {
        self.path.as_str()
    }

    /// Whether a change to the file named `file` in the folder matters.
    pub fn watches(&self, file: &str) -> (r: bool)
        ensures
            r == self.file_names().contains(file@),
    {
        let mut i: usize = 0;
        while i < self.files.len()
            invariant
                i <= self.files@.len(),
                forall|k: int| 0 <= k < i ==> self.files@[k]@ != file@,
            decreases self.files.len() - i,
        {
            if str_eq(self.files[i].as_str(), file) {
                assert(self.file_names()[i as int] == file@);
                return true;
            }
            i += 1;
        }
        assert(!self.file_names().contains(file@));
        false
    }
}

} // verus!
