use vstd::prelude::*;

use crate::paths::{join_of, join_path};
use crate::strutil::{has_prefix, str_starts_with, substring_copy};

verus! {

/// One directory tree to copy, entry by entry, into a destination.
#[derive(Clone, Debug)]
pub struct FolderToMove {
    folder: String,
    destination: String,
}

impl FolderToMove {
    pub closed spec fn folder_view(&self) -> Seq<char> {
        self.folder@
    }

    pub closed spec fn destination_view(&self) -> Seq<char> {
        self.destination@
    }

    pub fn new(folder: &str, destination: &str) -> (r: FolderToMove)
        ensures
            r.folder_view() == folder@,
            r.destination_view() == destination@,
    {
        FolderToMove { folder: folder.to_owned(), destination: destination.to_owned() }
    }

    pub fn folder(&self) -> (r: &str)
        ensures
            r@ == self.folder_view(),
    {
        self.folder.as_str()
    }

    pub fn destination(&self) -> (r: &str)
        ensures
            r@ == self.destination_view(),
    {
        self.destination.as_str()
    }

    /// Where a path under the source tree lands in the destination: the
    /// destination joined with the path's part below the source root; the
    /// source root itself lands at the destination.
    pub fn destination_for(&self, path: &str) -> (r: Option<String>)
        ensures
            match r {
                Some(d) => {
                    &&& has_prefix(path@, self.folder_view())
                    &&& (path@.len() == self.folder_view().len() ==> d@
                        == self.destination_view())
                    &&& (path@.len() > self.folder_view().len() + 1 ==> d@ == join_of(
                        self.destination_view(),
                        path@.subrange(self.folder_view().len() as int + 1, path@.len() as int),
                    ))
                },
                None => !has_prefix(path@, self.folder_view()),
            },
    {
        if !str_starts_with(path, self.folder.as_str()) {
            return None;
        }
        let root_len = self.folder.as_str().unicode_len();
        let n = path.unicode_len();
        if n == root_len {
            return Some(self.destination.clone());
        }
        if n > root_len + 1 {
            let relative = substring_copy(path, root_len + 1, n);
            Some(join_path(self.destination.as_str(), relative.as_str()))
        } else {
            Some(self.destination.clone())
        }
    }
}

} // verus!
