use vstd::prelude::*;

use crate::paths::{join_of, join_path};

verus! {

/// One known file to move to a destination by copying and deleting.
#[derive(Clone, Debug)]
pub struct FileToMove {
    file: String,
    destination: String,
}

impl FileToMove {
    pub closed spec fn file_view(&self) -> Seq<char> {
        self.file@
    }

    pub closed spec fn destination_view(&self) -> Seq<char> {
        self.destination@
    }

    pub fn new(file: &str, destination: &str) -> (r: FileToMove)
        ensures
            r.file_view() == file@,
            r.destination_view() == destination@,
    {
        FileToMove { file: file.to_owned(), destination: destination.to_owned() }
    }

    pub fn file(&self) -> (r: &str)
        ensures
            r@ == self.file_view(),
    {
        self.file.as_str()
    }

    pub fn destination(&self) -> (r: &str)
        ensures
            r@ == self.destination_view(),
    {
        self.destination.as_str()
    }

    /// Where the file comes to rest: inside the destination under its own
    /// name when the destination is a directory, at the destination itself
    /// otherwise.
    pub fn destination_path(&self, destination_is_dir: bool, file_name: &str) -> (r: String)
        ensures
            destination_is_dir ==> r@ == join_of(self.destination_view(), file_name@),
            !destination_is_dir ==> r@ == self.destination_view(),
    {
        if destination_is_dir {
            join_path(self.destination.as_str(), file_name)
        } else {
            self.destination.clone()
        }
    }
}

} // verus!
