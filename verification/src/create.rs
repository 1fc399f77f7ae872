use vstd::prelude::*;

verus! {

/// One text file to write: its destination and its whole content.
#[derive(Clone, Debug)]
pub struct FileToCreate {
    destination: String,
    content: String,
}

impl FileToCreate {
    pub closed spec fn destination_view(&self) -> Seq<char> {
        self.destination@
    }

    pub closed spec fn content_view(&self) -> Seq<char> {
        self.content@
    }

    pub fn new(path: &str, content: &str) -> (r: FileToCreate)
        ensures
            r.destination_view() == path@,
            r.content_view() == content@,
    {
        FileToCreate { destination: path.to_owned(), content: content.to_owned() }
    }

    pub fn path(&self) -> (r: &str)
        ensures
            r@ == self.destination_view(),
    {
        self.destination.as_str()
    }

    pub fn content(&self) -> (r: &str)
        ensures
            r@ == self.content_view(),
    {
        self.content.as_str()
    }
}

} // verus!
