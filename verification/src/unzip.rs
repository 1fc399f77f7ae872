use vstd::prelude::*;

use crate::paths::{join_of, join_path};
use crate::strutil::{
    contains_seq, has_prefix, has_suffix, str_contains_str, str_ends_with, str_eq, str_starts_with,
};

verus! {

/// One archive to expand: where it lies and where its entries go.
#[derive(Clone, Debug)]
pub struct FileToUnzip {
    archive: String,
    output: String,
}

impl FileToUnzip {
    pub fn new(archive: &str, output: &str) -> (r: FileToUnzip)
        ensures
            r.archive_view() == archive@,
            r.output_view() == output@,
    {
        FileToUnzip { archive: archive.to_owned(), output: output.to_owned() }
    }

    pub closed spec fn archive_view(&self) -> Seq<char> {
        self.archive@
    }

    pub closed spec fn output_view(&self) -> Seq<char> {
        self.output@
    }

    pub fn archive(&self) -> (r: &str)
        ensures
            r@ == self.archive_view(),
    {
        self.archive.as_str()
    }

    pub fn output(&self) -> (r: &str)
        ensures
            r@ == self.output_view(),
    {
        self.output.as_str()
    }
}

/// The set of archives one expansion stage opens.
#[derive(Clone, Debug)]
pub struct FilesToUnzip {
    files: Vec<FileToUnzip>,
}

impl FilesToUnzip {
    pub closed spec fn files_view(&self) -> Seq<FileToUnzip> {
        self.files@
    }

    pub fn new() -> (r: FilesToUnzip)
        ensures
            r.files_view() == Seq::<FileToUnzip>::empty(),
    {
        FilesToUnzip { files: Vec::new() }
    }

    pub fn add(self, file_to_unzip: FileToUnzip) -> (r: FilesToUnzip)
        ensures
            r.files_view() == self.files_view().push(file_to_unzip),
    {
        let mut files = self.files;
        files.push(file_to_unzip);
        FilesToUnzip { files }
    }

    pub fn maybe_add(self, file_to_unzip: Option<FileToUnzip>) -> (r: FilesToUnzip)
        ensures
            match file_to_unzip {
                Some(f) => r.files_view() == self.files_view().push(f),
                None => r.files_view() == self.files_view(),
            },
    {
        match file_to_unzip {
            Some(f) => self.add(f),
            None => self,
        }
    }

    pub fn extend(self, files_to_unzip: FilesToUnzip) -> (r: FilesToUnzip)
        ensures
            r.files_view() == self.files_view() + files_to_unzip.files_view(),
    {
        let mut files = self.files;
        let mut more = files_to_unzip.files;
        files.append(&mut more);
        FilesToUnzip { files }
    }

    pub fn len(&self) -> (r: usize)
        ensures
            r == self.files_view().len(),
    {
        self.files.len()
    }

    pub fn get(&self, i: usize) -> (r: &FileToUnzip)
        requires
            i < self.files_view().len(),
        ensures
            *r == self.files_view()[i as int],
    {
        &self.files[i]
    }
}

/// An archive entry name that stays within the directory it is expanded
/// into: relative, and free of any `..` step.
pub open spec fn safe_entry_name(name: Seq<char>) -> bool {
    &&& name.len() > 0
    &&& name[0] != '/'
    &&& name != ".."@
    &&& !has_prefix(name, "../"@)
    &&& !has_suffix(name, "/.."@)
    &&& !contains_seq(name, "/../"@)
}

/// Where an archive entry is written, or nothing when its encoded name
/// cannot be kept inside the output directory and the entry is skipped.
pub fn entry_output_path(output: &str, name: &str) -> (r: Option<String>)
    ensures
        match r {
            Some(p) => safe_entry_name(name@) && p@ == join_of(output@, name@),
            None => !safe_entry_name(name@),
        },
{
    let n = name.unicode_len();
    if n == 0 {
        return None;
    }
    if name.get_char(0) == '/' {
        return None;
    }
    if str_eq(name, "..") {
        return None;
    }
    if str_starts_with(name, "../") {
        return None;
    }
    if str_ends_with(name, "/..") {
        return None;
    }
    if str_contains_str(name, "/../") {
        return None;
    }
    Some(join_path(output, name))
}

/// Whether the entry names a directory rather than a file.
pub fn entry_is_directory(name: &str) -> (r: bool)
    ensures
        r == has_suffix(name@, "/"@),
{
    str_ends_with(name, "/")
}

} // verus!
