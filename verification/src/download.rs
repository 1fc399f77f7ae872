use vstd::prelude::*;

use crate::error::InstallerError;
use crate::paths::{join_of, join_path};

verus! {

/// One remote artifact to fetch: its address, the directory it lands in,
/// and the file name it is stored under.
#[derive(Clone, Debug)]
pub struct FileToDownload {
    url: String,
    directory: String,
    file_name: String,
}

impl FileToDownload {
    pub fn new(url: &str, directory: &str, file_name: &str) -> (r: FileToDownload)
        ensures
            r.url_view() == url@,
            r.directory_view() == directory@,
            r.file_name_view() == file_name@,
    {
        FileToDownload {
            url: url.to_owned(),
            directory: directory.to_owned(),
            file_name: file_name.to_owned(),
        }
    }

    pub closed spec fn url_view(&self) -> Seq<char> {
        self.url@
    }

    pub closed spec fn directory_view(&self) -> Seq<char> {
        self.directory@
    }

    pub closed spec fn file_name_view(&self) -> Seq<char> {
        self.file_name@
    }

    pub fn url(&self) -> (r: &str)
        ensures
            r@ == self.url_view(),
    {
        self.url.as_str()
    }

    pub fn file_name(&self) -> (r: &str)
        ensures
            r@ == self.file_name_view(),
    {
        self.file_name.as_str()
    }

    pub fn directory(&self) -> (r: &str)
        ensures
            r@ == self.directory_view(),
    {
        self.directory.as_str()
    }

    /// Where the fetched artifact lies once stored.
    pub fn path(&self) -> (r: String)
        ensures
            r@ == join_of(self.directory_view(), self.file_name_view()),
    {
        join_path(self.directory.as_str(), self.file_name.as_str())
    }
}

/// The set of artifacts one fetch stage brings in.
#[derive(Clone, Debug)]
pub struct FilesToDownload {
    files: Vec<FileToDownload>,
}

impl FilesToDownload {
    pub closed spec fn files_view(&self) -> Seq<FileToDownload> {
        self.files@
    }

    pub fn new() -> (r: FilesToDownload)
        ensures
            r.files_view() == Seq::<FileToDownload>::empty(),
    {
        FilesToDownload { files: Vec::new() }
    }

    pub fn add(self, file_to_download: FileToDownload) -> (r: FilesToDownload)
        ensures
            r.files_view() == self.files_view().push(file_to_download),
    {
        let mut files = self.files;
        files.push(file_to_download);
        FilesToDownload { files }
    }

    pub fn maybe_add(self, file_to_download: Option<FileToDownload>) -> (r: FilesToDownload)
        ensures
            match file_to_download {
                Some(f) => r.files_view() == self.files_view().push(f),
                None => r.files_view() == self.files_view(),
            },
    {
        match file_to_download {
            Some(f) => self.add(f),
            None => self,
        }
    }

    pub fn extend(self, files_to_download: FilesToDownload) -> (r: FilesToDownload)
        ensures
            r.files_view() == self.files_view() + files_to_download.files_view(),
    {
        let mut files = self.files;
        let mut more = files_to_download.files;
        files.append(&mut more);
        FilesToDownload { files }
    }

    pub fn len(&self) -> (r: usize)
        ensures
            r == self.files_view().len(),
    {
        self.files.len()
    }

    pub fn get(&self, i: usize) -> (r: &FileToDownload)
        requires
            i < self.files_view().len(),
        ensures
            *r == self.files_view()[i as int],
    {
        &self.files[i]
    }
}

/// What the probe for an artifact's size decided: a failing probe fails the
/// task at once, naming the address and the status; a successful one hands
/// the announced length on.
pub fn check_probe(url: &str, status: u16, success: bool) -> (r: Result<(), InstallerError>)
    ensures
        match r {
            Ok(()) => success,
            Err(e) => !success && (e matches InstallerError::DownloadFailed(u, s) && u@ == url@
                && s == status),
        },
{
    if success {
        Ok(())
    } else {
        Err(InstallerError::DownloadFailed(url.to_owned(), status))
    }
}

} // verus!
