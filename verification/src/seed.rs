use vstd::prelude::*;

use crate::application::Application;
use crate::download::FileToDownload;
use crate::paths::{join_of, join_path, parent_of, parent_part};
use crate::unzip::FileToUnzip;

verus! {

/// Where the initial snapshot image comes from: a remote archive, a local
/// archive, or a snapshot file already on disk.
#[derive(Clone, Debug)]
pub enum ImageSeed {
    Url(String),
    Zip(String),
    Image(String),
}

/// The path or address a seed carries.
pub open spec fn seed_payload_view(s: ImageSeed) -> Seq<char> {
    match s {
        ImageSeed::Url(u) => u@,
        ImageSeed::Zip(p) => p@,
        ImageSeed::Image(p) => p@,
    }
}

/// Two seeds of the same kind naming the same place.
pub open spec fn seed_matches(a: ImageSeed, b: ImageSeed) -> bool {
    &&& (a is Url <==> b is Url)
    &&& (a is Zip <==> b is Zip)
    &&& (a is Image <==> b is Image)
    &&& seed_payload_view(a) == seed_payload_view(b)
}

impl ImageSeed {
    pub fn from_url(url: &str) -> (r: ImageSeed)
        ensures
            r is Url && seed_payload_view(r) == url@,
    {
        ImageSeed::Url(url.to_owned())
    }

    pub fn from_zip(path: &str) -> (r: ImageSeed)
        ensures
            r is Zip && seed_payload_view(r) == path@,
    {
        ImageSeed::Zip(path.to_owned())
    }

    pub fn from_image(path: &str) -> (r: ImageSeed)
        ensures
            r is Image && seed_payload_view(r) == path@,
    {
        ImageSeed::Image(path.to_owned())
    }

    pub fn is_image_file(&self) -> (r: bool)
        ensures
            r == (*self is Image),
    {
        match self {
            ImageSeed::Image(_) => true,
            _ => false,
        }
    }

    /// The directory the seed image is staged in: beside an existing
    /// snapshot it is that snapshot's own directory, otherwise a
    /// `seed-image` directory under the workspace.
    pub fn seed_image_directory(&self, application: &Application) -> (r: String)
        requires
            *self matches ImageSeed::Image(p) ==> parent_of(p@) is Some,
        ensures
            match *self {
                ImageSeed::Image(p) => Some(r@) == parent_of(p@),
                _ => r@ == join_of(application.workspace_view(), "seed-image"@),
            },
    {
        match self {
            ImageSeed::Image(image_file) => {
                let parent = parent_part(image_file.as_str());
                match parent {
                    Some(p) => p,
                    None => {
                        proof {
                            assert(false);
                        }
                        String::new()
                    },
                }
            },
            _ => join_path(application.workspace(), "seed-image"),
        }
    }

    /// The directory the adopted image finally lives in: the workspace,
    /// except beside an existing snapshot, where staging and target
    /// collapse to the snapshot's directory.
    pub fn target_image_directory(&self, application: &Application) -> (r: String)
        requires
            *self matches ImageSeed::Image(p) ==> parent_of(p@) is Some,
        ensures
            match *self {
                ImageSeed::Image(p) => Some(r@) == parent_of(p@),
                _ => r@ == application.workspace_view(),
            },
    {
        match self {
            ImageSeed::Image(_) => self.seed_image_directory(application),
            _ => application.workspace().to_owned(),
        }
    }

    /// The fetch a seed asks for: only a remote seed is downloaded, into
    /// `seed-image.zip` under the workspace.
    pub fn file_to_download(&self, application: &Application) -> (r: Option<FileToDownload>)
        ensures
            match *self {
                ImageSeed::Url(u) => r matches Some(f) && f.url_view() == u@
                    && f.directory_view() == application.workspace_view() && f.file_name_view()
                    == "seed-image.zip"@,
                _ => r is None,
            },
    {
        match self {
            ImageSeed::Url(url) => Some(
                FileToDownload::new(url.as_str(), application.workspace(), "seed-image.zip"),
            ),
            _ => None,
        }
    }

    /// The expansion a seed asks for: a fetched or local archive opens into
    /// the staging directory; an existing snapshot needs none.
    pub fn file_to_unzip(&self, application: &Application) -> (r: Option<FileToUnzip>)
        ensures
            match *self {
                ImageSeed::Url(u) => r matches Some(f) && f.archive_view() == join_of(
                    application.workspace_view(),
                    "seed-image.zip"@,
                ) && f.output_view() == join_of(application.workspace_view(), "seed-image"@),
                ImageSeed::Zip(p) => r matches Some(f) && f.archive_view() == p@
                    && f.output_view() == join_of(application.workspace_view(), "seed-image"@),
                ImageSeed::Image(_) => r is None,
            },
    {
        match self {
            ImageSeed::Url(_) => {
                let archive = join_path(application.workspace(), "seed-image.zip");
                let output = self.seed_image_directory(application);
                Some(FileToUnzip::new(archive.as_str(), output.as_str()))
            },
            ImageSeed::Zip(zip_archive) => {
                let output = self.seed_image_directory(application);
                Some(FileToUnzip::new(zip_archive.as_str(), output.as_str()))
            },
            ImageSeed::Image(_) => None,
        }
    }
}

} // verus!
