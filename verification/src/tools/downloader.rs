use vstd::prelude::*;

use crate::application::Application;
use crate::download::{FileToDownload, FilesToDownload};
use crate::paths::join_of;
use crate::platform::{app_url_of, triple_of, PlatformOS};
use crate::unzip::{FileToUnzip, FilesToUnzip};
use crate::version::version_text_of;

verus! {

/// Fetches and unpacks the application for a platform.
pub struct Downloader {
    silent: bool,
}

/// The file name the fetched application archive is stored under:
/// `GlamorousToolkitApp`, the target triple when it is not the host's own,
/// the version, and the platform's archive extension.
pub open spec fn vm_file_name_of(application: &Application, target: PlatformOS) -> Seq<char> {
    let suffix = if application.host_spec() != target {
        seq!['-'] + triple_of(target)
    } else {
        Seq::<char>::empty()
    };
    let extension = if target == PlatformOS::AndroidAarch64 {
        "apk"@
    } else {
        "zip"@
    };
    "GlamorousToolkitApp"@ + suffix + "-v"@ + version_text_of(application.app_version_spec())
        + seq!['.'] + extension
}

/// Where the application for a platform lives under the workspace.
pub open spec fn app_location_of(application: &Application, target: PlatformOS) -> Seq<char> {
    if target == application.host_spec() {
        application.workspace_view()
    } else {
        join_of(application.workspace_view(), triple_of(target))
    }
}

impl Downloader {
    pub closed spec fn silent_spec(&self) -> bool {
        self.silent
    }

    pub fn new() -> (r: Downloader)
        ensures
            r.silent_spec() == false,
    {
        Downloader { silent: false }
    }

    pub fn be_silent(self) -> (r: Downloader)
        ensures
            r.silent_spec() == true,
    {
        Downloader { silent: true }
    }

    pub fn is_silent(&self) -> (r: bool)
        ensures
            r == self.silent_spec(),
    {
        self.silent
    }

    /// The one fetch that brings the application for a platform in.
    pub fn gtoolkit_vm_to_download(application: &Application, target: PlatformOS) -> (r:
        FileToDownload)
        ensures
            r.url_view() == app_url_of(target, version_text_of(application.app_version_spec())),
            r.directory_view() == app_location_of(application, target),
            r.file_name_view() == vm_file_name_of(application, target),
    {
        let mut file_name = "GlamorousToolkitApp".to_owned();
        if application.host_platform() != target {
            file_name.append("-");
            file_name.append(target.as_str());
        }
        file_name.append("-v");
        let version = application.app_version().to_text();
        file_name.append(version.as_str());
        file_name.append(".");
        if target.is_android() {
            file_name.append("apk");
        } else {
            file_name.append("zip");
        }
        proof {
            reveal_strlit("-");
            reveal_strlit(".");
            assert("-"@ =~= seq!['-']);
            assert("."@ =~= seq!['.']);
            assert(file_name@ =~= vm_file_name_of(application, target));
        }
        let url = application.gtoolkit_app_url_for_target(target);
        let location = application.gtoolkit_app_location(target);
        FileToDownload::new(url.as_str(), location.as_str(), file_name.as_str())
    }

    /// The fetches an installation needs: none when an explicit binary
    /// overrides the downloaded application, the one application archive
    /// otherwise.
    pub fn files_to_download(application: &Application, target: PlatformOS) -> (r: FilesToDownload)
        ensures
            application.app_cli_binary_view() is Some ==> r.files_view().len() == 0,
            application.app_cli_binary_view() is None ==> r.files_view().len() == 1 && ({
                let f = r.files_view()[0];
                f.url_view() == app_url_of(target, version_text_of(application.app_version_spec()))
                    && f.directory_view() == app_location_of(application, target)
                    && f.file_name_view() == vm_file_name_of(application, target)
            }),
    {
        let files_to_download = FilesToDownload::new();
        if application.has_explicit_app_cli_binary() {
            files_to_download
        } else {
            files_to_download.add(Self::gtoolkit_vm_to_download(application, target))
        }
    }

    /// The expansions an installation needs: none when an explicit binary
    /// overrides the downloaded application, the fetched archive into the
    /// application's location otherwise.
    pub fn files_to_unzip(application: &Application, target: PlatformOS) -> (r: FilesToUnzip)
        ensures
            application.app_cli_binary_view() is Some ==> r.files_view().len() == 0,
            application.app_cli_binary_view() is None ==> r.files_view().len() == 1 && ({
                let f = r.files_view()[0];
                f.archive_view() == join_of(
                    app_location_of(application, target),
                    vm_file_name_of(application, target),
                ) && f.output_view() == app_location_of(application, target)
            }),
    {
        let files_to_unzip = FilesToUnzip::new();
        if application.has_explicit_app_cli_binary() {
            files_to_unzip
        } else {
            let gtoolkit_vm = Self::gtoolkit_vm_to_download(application, target);
            let archive = gtoolkit_vm.path();
            let location = application.gtoolkit_app_location(target);
            files_to_unzip.add(FileToUnzip::new(archive.as_str(), location.as_str()))
        }
    }
}

} // verus!
