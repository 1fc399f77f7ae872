use vstd::prelude::*;

use crate::error::InstallerError;
use crate::matching::EntryNamed;
use crate::paths::{
    extension_of_path, extension_part, join_of, join_path, parent_of, parent_part, stem_of_path,
    stem_part,
};
use crate::platform::{
    app_binary_relative, app_binary_relative_of, app_cli_relative, app_cli_relative_of,
    app_entries_for, app_url_of, is_linux, is_mac, is_windows, pharo_executable_for,
    pharo_vm_url_for, triple_of, PlatformOS,
};
use crate::seed::{seed_matches, ImageSeed};
use crate::version::{version_text_of, AppVersion, ImageVersion, Version};

verus! {

/// The default logical name of the primary snapshot file.
pub const DEFAULT_IMAGE_NAME: &'static str = "GlamorousToolkit";

/// The default extension of the primary snapshot file.
pub const DEFAULT_IMAGE_EXTENSION: &'static str = "image";

/// The address of the default seed image a fresh workspace builds on.
pub const DEFAULT_PHARO_IMAGE: &'static str =
    "https://dl.feenk.com/pharo/Pharo10-SNAPSHOT.build.521.sha.14f5413.arch.64bit.zip";

/// The authoritative, persisted record of one workspace: what is installed
/// where, in which versions, and from which seed.
#[derive(Clone, Debug)]
pub struct Application {
    verbose: bool,
    workspace: String,
    app_version: AppVersion,
    app_cli_binary: Option<String>,
    image_version: ImageVersion,
    image_name: String,
    image_extension: String,
    image_seed: ImageSeed,
    host: PlatformOS,
}

impl Application {
    pub closed spec fn verbose_spec(&self) -> bool {
        self.verbose
    }

    pub closed spec fn workspace_view(&self) -> Seq<char> {
        self.workspace@
    }

    pub closed spec fn app_version_spec(&self) -> Version {
        self.app_version.version()
    }

    pub closed spec fn app_cli_binary_view(&self) -> Option<Seq<char>> {
        match self.app_cli_binary {
            Some(p) => Some(p@),
            None => None,
        }
    }

    pub closed spec fn image_version_spec(&self) -> Version {
        self.image_version.version()
    }

    pub closed spec fn image_name_view(&self) -> Seq<char> {
        self.image_name@
    }

    pub closed spec fn image_extension_view(&self) -> Seq<char> {
        self.image_extension@
    }

    pub closed spec fn image_seed_spec(&self) -> ImageSeed {
        self.image_seed
    }

    pub closed spec fn host_spec(&self) -> PlatformOS {
        self.host
    }

    /// A fresh record for a workspace: not verbose, the default image name
    /// and extension, no overriding binary.
    pub fn new(
        workspace: &str,
        app_version: AppVersion,
        image_version: ImageVersion,
        image_seed: ImageSeed,
        host: PlatformOS,
    ) -> (r: Application)
        ensures
            r.verbose_spec() == false,
            r.workspace_view() == workspace@,
            r.app_version_spec() == app_version.version(),
            r.app_cli_binary_view() is None,
            r.image_version_spec() == image_version.version(),
            r.image_name_view() == DEFAULT_IMAGE_NAME@,
            r.image_extension_view() == DEFAULT_IMAGE_EXTENSION@,
            seed_matches(r.image_seed_spec(), image_seed),
            r.host_spec() == host,
    {
        Application {
            verbose: false,
            workspace: workspace.to_owned(),
            app_version,
            app_cli_binary: None,
            image_version,
            image_name: DEFAULT_IMAGE_NAME.to_owned(),
            image_extension: DEFAULT_IMAGE_EXTENSION.to_owned(),
            image_seed,
            host,
        }
    }

    /// A record with every field given, as read back from a state file.
    pub(crate) fn assemble(
        verbose: bool,
        workspace: String,
        app_version: AppVersion,
        app_cli_binary: Option<String>,
        image_version: ImageVersion,
        image_name: String,
        image_extension: String,
        image_seed: ImageSeed,
        host: PlatformOS,
    ) -> (r: Application)
        ensures
            r.verbose_spec() == verbose,
            r.workspace_view() == workspace@,
            r.app_version_spec() == app_version.version(),
            r.app_cli_binary_view() == (match app_cli_binary {
                Some(p) => Some(p@),
                None => None::<Seq<char>>,
            }),
            r.image_version_spec() == image_version.version(),
            r.image_name_view() == image_name@,
            r.image_extension_view() == image_extension@,
            seed_matches(r.image_seed_spec(), image_seed),
            r.host_spec() == host,
    {
        Application {
            verbose,
            workspace,
            app_version,
            app_cli_binary,
            image_version,
            image_name,
            image_extension,
            image_seed,
            host,
        }
    }

    /// What the version oracle's answer for the application means: an
    /// absent latest release is its own failure, distinct from transport
    /// errors.
    pub fn vm_version_from_oracle(latest: Option<Version>) -> (r: Result<
        AppVersion,
        InstallerError,
    >)
        ensures
            match r {
                Ok(v) => latest == Some(v.version()),
                Err(e) => latest is None && e is FailedToDetectGlamorousAppVersion,
            },
    {
        match latest {
            Some(v) => Ok(AppVersion::new(v)),
            None => Err(InstallerError::FailedToDetectGlamorousAppVersion),
        }
    }

    /// What the version oracle's answer for the image means.
    pub fn image_version_from_oracle(latest: Option<Version>) -> (r: Result<
        ImageVersion,
        InstallerError,
    >)
        ensures
            match r {
                Ok(v) => latest == Some(v.version()),
                Err(e) => latest is None && e is FailedToDetectGlamorousImageVersion,
            },
    {
        match latest {
            Some(v) => Ok(ImageVersion::new(v)),
            None => Err(InstallerError::FailedToDetectGlamorousImageVersion),
        }
    }

    pub fn is_verbose(&self) -> (r: bool)
        ensures
            r == self.verbose_spec(),
    {
        self.verbose
    }

    pub fn set_verbose(&mut self, verbose: bool)
        ensures
            final(self).verbose_spec() == verbose,
            unchanged_but_verbose(*old(self), *final(self)),
    {
        self.verbose = verbose;
    }

    pub fn workspace(&self) -> (r: &str)
        ensures
            r@ == self.workspace_view(),
    {
        self.workspace.as_str()
    }

    pub fn set_workspace(&mut self, workspace: &str)
        ensures
            final(self).workspace_view() == workspace@,
            unchanged_but_workspace(*old(self), *final(self)),
    {
        self.workspace = workspace.to_owned();
    }

    /// Overrides the command-line binary to run instead of the downloaded
    /// one; the matching application version is set separately, once read
    /// from the binary itself.
    pub fn set_app_cli_binary(&mut self, binary: &str)
        ensures
            final(self).app_cli_binary_view() == Some(binary@),
            unchanged_but_cli_binary(*old(self), *final(self)),
    {
        self.app_cli_binary = Some(binary.to_owned());
    }

    /// The overriding binary, when one was set.
    pub fn app_cli_binary(&self) -> (r: Option<&str>)
        ensures
            match r {
                Some(p) => self.app_cli_binary_view() == Some(p@),
                None => self.app_cli_binary_view() is None,
            },
    {
        match &self.app_cli_binary {
            Some(p) => Some(p.as_str()),
            None => None,
        }
    }

    pub fn has_explicit_app_cli_binary(&self) -> (r: bool)
        ensures
            r == (self.app_cli_binary_view() is Some),
    {
        self.app_cli_binary.is_some()
    }

    /// The name of the image, without its extension.
    pub fn image_name(&self) -> (r: &str)
        ensures
            r@ == self.image_name_view(),
    {
        self.image_name.as_str()
    }

    pub fn image_extension(&self) -> (r: &str)
        ensures
            r@ == self.image_extension_view(),
    {
        self.image_extension.as_str()
    }

    pub fn image_seed(&self) -> (r: &ImageSeed)
        ensures
            *r == self.image_seed_spec(),
    {
        &self.image_seed
    }

    /// Adopts a new seed. For a seed that is an existing snapshot, the
    /// workspace moves to the snapshot's directory and the image name and
    /// extension are re-derived from its file name; a path without a
    /// parent, name or extension is refused, and nothing changes then.
    pub fn set_image_seed(&mut self, seed: ImageSeed) -> (r: Result<(), InstallerError>)
        ensures
            match r {
                Ok(()) => {
                    &&& seed_matches(final(self).image_seed_spec(), seed)
                    &&& match seed {
                        ImageSeed::Image(path) => {
                            &&& parent_of(path@) matches Some(dir) && final(self).workspace_view()
                                == dir
                            &&& final(self).image_name_view() == stem_of_path(path@)
                            &&& stem_of_path(path@).len() > 0
                            &&& extension_of_path(path@) matches Some(ext)
                                && final(self).image_extension_view() == ext
                        },
                        _ => {
                            &&& final(self).workspace_view() == old(self).workspace_view()
                            &&& final(self).image_name_view() == old(self).image_name_view()
                            &&& final(self).image_extension_view()
                                == old(self).image_extension_view()
                        },
                    }
                    &&& final(self).verbose_spec() == old(self).verbose_spec()
                    &&& final(self).app_version_spec() == old(self).app_version_spec()
                    &&& final(self).image_version_spec() == old(self).image_version_spec()
                    &&& final(self).app_cli_binary_view() == old(self).app_cli_binary_view()
                    &&& final(self).host_spec() == old(self).host_spec()
                },
                Err(e) => {
                    &&& *final(self) == *old(self)
                    &&& seed matches ImageSeed::Image(path) && (if parent_of(path@) is None {
                        e matches InstallerError::NoParentDirectory(p) && p@ == path@
                    } else if stem_of_path(path@).len() == 0 {
                        e matches InstallerError::FailedToReadFileName(p) && p@ == path@
                    } else {
                        extension_of_path(path@) is None && (
                        e matches InstallerError::FailedToReadFileExtension(p) && p@ == path@)
                    })
                },
            },
    {
        match &seed {
            ImageSeed::Image(image_file) => {
                let parent = match parent_part(image_file.as_str()) {
                    Some(p) => p,
                    None => {
                        return Err(InstallerError::NoParentDirectory(image_file.clone()));
                    },
                };
                let stem = stem_part(image_file.as_str());
                if stem.as_str().unicode_len() == 0 {
                    return Err(InstallerError::FailedToReadFileName(image_file.clone()));
                }
                let extension = match extension_part(image_file.as_str()) {
                    Some(e) => e,
                    None => {
                        return Err(InstallerError::FailedToReadFileExtension(image_file.clone()));
                    },
                };
                self.workspace = parent;
                self.image_name = stem;
                self.image_extension = extension;
            },
            _ => {},
        }
        self.image_seed = seed;
        Ok(())
    }

    /// The path of the primary snapshot: the image name and extension,
    /// joined under the workspace.
    pub fn image(&self) -> (r: String)
        ensures
            r@ == join_of(
                self.workspace_view(),
                self.image_name_view() + seq!['.'] + self.image_extension_view(),
            ),
    {
        let mut name = self.image_name.clone();
        name.append(".");
        name.append(self.image_extension.as_str());
        proof {
            reveal_strlit(".");
            assert("."@ =~= seq!['.']);
            assert(name@ =~= self.image_name_view() + seq!['.'] + self.image_extension_view());
        }
        join_path(self.workspace.as_str(), name.as_str())
    }

    pub fn image_version(&self) -> (r: ImageVersion)
        ensures
            r.version() == self.image_version_spec(),
    {
        self.image_version
    }

    pub fn set_image_version(&mut self, version: ImageVersion)
        ensures
            final(self).image_version_spec() == version.version(),
            unchanged_but_image_version(*old(self), *final(self)),
    {
        self.image_version = version;
    }

    pub fn app_version(&self) -> (r: AppVersion)
        ensures
            r.version() == self.app_version_spec(),
    {
        self.app_version
    }

    pub fn set_app_version(&mut self, version: AppVersion)
        ensures
            final(self).app_version_spec() == version.version(),
            unchanged_but_app_version(*old(self), *final(self)),
    {
        self.app_version = version;
    }

    /// The fixed name of the state file inside a workspace.
    pub fn serialization_file_name() -> (r: &'static str)
        ensures
            r@ == crate::SERIALIZATION_FILE@,
    {
        crate::SERIALIZATION_FILE
    }

    /// The path of this workspace's state file.
    pub fn serialization_file(&self) -> (r: String)
        ensures
            r@ == join_of(self.workspace_view(), crate::SERIALIZATION_FILE@),
    {
        join_path(self.workspace.as_str(), Self::serialization_file_name())
    }

    /// The platform this invocation runs on, as resolved at startup.
    pub fn host_platform(&self) -> (r: PlatformOS)
        ensures
            r == self.host_spec(),
    {
        self.host
    }

    /// Where the app for a platform lives: the workspace itself for the
    /// host platform, a directory named by the target triple otherwise.
    pub fn gtoolkit_app_location(&self, target: PlatformOS) -> (r: String)
        ensures
            target == self.host_spec() ==> r@ == self.workspace_view(),
            target != self.host_spec() ==> r@ == join_of(self.workspace_view(), triple_of(target)),
    {
        if self.host == target {
            self.workspace.clone()
        } else {
            join_path(self.workspace.as_str(), target.as_str())
        }
    }

    /// The path of the windowed application binary, relative to the
    /// workspace; the phone platform has none to run.
    pub fn gtoolkit_app(&self) -> (r: &'static str)
        requires
            self.host_spec() != PlatformOS::AndroidAarch64,
        ensures
            r@ == app_binary_relative_of(self.host_spec()),
    {
        app_binary_relative(self.host)
    }

    /// The address the app for the host platform is fetched from.
    pub fn gtoolkit_app_host_url(&self) -> (r: String)
        ensures
            r@ == app_url_of(self.host_spec(), version_text_of(self.app_version_spec())),
    {
        self.gtoolkit_app_url_for_target(self.host)
    }

    /// The address the app for a platform is fetched from, at this record's
    /// application version.
    pub fn gtoolkit_app_url_for_target(&self, platform: PlatformOS) -> (r: String)
        ensures
            r@ == app_url_of(platform, version_text_of(self.app_version_spec())),
    {
        let version = self.app_version.to_text();
        let mut r = "https://github.com/feenkcom/gtoolkit-vm/releases/download/v".to_owned();
        r.append(version.as_str());
        r.append("/GlamorousToolkit-");
        r.append(platform.as_str());
        let suffix: &str = match platform {
            PlatformOS::MacOSX8664 | PlatformOS::MacOSAarch64 => ".app.zip",
            PlatformOS::AndroidAarch64 => ".apk",
            _ => ".zip",
        };
        r.append(suffix);
        proof {
            assert(r@ =~= app_url_of(platform, version_text_of(self.app_version_spec())));
        }
        r
    }

    /// The top-level entries that make up the app on the host platform.
    pub fn gtoolkit_app_entries(&self) -> (r: Vec<EntryNamed>)
        ensures
            is_mac(self.host_spec()) ==> r@.len() == 1 && (r@[0] matches EntryNamed::Wildmatch(p)
                && p@ == "*.app"@),
            is_windows(self.host_spec()) ==> r@.len() == 1 && (r@[0] matches EntryNamed::Exact(n)
                && n@ == "bin"@),
            is_linux(self.host_spec()) ==> r@.len() == 2 && (r@[0] matches EntryNamed::Exact(n)
                && n@ == "bin"@) && (r@[1] matches EntryNamed::Exact(n) && n@ == "lib"@),
            self.host_spec() == PlatformOS::AndroidAarch64 ==> r@.len() == 1 && (
            r@[0] matches EntryNamed::Exact(n) && n@ == "lib"@),
    {
        app_entries_for(self.host)
    }

    /// The command-line binary to run on the host platform.
    pub fn gtoolkit_app_cli(&self) -> (r: String)
        ensures
            r@ == self.app_cli_path_of(self.host_spec()),
    {
        self.gtoolkit_app_cli_for_target(self.host)
    }

    /// The command-line binary for a platform; an explicitly set binary
    /// overrides the downloaded one.
    pub open spec fn app_cli_path_of(&self, target: PlatformOS) -> Seq<char> {
        match self.app_cli_binary_view() {
            Some(cli) => cli,
            None => {
                let location = if target == self.host_spec() {
                    self.workspace_view()
                } else {
                    join_of(self.workspace_view(), triple_of(target))
                };
                join_of(location, app_cli_relative_of(target))
            },
        }
    }

    pub fn gtoolkit_app_cli_for_target(&self, target: PlatformOS) -> (r: String)
        ensures
            r@ == self.app_cli_path_of(target),
    {
        match &self.app_cli_binary {
            Some(cli) => cli.clone(),
            None => {
                let location = self.gtoolkit_app_location(target);
                join_path(location.as_str(), app_cli_relative(target))
            },
        }
    }

    /// The address the base interpreter's virtual machine is fetched from
    /// on the host platform.
    pub fn pharo_vm_url(&self) -> (r: Option<&'static str>)
        ensures
            r is Some <==> self.host_spec() != PlatformOS::AndroidAarch64,
            r matches Some(u) ==> u@ == crate::platform::pharo_vm_url_of(self.host_spec())
                && u@.len() > 0,
    {
        pharo_vm_url_for(self.host)
    }

    /// The path of the base interpreter binary, relative to the workspace.
    pub fn pharo_executable(&self) -> (r: Option<&'static str>)
        ensures
            r is Some <==> self.host_spec() != PlatformOS::AndroidAarch64,
            is_mac(self.host_spec()) ==> (r matches Some(p) && p@
                == "pharo-vm/Pharo.app/Contents/MacOS/Pharo"@),
            is_windows(self.host_spec()) ==> (r matches Some(p) && p@
                == "pharo-vm/PharoConsole.exe"@),
            is_linux(self.host_spec()) ==> (r matches Some(p) && p@ == "pharo-vm/pharo"@),
    {
        pharo_executable_for(self.host)
    }

    /// The fixed name of the container build file packaged with a
    /// tentative release.
    pub fn dockerfile() -> (r: &'static str)
        ensures
            r@ == "Dockerfile"@,
    {
        "Dockerfile"
    }

    /// The fixed name of the directory of extra container content packaged
    /// with a tentative release.
    pub fn docker_image_content_directory() -> (r: &'static str)
        ensures
            r@ == "docker-image-content"@,
    {
        "docker-image-content"
    }
}

/// All fields but the verbosity flag agree.
pub open spec fn unchanged_but_verbose(a: Application, b: Application) -> bool {
    &&& a.workspace_view() == b.workspace_view()
    &&& a.app_version_spec() == b.app_version_spec()
    &&& a.app_cli_binary_view() == b.app_cli_binary_view()
    &&& a.image_version_spec() == b.image_version_spec()
    &&& a.image_name_view() == b.image_name_view()
    &&& a.image_extension_view() == b.image_extension_view()
    &&& seed_matches(a.image_seed_spec(), b.image_seed_spec())
    &&& a.host_spec() == b.host_spec()
}

/// All fields but the workspace agree.
pub open spec fn unchanged_but_workspace(a: Application, b: Application) -> bool {
    &&& a.verbose_spec() == b.verbose_spec()
    &&& a.app_version_spec() == b.app_version_spec()
    &&& a.app_cli_binary_view() == b.app_cli_binary_view()
    &&& a.image_version_spec() == b.image_version_spec()
    &&& a.image_name_view() == b.image_name_view()
    &&& a.image_extension_view() == b.image_extension_view()
    &&& seed_matches(a.image_seed_spec(), b.image_seed_spec())
    &&& a.host_spec() == b.host_spec()
}

/// All fields but the overriding binary agree.
pub open spec fn unchanged_but_cli_binary(a: Application, b: Application) -> bool {
    &&& a.verbose_spec() == b.verbose_spec()
    &&& a.workspace_view() == b.workspace_view()
    &&& a.app_version_spec() == b.app_version_spec()
    &&& a.image_version_spec() == b.image_version_spec()
    &&& a.image_name_view() == b.image_name_view()
    &&& a.image_extension_view() == b.image_extension_view()
    &&& seed_matches(a.image_seed_spec(), b.image_seed_spec())
    &&& a.host_spec() == b.host_spec()
}

/// All fields but the image version agree.
pub open spec fn unchanged_but_image_version(a: Application, b: Application) -> bool {
    &&& a.verbose_spec() == b.verbose_spec()
    &&& a.workspace_view() == b.workspace_view()
    &&& a.app_version_spec() == b.app_version_spec()
    &&& a.app_cli_binary_view() == b.app_cli_binary_view()
    &&& a.image_name_view() == b.image_name_view()
    &&& a.image_extension_view() == b.image_extension_view()
    &&& seed_matches(a.image_seed_spec(), b.image_seed_spec())
    &&& a.host_spec() == b.host_spec()
}

/// All fields but the application version agree.
pub open spec fn unchanged_but_app_version(a: Application, b: Application) -> bool {
    &&& a.verbose_spec() == b.verbose_spec()
    &&& a.workspace_view() == b.workspace_view()
    &&& a.app_cli_binary_view() == b.app_cli_binary_view()
    &&& a.image_version_spec() == b.image_version_spec()
    &&& a.image_name_view() == b.image_name_view()
    &&& a.image_extension_view() == b.image_extension_view()
    &&& seed_matches(a.image_seed_spec(), b.image_seed_spec())
    &&& a.host_spec() == b.host_spec()
}

} // verus!
