use vstd::prelude::*;

use crate::application::Application;
use crate::create::FileToCreate;
use crate::download::FileToDownload;
use crate::error::InstallerError;
use crate::paths::{join_of, join_path};
use crate::platform::PlatformOS;
use crate::seed::ImageSeed;
use crate::strutil::{ascii_lower_of, str_eq, to_ascii_lower};
use crate::unzip::FileToUnzip;
use crate::version::{
    parse_version_text_of, version_text_of, ImageVersion, Version,
};

verus! {

/// Which engine loads the toolkit's code into the image.
#[derive(Clone, Copy, Debug, PartialEq, Eq, Structural)]
pub enum Loader {
    Cloner,
    Metacello,
}

impl Loader {
    pub fn as_str(&self) -> (r: &'static str)
        ensures
            *self == Loader::Cloner ==> r@ == "cloner"@,
            *self == Loader::Metacello ==> r@ == "metacello"@,
    {
        match self {
            Loader::Cloner => "cloner",
            Loader::Metacello => "metacello",
        }
    }

    /// Reads a loader name, any letter case accepted; an unknown name is
    /// its own error.
    pub fn parse(s: &str) -> (r: Result<Loader, InstallerError>)
        ensures
            ascii_lower_of(s@) == "cloner"@ ==> r == Ok::<Loader, InstallerError>(Loader::Cloner),
            ascii_lower_of(s@) == "metacello"@ ==> r == Ok::<Loader, InstallerError>(
                Loader::Metacello,
            ),
            ascii_lower_of(s@) != "cloner"@ && ascii_lower_of(s@) != "metacello"@ ==> (
            r matches Err(e) && (e matches InstallerError::LoaderParseError(t) && t@ == s@)),
    {
        proof {
            reveal_strlit("cloner");
            reveal_strlit("metacello");
            assert("cloner"@.len() != "metacello"@.len());
        }
        let lowered = to_ascii_lower(s);
        if str_eq(lowered.as_str(), "cloner") {
            Ok(Loader::Cloner)
        } else if str_eq(lowered.as_str(), "metacello") {
            Ok(Loader::Metacello)
        } else {
            Err(InstallerError::LoaderParseError(s.to_owned()))
        }
    }
}

/// Which toolkit version a build loads: the latest release, the moving
/// main line, or a pinned version.
#[derive(Clone, Copy, Debug, PartialEq, Eq, Structural)]
pub enum BuildVersion {
    LatestRelease,
    BleedingEdge,
    Version(Version),
}

/// The loose name of a build version choice.
pub open spec fn abstract_name_of(v: BuildVersion) -> Seq<char> {
    match v {
        BuildVersion::LatestRelease => "latest-release"@,
        BuildVersion::BleedingEdge => "bleeding-edge"@,
        BuildVersion::Version(_) => "vX.Y.Z"@,
    }
}

impl BuildVersion {
    pub fn abstract_name(&self) -> (r: &'static str)
        ensures
            r@ == abstract_name_of(*self),
    {
        match self {
            BuildVersion::LatestRelease => "latest-release",
            BuildVersion::BleedingEdge => "bleeding-edge",
            BuildVersion::Version(_) => "vX.Y.Z",
        }
    }

    /// The exact text of the choice: the pinned version's own text, or
    /// the loose name.
    pub fn as_text(&self) -> (r: String)
        ensures
            match *self {
                BuildVersion::Version(v) => r@ == version_text_of(v),
                _ => r@ == abstract_name_of(*self),
            },
    {
        match self {
            BuildVersion::Version(v) => v.to_text(),
            _ => self.abstract_name().to_owned(),
        }
    }

    /// Reads a choice, any letter case accepted: one of the two loose
    /// names, or a version; text that is neither is its own error.
    pub fn parse(s: &str) -> (r: Result<BuildVersion, InstallerError>)
        ensures
            ({
                let lowered = ascii_lower_of(s@);
                match r {
                    Ok(v) => match v {
                        BuildVersion::LatestRelease => lowered == "latest-release"@,
                        BuildVersion::BleedingEdge => lowered == "bleeding-edge"@,
                        BuildVersion::Version(ver) => parse_version_text_of(lowered) == Some(
                            (ver.major as nat, ver.minor as nat, ver.patch as nat),
                        ),
                    },
                    Err(e) => {
                        &&& lowered != "latest-release"@
                        &&& lowered != "bleeding-edge"@
                        &&& (e matches InstallerError::VersionParseError(t) && t@ == s@)
                        &&& match parse_version_text_of(lowered) {
                            Some(t) => t.0 > u64::MAX || t.1 > u64::MAX || t.2 > u64::MAX,
                            None => true,
                        }
                    },
                }
            }),
    {
        proof {
            reveal_strlit("latest-release");
            reveal_strlit("bleeding-edge");
            assert("latest-release"@.len() != "bleeding-edge"@.len());
        }
        let lowered = to_ascii_lower(s);
        if str_eq(lowered.as_str(), "latest-release") {
            Ok(BuildVersion::LatestRelease)
        } else if str_eq(lowered.as_str(), "bleeding-edge") {
            Ok(BuildVersion::BleedingEdge)
        } else {
            match Version::parse(lowered.as_str()) {
                Some(v) => Ok(BuildVersion::Version(v)),
                None => Err(InstallerError::VersionParseError(s.to_owned())),
            }
        }
    }
}

/// Everything a build invocation chooses: whether to overwrite, which
/// loader and version, where the seed comes from, which interpreter
/// machine to use, and which keys to clone with.
#[derive(Clone, Debug)]
pub struct BuildOptions {
    overwrite: bool,
    loader: Loader,
    image_url: Option<String>,
    image_zip: Option<String>,
    image_file: Option<String>,
    pharo_vm_url: Option<String>,
    public_key: Option<String>,
    private_key: Option<String>,
    version: BuildVersion,
}

pub open spec fn opt_view(o: Option<String>) -> Option<Seq<char>> {
    match o {
        Some(s) => Some(s@),
        None => None,
    }
}

impl BuildOptions {
    pub closed spec fn overwrite_spec(&self) -> bool {
        self.overwrite
    }

    pub closed spec fn loader_spec(&self) -> Loader {
        self.loader
    }

    pub closed spec fn image_url_spec(&self) -> Option<Seq<char>> {
        opt_view(self.image_url)
    }

    pub closed spec fn image_zip_spec(&self) -> Option<Seq<char>> {
        opt_view(self.image_zip)
    }

    pub closed spec fn image_file_spec(&self) -> Option<Seq<char>> {
        opt_view(self.image_file)
    }

    pub closed spec fn pharo_vm_url_spec(&self) -> Option<Seq<char>> {
        opt_view(self.pharo_vm_url)
    }

    pub closed spec fn public_key_spec(&self) -> Option<Seq<char>> {
        opt_view(self.public_key)
    }

    pub closed spec fn private_key_spec(&self) -> Option<Seq<char>> {
        opt_view(self.private_key)
    }

    pub closed spec fn version_spec(&self) -> BuildVersion {
        self.version
    }

    /// Fresh options: no overwrite, the cloning loader, the default seed,
    /// no custom machine, no keys, the moving main line.
    pub fn new() -> (r: BuildOptions)
        ensures
            r.overwrite_spec() == false,
            r.loader_spec() == Loader::Cloner,
            r.image_url_spec() is None,
            r.image_zip_spec() is None,
            r.image_file_spec() is None,
            r.pharo_vm_url_spec() is None,
            r.public_key_spec() is None,
            r.private_key_spec() is None,
            r.version_spec() is BleedingEdge,
    {
        BuildOptions {
            overwrite: false,
            loader: Loader::Cloner,
            image_url: None,
            image_zip: None,
            image_file: None,
            pharo_vm_url: None,
            public_key: None,
            private_key: None,
            version: BuildVersion::BleedingEdge,
        }
    }

    pub fn should_overwrite(&self) -> (r: bool)
        ensures
            r == self.overwrite_spec(),
    {
        self.overwrite
    }

    pub fn overwrite(&mut self, overwrite: bool)
        ensures
            final(self).overwrite_spec() == overwrite,
            options_agree_on(*old(self), *final(self), OptionField::Overwrite),
    {
        self.overwrite = overwrite;
    }

    pub fn loader(&mut self, loader: Loader)
        ensures
            final(self).loader_spec() == loader,
            options_agree_on(*old(self), *final(self), OptionField::LoaderChoice),
    {
        self.loader = loader;
    }

    pub fn loader_choice(&self) -> (r: Loader)
        ensures
            r == self.loader_spec(),
    {
        self.loader
    }

    pub fn set_image_url(&mut self, url: &str)
        ensures
            final(self).image_url_spec() == Some(url@),
            options_agree_on(*old(self), *final(self), OptionField::SeedUrl),
    {
        self.image_url = Some(url.to_owned());
    }

    pub fn set_image_zip(&mut self, path: &str)
        ensures
            final(self).image_zip_spec() == Some(path@),
            options_agree_on(*old(self), *final(self), OptionField::SeedZip),
    {
        self.image_zip = Some(path.to_owned());
    }

    pub fn set_image_file(&mut self, path: &str)
        ensures
            final(self).image_file_spec() == Some(path@),
            options_agree_on(*old(self), *final(self), OptionField::SeedFile),
    {
        self.image_file = Some(path.to_owned());
    }

    pub fn set_pharo_vm_url(&mut self, url: &str)
        ensures
            final(self).pharo_vm_url_spec() == Some(url@),
            options_agree_on(*old(self), *final(self), OptionField::InterpreterUrl),
    {
        self.pharo_vm_url = Some(url.to_owned());
    }

    pub fn set_public_key(&mut self, path: &str)
        ensures
            final(self).public_key_spec() == Some(path@),
            options_agree_on(*old(self), *final(self), OptionField::PublicKey),
    {
        self.public_key = Some(path.to_owned());
    }

    pub fn set_private_key(&mut self, path: &str)
        ensures
            final(self).private_key_spec() == Some(path@),
            options_agree_on(*old(self), *final(self), OptionField::PrivateKey),
    {
        self.private_key = Some(path.to_owned());
    }

    pub fn set_version(&mut self, version: BuildVersion)
        ensures
            final(self).version_spec() == version,
            options_agree_on(*old(self), *final(self), OptionField::VersionChoice),
    {
        self.version = version;
    }

    pub fn version_choice(&self) -> (r: &BuildVersion)
        ensures
            *r == self.version_spec(),
    {
        &self.version
    }

    pub fn public_key(&self) -> (r: Option<&str>)
        ensures
            match r {
                Some(p) => self.public_key_spec() == Some(p@),
                None => self.public_key_spec() is None,
            },
    {
        match &self.public_key {
            Some(p) => Some(p.as_str()),
            None => None,
        }
    }

    pub fn private_key(&self) -> (r: Option<&str>)
        ensures
            match r {
                Some(p) => self.private_key_spec() == Some(p@),
                None => self.private_key_spec() is None,
            },
    {
        match &self.private_key {
            Some(p) => Some(p.as_str()),
            None => None,
        }
    }

    pub fn pharo_vm_url_option(&self) -> (r: Option<&str>)
        ensures
            match r {
                Some(p) => self.pharo_vm_url_spec() == Some(p@),
                None => self.pharo_vm_url_spec() is None,
            },
    {
        match &self.pharo_vm_url {
            Some(p) => Some(p.as_str()),
            None => None,
        }
    }

    /// The seed a build starts from: a local archive wins over a remote
    /// one, a remote one over an existing snapshot, and with nothing
    /// chosen the well-known default address.
    pub fn image_seed(&self) -> (r: ImageSeed)
        ensures
            match self.image_zip_spec() {
                Some(z) => r is Zip && crate::seed::seed_payload_view(r) == z,
                None => match self.image_url_spec() {
                    Some(u) => r is Url && crate::seed::seed_payload_view(r) == u,
                    None => match self.image_file_spec() {
                        Some(f) => r is Image && crate::seed::seed_payload_view(r) == f,
                        None => r is Url && crate::seed::seed_payload_view(r)
                            == crate::application::DEFAULT_PHARO_IMAGE@,
                    },
                },
            },
    {
        if let Some(image_zip) = &self.image_zip {
            return ImageSeed::Zip(image_zip.clone());
        }
        if let Some(image_url) = &self.image_url {
            return ImageSeed::Url(image_url.clone());
        }
        if let Some(image_file) = &self.image_file {
            return ImageSeed::Image(image_file.clone());
        }
        ImageSeed::Url(crate::application::DEFAULT_PHARO_IMAGE.to_owned())
    }

    /// The keys used to clone repositories: both, or none; one alone is a
    /// configuration error naming what was given.
    pub fn ssh_keys(&self) -> (r: Result<Option<(String, String)>, InstallerError>)
        ensures
            match r {
                Ok(pair) => match pair {
                    Some(keys) => self.private_key_spec() == Some(keys.0@)
                        && self.public_key_spec() == Some(keys.1@),
                    None => self.private_key_spec() is None && self.public_key_spec() is None,
                },
                Err(e) => (self.private_key_spec() is Some) != (self.public_key_spec() is Some)
                    && e is SshKeysConfigurationError,
            },
    {
        match (&self.private_key, &self.public_key) {
            (Some(private_key), Some(public_key)) => Ok(
                Some((private_key.clone(), public_key.clone())),
            ),
            (None, None) => Ok(None),
            (private_key, public_key) => Err(
                InstallerError::SshKeysConfigurationError(
                    match private_key {
                        Some(p) => Some(p.clone()),
                        None => None,
                    },
                    match public_key {
                        Some(p) => Some(p.clone()),
                        None => None,
                    },
                ),
            ),
        }
    }
}

/// The one choice a setter may change.
pub enum OptionField {
    Overwrite,
    LoaderChoice,
    SeedUrl,
    SeedZip,
    SeedFile,
    InterpreterUrl,
    PublicKey,
    PrivateKey,
    VersionChoice,
}

/// Every choice but the named one agrees between the two option records.
pub open spec fn options_agree_on(a: BuildOptions, b: BuildOptions, except: OptionField) -> bool {
    &&& (!(except is Overwrite) ==> a.overwrite_spec() == b.overwrite_spec())
    &&& (!(except is LoaderChoice) ==> a.loader_spec() == b.loader_spec())
    &&& (!(except is SeedUrl) ==> a.image_url_spec() == b.image_url_spec())
    &&& (!(except is SeedZip) ==> a.image_zip_spec() == b.image_zip_spec())
    &&& (!(except is SeedFile) ==> a.image_file_spec() == b.image_file_spec())
    &&& (!(except is InterpreterUrl) ==> a.pharo_vm_url_spec() == b.pharo_vm_url_spec())
    &&& (!(except is PublicKey) ==> a.public_key_spec() == b.public_key_spec())
    &&& (!(except is PrivateKey) ==> a.private_key_spec() == b.private_key_spec())
    &&& (!(except is VersionChoice) ==> a.version_spec() == b.version_spec())
}

/// What a key's presence on disk means: a key that was named but does not
/// exist is its own error.
pub fn require_key_exists(key: &str, exists: bool, is_public: bool) -> (r: Result<
    (),
    InstallerError,
>)
    ensures
        match r {
            Ok(()) => exists,
            Err(e) => !exists && (if is_public {
                e matches InstallerError::PublicKeyDoesNotExist(p) && p@ == key@
            } else {
                e matches InstallerError::PrivateKeyDoesNotExist(p) && p@ == key@
            }),
        },
{
    if exists {
        Ok(())
    } else if is_public {
        Err(InstallerError::PublicKeyDoesNotExist(key.to_owned()))
    } else {
        Err(InstallerError::PrivateKeyDoesNotExist(key.to_owned()))
    }
}

/// The versions a loader script is rendered with.
#[derive(Clone, Debug)]
pub struct LoaderVersionInfo {
    gtoolkit_version: String,
    releaser_version: String,
}

impl LoaderVersionInfo {
    pub closed spec fn gtoolkit_version_view(&self) -> Seq<char> {
        self.gtoolkit_version@
    }

    pub closed spec fn releaser_version_view(&self) -> Seq<char> {
        self.releaser_version@
    }

    pub fn new(gtoolkit_version: &str, releaser_version: &str) -> (r: LoaderVersionInfo)
        ensures
            r.gtoolkit_version_view() == gtoolkit_version@,
            r.releaser_version_view() == releaser_version@,
    {
        LoaderVersionInfo {
            gtoolkit_version: gtoolkit_version.to_owned(),
            releaser_version: releaser_version.to_owned(),
        }
    }

    pub fn gtoolkit_version(&self) -> (r: &str)
        ensures
            r@ == self.gtoolkit_version_view(),
    {
        self.gtoolkit_version.as_str()
    }

    pub fn releaser_version(&self) -> (r: &str)
        ensures
            r@ == self.releaser_version_view(),
    {
        self.releaser_version.as_str()
    }
}

/// Drives the end-to-end build of a workspace.
pub struct Builder;

impl Builder {
    pub fn new() -> (r: Builder) {
        Builder {  }
    }

    /// The tag naming the toolkit version to load: `main` for the moving
    /// line, `v` and the version for a pinned one, and `v` and the
    /// oracle's answer for the latest release — which must have been
    /// resolved first.
    pub fn gtoolkit_version_tag(
        &self,
        version: &BuildVersion,
        latest: Option<ImageVersion>,
    ) -> (r: Result<String, InstallerError>)
        ensures
            match r {
                Ok(tag) => match *version {
                    BuildVersion::BleedingEdge => tag@ == "main"@,
                    BuildVersion::Version(v) => tag@ == seq!['v'] + version_text_of(v),
                    BuildVersion::LatestRelease => latest matches Some(l) && tag@ == seq!['v']
                        + version_text_of(l.version()),
                },
                Err(e) => *version is LatestRelease && latest is None
                    && e is FailedToDetectGlamorousImageVersion,
            },
    {
        match version {
            BuildVersion::BleedingEdge => Ok("main".to_owned()),
            BuildVersion::Version(v) => {
                let mut tag = "v".to_owned();
                let text = v.to_text();
                tag.append(text.as_str());
                proof {
                    reveal_strlit("v");
                    assert("v"@ =~= seq!['v']);
                    assert(tag@ =~= seq!['v'] + version_text_of(*v));
                }
                Ok(tag)
            },
            BuildVersion::LatestRelease => match latest {
                Some(l) => {
                    let mut tag = "v".to_owned();
                    let text = l.to_text();
                    tag.append(text.as_str());
                    proof {
                        reveal_strlit("v");
                        assert("v"@ =~= seq!['v']);
                        assert(tag@ =~= seq!['v'] + version_text_of(l.version()));
                    }
                    Ok(tag)
                },
                None => Err(InstallerError::FailedToDetectGlamorousImageVersion),
            },
        }
    }

    /// The address the releaser version file for a tagged toolkit version
    /// is fetched from.
    pub fn releaser_version_file_url(&self, tag: &str) -> (r: String)
        ensures
            r@ == "https://raw.githubusercontent.com/feenkcom/gtoolkit/"@ + tag@
                + "/gtoolkit-releaser.version"@,
    {
        let mut r = "https://raw.githubusercontent.com/feenkcom/gtoolkit/".to_owned();
        r.append(tag);
        r.append("/gtoolkit-releaser.version");
        proof {
            assert(r@ =~= "https://raw.githubusercontent.com/feenkcom/gtoolkit/"@ + tag@
                + "/gtoolkit-releaser.version"@);
        }
        r
    }

    /// What the status of the releaser version fetch means: anything but
    /// success fails, naming the address and the status.
    pub fn releaser_version_check(&self, url: &str, status: u16) -> (r: Result<
        (),
        InstallerError,
    >)
        ensures
            match r {
                Ok(()) => status == 200,
                Err(e) => status != 200 && (
                e matches InstallerError::FailedToDownloadReleaserVersion(u, s) && u@ == url@ && s
                    == status),
            },
    {
        if status == 200 {
            Ok(())
        } else {
            Err(InstallerError::FailedToDownloadReleaserVersion(url.to_owned(), status))
        }
    }

    /// The tag naming the releaser version, read from the fetched file's
    /// content; content that is no version is its own error.
    pub fn releaser_version_tag(&self, content: &str) -> (r: Result<String, InstallerError>)
        ensures
            match r {
                Ok(tag) => parse_version_text_of(content@) matches Some(t) && tag@ == seq!['v']
                    + version_text_of(
                    Version {
                        major: t.0 as u64,
                        minor: t.1 as u64,
                        patch: t.2 as u64,
                    },
                ),
                Err(e) => (e matches InstallerError::VersionParseError(c) && c@ == content@),
            },
    {
        match Version::parse(content) {
            Some(v) => {
                let mut tag = "v".to_owned();
                let text = v.to_text();
                tag.append(text.as_str());
                proof {
                    reveal_strlit("v");
                    assert("v"@ =~= seq!['v']);
                    assert(tag@ =~= seq!['v'] + version_text_of(v));
                }
                Ok(tag)
            },
            None => Err(InstallerError::VersionParseError(content.to_owned())),
        }
    }

    /// The loader script rendered from its template against the toolkit
    /// and releaser tags; a template that does not compile is a template
    /// error.
    pub fn render_loader_script(
        &self,
        template: &str,
        gtoolkit_version: &str,
        releaser_version: &str,
    ) -> (r: Result<String, InstallerError>)
        ensures
            r is Ok <==> crate::template::plain_template(template@)
                && crate::template::mustache_template_ok(template@),
            r matches Ok(s) ==> s@ == crate::template::mustache_render(
                template@,
                seq!["gtoolkit_version"@, "releaser_version"@],
                seq![gtoolkit_version@, releaser_version@],
            ),
            r matches Err(e) ==> e is TemplateError,
    {
        if !crate::template::is_plain_template(template) {
            return Err(
                InstallerError::TemplateError(
                    "the loader template must open every tag with a name".to_owned(),
                ),
            );
        }
        let mut keys: Vec<String> = Vec::new();
        keys.push("gtoolkit_version".to_owned());
        keys.push("releaser_version".to_owned());
        let mut values: Vec<String> = Vec::new();
        values.push(gtoolkit_version.to_owned());
        values.push(releaser_version.to_owned());
        proof {
            assert(keys@.map_values(|k: String| k@) =~= seq![
                "gtoolkit_version"@,
                "releaser_version"@,
            ]);
            assert(values@.map_values(|v: String| v@) =~= seq![
                gtoolkit_version@,
                releaser_version@,
            ]);
        }
        match crate::template::render_with(template, &keys, &values) {
            Ok(s) => Ok(s),
            Err(e) => Err(InstallerError::TemplateError(e)),
        }
    }

    /// The file name the rendered loader script is written under.
    pub fn loader_script_file_name(&self, tag: &str) -> (r: String)
        ensures
            r@ == "load-gt-"@ + tag@ + ".st"@,
    {
        let mut r = "load-gt-".to_owned();
        r.append(tag);
        r.append(".st");
        proof {
            assert(r@ =~= "load-gt-"@ + tag@ + ".st"@);
        }
        r
    }

    /// The address the base interpreter's machine is fetched from: a
    /// custom one when given, the platform's default otherwise.
    pub fn pharo_vm_url(&self, application: &Application, build_options: &BuildOptions) -> (r:
        String)
        requires
            application.host_spec() != PlatformOS::AndroidAarch64,
        ensures
            match build_options.pharo_vm_url_spec() {
                Some(u) => r@ == u,
                None => r@ == crate::platform::pharo_vm_url_of(application.host_spec()),
            },
    {
        match build_options.pharo_vm_url_option() {
            Some(u) => u.to_owned(),
            None => {
                match application.pharo_vm_url() {
                    Some(u) => u.to_owned(),
                    None => {
                        proof {
                            assert(false);
                        }
                        String::new()
                    },
                }
            },
        }
    }

    /// The fetch that brings the base interpreter's machine in, as
    /// `pharo-vm.zip` under the workspace.
    pub fn pharo_vm_download(&self, application: &Application, url: &str) -> (r: FileToDownload)
        ensures
            r.url_view() == url@,
            r.directory_view() == application.workspace_view(),
            r.file_name_view() == "pharo-vm.zip"@,
    {
        FileToDownload::new(url, application.workspace(), "pharo-vm.zip")
    }

    /// The expansion that opens the fetched machine into `pharo-vm` under
    /// the workspace.
    pub fn pharo_vm_unzip(&self, application: &Application, pharo_vm: &FileToDownload) -> (r:
        FileToUnzip)
        ensures
            r.archive_view() == join_of(pharo_vm.directory_view(), pharo_vm.file_name_view()),
            r.output_view() == join_of(application.workspace_view(), "pharo-vm"@),
    {
        let archive = pharo_vm.path();
        let output = join_path(application.workspace(), "pharo-vm");
        FileToUnzip::new(archive.as_str(), output.as_str())
    }

    /// The patch-loading script, written under the workspace.
    pub fn patches_script_file(&self, application: &Application, content: &str) -> (r:
        FileToCreate)
        ensures
            r.destination_view() == join_of(application.workspace_view(), "load-patches.st"@),
            r.content_view() == content@,
    {
        let path = join_path(application.workspace(), "load-patches.st");
        FileToCreate::new(path.as_str(), content)
    }

    /// The rendered loader script, written under the workspace.
    pub fn loader_script_file(
        &self,
        application: &Application,
        file_name: &str,
        content: &str,
    ) -> (r: FileToCreate)
        ensures
            r.destination_view() == join_of(application.workspace_view(), file_name@),
            r.content_view() == content@,
    {
        let path = join_path(application.workspace(), file_name);
        FileToCreate::new(path.as_str(), content)
    }

    /// Everything the build's fetch stage brings in, in order: the
    /// application for the host unless an explicit binary overrides it,
    /// the base interpreter's machine, and the seed archive when the seed
    /// is remote.
    pub fn build_downloads(&self, application: &Application, pharo_vm_url: &str) -> (r:
        crate::download::FilesToDownload)
        ensures
            ({
                let host = application.host_spec();
                let vm_count: int = if application.app_cli_binary_view() is None {
                    1
                } else {
                    0
                };
                let seed_count: int = if application.image_seed_spec() is Url {
                    1
                } else {
                    0
                };
                &&& r.files_view().len() == vm_count + 1 + seed_count
                &&& (application.app_cli_binary_view() is None ==> {
                    let f = r.files_view()[0];
                    &&& f.url_view() == crate::platform::app_url_of(
                        host,
                        version_text_of(application.app_version_spec()),
                    )
                    &&& f.directory_view() == crate::tools::downloader::app_location_of(
                        application,
                        host,
                    )
                    &&& f.file_name_view() == crate::tools::downloader::vm_file_name_of(
                        application,
                        host,
                    )
                })
                &&& {
                    let f = r.files_view()[vm_count];
                    &&& f.url_view() == pharo_vm_url@
                    &&& f.directory_view() == application.workspace_view()
                    &&& f.file_name_view() == "pharo-vm.zip"@
                }
                &&& (application.image_seed_spec() is Url ==> {
                    let f = r.files_view()[vm_count + 1];
                    &&& f.url_view() == crate::seed::seed_payload_view(
                        application.image_seed_spec(),
                    )
                    &&& f.directory_view() == application.workspace_view()
                    &&& f.file_name_view() == "seed-image.zip"@
                })
            }),
    {
        let host = application.host_platform();
        let pharo_vm = self.pharo_vm_download(application, pharo_vm_url);
        crate::tools::downloader::Downloader::files_to_download(application, host).add(
            pharo_vm,
        ).maybe_add(application.image_seed().file_to_download(application))
    }

    /// Everything the build's expansion stage opens, in order: the fetched
    /// application unless an explicit binary overrides it, the machine
    /// into `pharo-vm`, and the seed archive into its staging directory
    /// when the seed is an archive at all.
    pub fn build_unzips(&self, application: &Application) -> (r: crate::unzip::FilesToUnzip)
        requires
            application.image_seed_spec() matches ImageSeed::Image(p) ==> crate::paths::parent_of(
                p@,
            ) is Some,
        ensures
            ({
                let host = application.host_spec();
                let vm_count: int = if application.app_cli_binary_view() is None {
                    1
                } else {
                    0
                };
                let seed_count: int = if application.image_seed_spec() is Image {
                    0
                } else {
                    1
                };
                &&& r.files_view().len() == vm_count + 1 + seed_count
                &&& (application.app_cli_binary_view() is None ==> {
                    let f = r.files_view()[0];
                    &&& f.archive_view() == join_of(
                        crate::tools::downloader::app_location_of(application, host),
                        crate::tools::downloader::vm_file_name_of(application, host),
                    )
                    &&& f.output_view() == crate::tools::downloader::app_location_of(
                        application,
                        host,
                    )
                })
                &&& {
                    let f = r.files_view()[vm_count];
                    &&& f.archive_view() == join_of(
                        application.workspace_view(),
                        "pharo-vm.zip"@,
                    )
                    &&& f.output_view() == join_of(application.workspace_view(), "pharo-vm"@)
                }
                &&& (application.image_seed_spec() is Url ==> {
                    let f = r.files_view()[vm_count + 1];
                    &&& f.archive_view() == join_of(
                        application.workspace_view(),
                        "seed-image.zip"@,
                    )
                    &&& f.output_view() == join_of(application.workspace_view(), "seed-image"@)
                })
                &&& (application.image_seed_spec() matches ImageSeed::Zip(p) ==> {
                    let f = r.files_view()[vm_count + 1];
                    &&& f.archive_view() == p@
                    &&& f.output_view() == join_of(application.workspace_view(), "seed-image"@)
                })
            }),
    {
        let host = application.host_platform();
        let archive = join_path(application.workspace(), "pharo-vm.zip");
        let output = join_path(application.workspace(), "pharo-vm");
        let machine = FileToUnzip::new(archive.as_str(), output.as_str());
        crate::tools::downloader::Downloader::files_to_unzip(application, host).add(
            machine,
        ).maybe_add(application.image_seed().file_to_unzip(application))
    }

    /// The credential pre-step injected ahead of the loader when keys were
    /// supplied. The slots are filled exactly as the contract states —
    /// the private-key path into the `publicKey:` slot and the public-key
    /// path into the `privateKey:` slot — and that order is deliberate:
    /// it is the argument order the loader is driven with.
    pub fn ssh_credentials_expression(&self, private_key: &str, public_key: &str) -> (r:
        crate::smalltalk::expression::SmalltalkExpression)
        ensures
            r.expression_view() == crate::smalltalk::expression::dot_joined(
                seq![
                    "IceCredentialsProvider useCustomSsh: true"@,
                    "IceCredentialsProvider sshCredentials publicKey: '"@ + private_key@
                        + "'; privateKey: '"@ + public_key@ + "'"@,
                ],
            ),
    {
        let mut credentials = "IceCredentialsProvider sshCredentials publicKey: '".to_owned();
        credentials.append(private_key);
        credentials.append("'; privateKey: '");
        credentials.append(public_key);
        credentials.append("'");
        let mut builder = crate::smalltalk::expression::SmalltalkExpressionBuilder::new();
        builder.add("IceCredentialsProvider useCustomSsh: true");
        builder.add(credentials.as_str());
        let r = builder.build();
        proof {
            assert(credentials@ =~= "IceCredentialsProvider sshCredentials publicKey: '"@
                + private_key@ + "'; privateKey: '"@ + public_key@ + "'"@);
            assert(builder.expressions_view() =~= seq![
                "IceCredentialsProvider useCustomSsh: true"@,
                "IceCredentialsProvider sshCredentials publicKey: '"@ + private_key@
                    + "'; privateKey: '"@ + public_key@ + "'"@,
            ]);
        }
        r
    }

    /// The pattern locating the seed image by the recorded extension.
    pub fn seed_image_pattern(&self, application: &Application) -> (r:
        crate::matching::EntryNamed)
        ensures
            r matches crate::matching::EntryNamed::Wildmatch(p) && p@ == "*."@
                + application.image_extension_view(),
    {
        let mut pattern = "*.".to_owned();
        pattern.append(application.image_extension());
        proof {
            assert(pattern@ =~= "*."@ + application.image_extension_view());
        }
        crate::matching::EntryNamed::wildmatch(pattern.as_str())
    }
}

} // verus!
