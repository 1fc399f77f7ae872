use vstd::prelude::*;

use crate::application::Application;
use crate::error::InstallerError;
use crate::matching::EntryNamed;
use crate::platform::{is_linux, is_mac, is_windows, PlatformOS};
use crate::smalltalk::command::SmalltalkCommand;
use crate::strutil::{first_index_of, str_find_char, substring_copy};
use crate::template::{
    is_plain_template, lemma_plain_template_slice, mustache_render, mustache_template_ok,
    plain_template, render_with, tag_name_start,
};
use crate::version::{version_text_of, VersionBump};

verus! {

/// Where the release package goes — the path may hold placeholders for the
/// version, operating system and architecture — and which platform it is
/// built for.
#[derive(Clone, Debug)]
pub struct ReleaseOptions {
    release: String,
    target: Option<PlatformOS>,
}

impl ReleaseOptions {
    pub closed spec fn release_view(&self) -> Seq<char> {
        self.release@
    }

    pub closed spec fn target_spec(&self) -> Option<PlatformOS> {
        self.target
    }

    pub fn new(release: &str, target: Option<PlatformOS>) -> (r: ReleaseOptions)
        ensures
            r.release_view() == release@,
            r.target_spec() == target,
    {
        ReleaseOptions { release: release.to_owned(), target }
    }

    pub fn release(&self) -> (r: &str)
        ensures
            r@ == self.release_view(),
    {
        self.release.as_str()
    }

    pub fn target(&self) -> (r: Option<PlatformOS>)
        ensures
            r == self.target_spec(),
    {
        self.target
    }
}

/// How the releaser is driven.
#[derive(Clone, Debug)]
pub struct ReleaserOptions {
    bump: VersionBump,
}

impl ReleaserOptions {
    pub closed spec fn bump_spec(&self) -> VersionBump {
        self.bump
    }

    pub fn new(bump: VersionBump) -> (r: ReleaserOptions)
        ensures
            r.bump_spec() == bump,
    {
        ReleaserOptions { bump }
    }

    pub fn bump(&self) -> (r: VersionBump)
        ensures
            r == self.bump_spec(),
    {
        self.bump
    }
}

/// The operating-system name a release template sees.
pub open spec fn os_name_of(target: PlatformOS) -> Seq<char> {
    if is_mac(target) {
        "MacOS"@
    } else if is_windows(target) {
        "Windows"@
    } else if is_linux(target) {
        "Linux"@
    } else {
        "Android"@
    }
}

/// The architecture name a release template sees.
pub open spec fn arch_name_of(target: PlatformOS) -> Seq<char> {
    if target == PlatformOS::MacOSX8664 || target == PlatformOS::WindowsX8664 || target
        == PlatformOS::LinuxX8664 {
        "x86_64"@
    } else {
        "aarch64"@
    }
}

pub fn os_name(target: PlatformOS) -> (r: &'static str)
    ensures
        r@ == os_name_of(target),
{
    match target {
        PlatformOS::MacOSX8664 | PlatformOS::MacOSAarch64 => "MacOS",
        PlatformOS::WindowsX8664 | PlatformOS::WindowsAarch64 => "Windows",
        PlatformOS::LinuxX8664 | PlatformOS::LinuxAarch64 => "Linux",
        PlatformOS::AndroidAarch64 => "Android",
    }
}

pub fn arch_name(target: PlatformOS) -> (r: &'static str)
    ensures
        r@ == arch_name_of(target),
{
    match target {
        PlatformOS::MacOSX8664 | PlatformOS::WindowsX8664 | PlatformOS::LinuxX8664 => "x86_64",
        _ => "aarch64",
    }
}

/// The release-template keys, in the order their values are given.
pub open spec fn release_keys() -> Seq<Seq<char>> {
    seq!["version"@, "os"@, "arch"@]
}

/// A path with each slash-separated component rendered as a release
/// template against a version, an OS name and an architecture name.
pub open spec fn rendered_path_of(
    path: Seq<char>,
    version: Seq<char>,
    os: Seq<char>,
    arch: Seq<char>,
) -> Seq<char>
    decreases path.len(),
{
    match first_index_of(path, '/') {
        Some(i) => if 0 <= i < path.len() {
            mustache_render(path.subrange(0, i), release_keys(), seq![version, os, arch])
                + seq!['/'] + rendered_path_of(
                path.subrange(i + 1, path.len() as int),
                version,
                os,
                arch,
            )
        } else {
            mustache_render(path, release_keys(), seq![version, os, arch])
        },
        None => mustache_render(path, release_keys(), seq![version, os, arch]),
    }
}

/// Whether every slash-separated component of the path compiles as a
/// release template.
pub open spec fn release_components_ok(path: Seq<char>) -> bool
    decreases path.len(),
{
    match first_index_of(path, '/') {
        Some(i) => if 0 <= i < path.len() {
            mustache_template_ok(path.subrange(0, i)) && release_components_ok(
                path.subrange(i + 1, path.len() as int),
            )
        } else {
            mustache_template_ok(path)
        },
        None => mustache_template_ok(path),
    }
}

/// Builds release packages.
pub struct Release;

impl Release {
    pub fn new() -> (r: Release) {
        Release {  }
    }

    /// The release path with its placeholders filled in from the image
    /// version and the target platform, component by component; it
    /// succeeds exactly when the path opens its tags plainly and every
    /// component compiles, and anything else is a template error.
    pub fn process_template_path(
        &self,
        application: &Application,
        path: &str,
        target: PlatformOS,
    ) -> (r: Result<String, InstallerError>)
        ensures
            r is Ok <==> plain_template(path@) && release_components_ok(path@),
            r matches Ok(s) ==> s@ == rendered_path_of(
                path@,
                version_text_of(application.image_version_spec()),
                os_name_of(target),
                arch_name_of(target),
            ),
            r matches Err(e) ==> e is TemplateError,
    {
        if !is_plain_template(path) {
            return Err(
                InstallerError::TemplateError(
                    "the release path must open every tag with a name".to_owned(),
                ),
            );
        }
        let version = application.image_version().to_text();
        let os = os_name(target);
        let arch = arch_name(target);
        let mut keys: Vec<String> = Vec::new();
        keys.push("version".to_owned());
        keys.push("os".to_owned());
        keys.push("arch".to_owned());
        let mut values: Vec<String> = Vec::new();
        values.push(version.clone());
        values.push(os.to_owned());
        values.push(arch.to_owned());
        proof {
            assert(keys@.map_values(|k: String| k@) =~= release_keys());
            assert(values@.map_values(|v: String| v@) =~= seq![
                version_text_of(application.image_version_spec()),
                os_name_of(target),
                arch_name_of(target),
            ]);
        }
        Self::render_components(path, &keys, &values)
    }

    /// Renders one slash-separated component after another.
    fn render_components(path: &str, keys: &Vec<String>, values: &Vec<String>) -> (r: Result<
        String,
        InstallerError,
    >)
        requires
            keys@.len() == 3,
            values@.len() == 3,
            keys@.map_values(|k: String| k@) == release_keys(),
            plain_template(path@),
        ensures
            r is Ok <==> release_components_ok(path@),
            r matches Ok(s) ==> s@ == rendered_path_of(
                path@,
                values@.map_values(|v: String| v@)[0],
                values@.map_values(|v: String| v@)[1],
                values@.map_values(|v: String| v@)[2],
            ),
            r matches Err(e) ==> e is TemplateError,
        decreases path@.len(),
    {
        let ghost vv = values@.map_values(|v: String| v@);
        let n = path.unicode_len();
        match str_find_char(path, '/') {
            Some(i) => {
                let head = substring_copy(path, 0, i);
                let tail = substring_copy(path, i + 1, n);
                proof {
                    crate::strutil::lemma_first_index_of(path@, '/');
                    assert(path@[i as int] == '/');
                    assert(!tag_name_start('/'));
                    lemma_plain_template_slice(path@, 0, i as int);
                    lemma_plain_template_slice(path@, i + 1, n as int);
                }
                let rendered_head = match render_with(head.as_str(), keys, values) {
                    Ok(s) => s,
                    Err(e) => {
                        return Err(InstallerError::TemplateError(e));
                    },
                };
                let rendered_tail = match Self::render_components(tail.as_str(), keys, values) {
                    Ok(s) => s,
                    Err(e) => {
                        return Err(e);
                    },
                };
                let mut r = rendered_head;
                r.append("/");
                r.append(rendered_tail.as_str());
                proof {
                    reveal_strlit("/");
                    assert("/"@ =~= seq!['/']);
                    assert(vv =~= seq![vv[0], vv[1], vv[2]]);
                    assert(r@ =~= rendered_path_of(path@, vv[0], vv[1], vv[2]));
                }
                Ok(r)
            },
            None => {
                match render_with(path, keys, values) {
                    Ok(s) => {
                        proof {
                            assert(vv =~= seq![vv[0], vv[1], vv[2]]);
                        }
                        Ok(s)
                    },
                    Err(e) => Err(InstallerError::TemplateError(e)),
                }
            },
        }
    }

    /// What a desktop release package holds by name: the snapshot triad
    /// and the application's entries for the target; the extra-content
    /// folder goes in whole beside them.
    pub fn release_entries(&self, application: &Application, target: PlatformOS) -> (r: Vec<
        EntryNamed,
    >)
        ensures
            r@.len() >= 3,
            r@[0] matches EntryNamed::Wildmatch(p) && p@ == "*.image"@,
            r@[1] matches EntryNamed::Wildmatch(p) && p@ == "*.changes"@,
            r@[2] matches EntryNamed::Wildmatch(p) && p@ == "*.sources"@,
    {
        let mut entries: Vec<EntryNamed> = Vec::new();
        entries.push(EntryNamed::wildmatch("*.image"));
        entries.push(EntryNamed::wildmatch("*.changes"));
        entries.push(EntryNamed::wildmatch("*.sources"));
        let folders = crate::tools::package::Package::gtoolkit_app_entries_for_target(
            application,
            target,
        );
        let n = folders.len();
        let mut i: usize = 0;
        while i < n
            invariant
                0 <= i <= n,
                n == folders@.len(),
                entries@.len() == 3 + i,
                entries@[0] matches EntryNamed::Wildmatch(p) && p@ == "*.image"@,
                entries@[1] matches EntryNamed::Wildmatch(p) && p@ == "*.changes"@,
                entries@[2] matches EntryNamed::Wildmatch(p) && p@ == "*.sources"@,
            decreases n - i,
        {
            let e = folders[i].clone_entry();
            entries.push(e);
            i = i + 1;
        }
        entries
    }

    /// The folder a release package carries whole.
    pub fn release_extra_folder(&self) -> (r: &'static str)
        ensures
            r@ == "gt-extra"@,
    {
        "gt-extra"
    }

    /// The sub-command that drives the releaser: the bump strategy, the
    /// expected image version, and the verbosity flag when it is on.
    pub fn run_releaser_command(
        &self,
        application: &Application,
        releaser_options: &ReleaserOptions,
    ) -> (r: SmalltalkCommand)
        ensures
            r.command_view() == "releasegtoolkit"@,
            r.arguments_view() == ({
                let base = Seq::<Seq<char>>::empty().push(
                    "--strategy="@ + crate::gtoolkit::bump_text_of(releaser_options.bump_spec()),
                ).push(
                    "--expected="@ + version_text_of(application.image_version_spec()),
                );
                if application.verbose_spec() {
                    base.push("--verbose"@)
                } else {
                    base
                }
            }),
    {
        let mut strategy = "--strategy=".to_owned();
        strategy.append(releaser_options.bump().to_str());
        let mut expected = "--expected=".to_owned();
        let version = application.image_version().to_text();
        expected.append(version.as_str());
        proof {
            assert(strategy@ =~= "--strategy="@ + crate::gtoolkit::bump_text_of(
                releaser_options.bump_spec(),
            ));
            assert(expected@ =~= "--expected="@ + version_text_of(
                application.image_version_spec(),
            ));
        }
        let command = SmalltalkCommand::new("releasegtoolkit").arg(strategy.as_str()).arg(
            expected.as_str(),
        );
        let r = if application.is_verbose() {
            command.arg("--verbose")
        } else {
            command
        };
        proof {
            reveal_strlit("--verbose");
            reveal_strlit("--strategy=");
            reveal_strlit("--expected=");
            assert("--verbose"@.len() > 0);
            assert(strategy@.len() > 0);
            assert(expected@.len() > 0);
            let base = Seq::<Seq<char>>::empty().push(strategy@).push(expected@);
            if application.verbose_spec() {
                assert(r.arguments_view() =~= base.push("--verbose"@));
            } else {
                assert(r.arguments_view() =~= base);
            }
        }
        r
    }

    /// The path of the phone platform's manifest beside the unpacked
    /// application.
    pub fn android_manifest_path(&self, application: &Application, target: PlatformOS) -> (r:
        String)
        ensures
            r@ == crate::paths::join_of(
                crate::tools::downloader::app_location_of(application, target),
                "AndroidManifest.xml"@,
            ),
    {
        let location = application.gtoolkit_app_location(target);
        crate::paths::join_path(location.as_str(), "AndroidManifest.xml")
    }
}

} // verus!
