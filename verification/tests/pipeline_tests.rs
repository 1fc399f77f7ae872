use gtoolkit_installer::application::Application;
use gtoolkit_installer::download::check_probe;
use gtoolkit_installer::error::InstallerError;
use gtoolkit_installer::platform::PlatformOS;
use gtoolkit_installer::seed::ImageSeed;
use gtoolkit_installer::state::parse_state_text;
use gtoolkit_installer::tools::builder::{BuildOptions, BuildVersion, Builder, Loader};
use gtoolkit_installer::tools::checker::{Checker, WorkspaceAction};
use gtoolkit_installer::tools::downloader::Downloader;
use gtoolkit_installer::tools::release::{Release, ReleaserOptions};
use gtoolkit_installer::tools::renamer::{RenameOptions, Renamer};
use gtoolkit_installer::tools::setup::SetupTarget;
use gtoolkit_installer::tools::starter::{Starter, StartOptions};
use gtoolkit_installer::tools::tester::TestOptions;
use gtoolkit_installer::urls::validate_url;
use gtoolkit_installer::version::{AppVersion, ImageVersion, Version, VersionBump};

fn sample_application() -> Application {
    Application::new(
        "/tmp/glamoroustoolkit",
        AppVersion::new(Version::new(1, 0, 500)),
        ImageVersion::new(Version::new(4, 2, 0)),
        ImageSeed::from_url("https://example.com/seed.zip"),
        PlatformOS::LinuxX8664,
    )
}

#[test]
fn a_fresh_build_creates_the_workspace_and_persists_state_before_fetching() {
    let mut application = sample_application();
    let build_options = BuildOptions::new();

    // the workspace does not exist, no overwrite was asked: it is created
    let action = Checker::new()
        .plan(&application, false, build_options.should_overwrite())
        .unwrap();
    assert_eq!(action, WorkspaceAction::Create);

    // the seed is adopted and the state written before any fetch
    application.set_image_seed(build_options.image_seed()).unwrap();
    let state = application.state_text();
    assert_eq!(state.matches('\n').count(), 8);

    // one fetch answers with a simulated missing artifact
    let url = application.gtoolkit_app_host_url();
    let failure = check_probe(url.as_str(), 404, false).unwrap_err();
    let message = failure.message();
    assert!(message.contains(url.as_str()));
    assert!(message.contains("404"));

    // the state file text is still a readable record: a second invocation
    // would recognise the workspace as provisioned
    let reloaded = parse_state_text(state.as_str(), PlatformOS::LinuxX8664).unwrap();
    assert_eq!(reloaded.workspace(), "/tmp/glamoroustoolkit");
}

#[test]
fn an_existing_workspace_is_refused_without_overwrite() {
    let application = sample_application();
    let err = Checker::new().plan(&application, true, false).unwrap_err();
    assert!(matches!(&err, InstallerError::WorkspaceAlreadyExists(p) if p == "/tmp/glamoroustoolkit"));
    assert_eq!(
        err.message(),
        "Workspace already exists: /tmp/glamoroustoolkit"
    );
    let action = Checker::new().plan(&application, true, true).unwrap();
    assert_eq!(action, WorkspaceAction::RemoveThenCreate);
}

#[test]
fn building_beside_a_snapshot_leaves_the_directory_alone() {
    let mut application = sample_application();
    application
        .set_image_seed(ImageSeed::from_image("/tmp/foo/Bar.image"))
        .unwrap();
    let action = Checker::new().plan(&application, true, false).unwrap();
    assert_eq!(action, WorkspaceAction::LeaveAlone);
}

#[test]
fn seeds_pick_their_downloads_and_expansions() {
    let application = sample_application();
    let url_seed = ImageSeed::from_url("https://example.com/seed.zip");
    let download = url_seed.file_to_download(&application).unwrap();
    assert_eq!(download.url(), "https://example.com/seed.zip");
    assert_eq!(download.path(), "/tmp/glamoroustoolkit/seed-image.zip");
    let unzip = url_seed.file_to_unzip(&application).unwrap();
    assert_eq!(unzip.archive(), "/tmp/glamoroustoolkit/seed-image.zip");
    assert_eq!(unzip.output(), "/tmp/glamoroustoolkit/seed-image");

    let zip_seed = ImageSeed::from_zip("/tmp/archive.zip");
    assert!(zip_seed.file_to_download(&application).is_none());
    assert_eq!(
        zip_seed.file_to_unzip(&application).unwrap().archive(),
        "/tmp/archive.zip"
    );

    let image_seed = ImageSeed::from_image("/tmp/foo/Bar.image");
    assert!(image_seed.file_to_download(&application).is_none());
    assert!(image_seed.file_to_unzip(&application).is_none());
    assert_eq!(image_seed.seed_image_directory(&application), "/tmp/foo");
    assert_eq!(image_seed.target_image_directory(&application), "/tmp/foo");
    assert_eq!(
        url_seed.target_image_directory(&application),
        "/tmp/glamoroustoolkit"
    );
}

#[test]
fn build_options_choose_their_seed_in_order() {
    let mut options = BuildOptions::new();
    assert!(matches!(
        options.image_seed(),
        ImageSeed::Url(u) if u.starts_with("https://dl.feenk.com/pharo/")
    ));
    options.set_image_file("/tmp/a.image");
    assert!(matches!(options.image_seed(), ImageSeed::Image(_)));
    options.set_image_url("https://example.com/i.zip");
    assert!(matches!(options.image_seed(), ImageSeed::Url(_)));
    options.set_image_zip("/tmp/i.zip");
    assert!(matches!(options.image_seed(), ImageSeed::Zip(_)));
}

#[test]
fn ssh_keys_come_in_pairs_or_not_at_all() {
    let mut options = BuildOptions::new();
    assert!(options.ssh_keys().unwrap().is_none());
    options.set_private_key("/home/u/.ssh/id_rsa");
    let err = options.ssh_keys().unwrap_err();
    assert!(matches!(err, InstallerError::SshKeysConfigurationError(_, _)));
    options.set_public_key("/home/u/.ssh/id_rsa.pub");
    let (private_key, public_key) = options.ssh_keys().unwrap().unwrap();
    assert_eq!(private_key, "/home/u/.ssh/id_rsa");
    assert_eq!(public_key, "/home/u/.ssh/id_rsa.pub");
}

#[test]
fn loader_and_version_choices_parse() {
    assert_eq!(Loader::parse("cloner").unwrap(), Loader::Cloner);
    assert_eq!(Loader::parse("Metacello").unwrap(), Loader::Metacello);
    assert!(matches!(
        Loader::parse("other"),
        Err(InstallerError::LoaderParseError(_))
    ));
    assert!(matches!(
        BuildVersion::parse("latest-release").unwrap(),
        BuildVersion::LatestRelease
    ));
    assert!(matches!(
        BuildVersion::parse("Bleeding-Edge").unwrap(),
        BuildVersion::BleedingEdge
    ));
    assert!(matches!(
        BuildVersion::parse("v1.2.3").unwrap(),
        BuildVersion::Version(v) if v == Version::new(1, 2, 3)
    ));
    assert!(BuildVersion::parse("wild").is_err());
    assert_eq!(SetupTarget::parse("Release"), Some(SetupTarget::Release));
    assert_eq!(SetupTarget::parse("local-build"), Some(SetupTarget::LocalBuild));
    assert_eq!(SetupTarget::parse("other"), None);
}

#[test]
fn version_tags_resolve_per_choice() {
    let builder = Builder::new();
    assert_eq!(
        builder
            .gtoolkit_version_tag(&BuildVersion::BleedingEdge, None)
            .unwrap(),
        "main"
    );
    assert_eq!(
        builder
            .gtoolkit_version_tag(&BuildVersion::Version(Version::new(4, 2, 0)), None)
            .unwrap(),
        "v4.2.0"
    );
    assert_eq!(
        builder
            .gtoolkit_version_tag(
                &BuildVersion::LatestRelease,
                Some(ImageVersion::new(Version::new(7, 7, 7)))
            )
            .unwrap(),
        "v7.7.7"
    );
    assert!(builder
        .gtoolkit_version_tag(&BuildVersion::LatestRelease, None)
        .is_err());
    assert_eq!(
        builder.releaser_version_file_url("v4.2.0"),
        "https://raw.githubusercontent.com/feenkcom/gtoolkit/v4.2.0/gtoolkit-releaser.version"
    );
    assert!(builder.releaser_version_check("https://x", 200).is_ok());
    let err = builder.releaser_version_check("https://x", 404).unwrap_err();
    assert!(matches!(err, InstallerError::FailedToDownloadReleaserVersion(_, 404)));
    assert_eq!(builder.releaser_version_tag("1.2.3").unwrap(), "v1.2.3");
    assert!(builder.releaser_version_tag("nonsense").is_err());
    assert_eq!(builder.loader_script_file_name("v4.2.0"), "load-gt-v4.2.0.st");
}

#[test]
fn the_vm_download_names_its_file_by_platform_and_version() {
    let application = sample_application();
    let own = Downloader::gtoolkit_vm_to_download(&application, PlatformOS::LinuxX8664);
    assert_eq!(own.file_name(), "GlamorousToolkitApp-v1.0.500.zip");
    assert_eq!(own.directory(), "/tmp/glamoroustoolkit");
    let foreign = Downloader::gtoolkit_vm_to_download(&application, PlatformOS::MacOSAarch64);
    assert_eq!(
        foreign.file_name(),
        "GlamorousToolkitApp-aarch64-apple-darwin-v1.0.500.zip"
    );
    assert_eq!(
        foreign.directory(),
        "/tmp/glamoroustoolkit/aarch64-apple-darwin"
    );
    let phone = Downloader::gtoolkit_vm_to_download(&application, PlatformOS::AndroidAarch64);
    assert_eq!(
        phone.file_name(),
        "GlamorousToolkitApp-aarch64-linux-android-v1.0.500.apk"
    );
}

#[test]
fn the_build_stage_plans_fetch_machine_app_and_seed() {
    let mut application = sample_application();
    application.set_image_seed(ImageSeed::from_url("https://example.com/seed.zip")).unwrap();
    let builder = Builder::new();
    let url = builder.pharo_vm_url(&application, &BuildOptions::new());
    let downloads = builder.build_downloads(&application, url.as_str());
    assert_eq!(downloads.len(), 3);
    assert!(downloads.get(0).file_name().starts_with("GlamorousToolkitApp-v"));
    assert_eq!(downloads.get(1).file_name(), "pharo-vm.zip");
    assert_eq!(downloads.get(2).file_name(), "seed-image.zip");
    let unzips = builder.build_unzips(&application);
    assert_eq!(unzips.len(), 3);
    assert_eq!(unzips.get(1).archive(), "/tmp/glamoroustoolkit/pharo-vm.zip");
    assert_eq!(unzips.get(1).output(), "/tmp/glamoroustoolkit/pharo-vm");
    assert_eq!(unzips.get(2).output(), "/tmp/glamoroustoolkit/seed-image");

    // beside an existing snapshot nothing is staged for the seed
    application.set_image_seed(ImageSeed::from_image("/tmp/foo/Bar.image")).unwrap();
    let unzips = builder.build_unzips(&application);
    assert_eq!(unzips.len(), 2);
}

#[test]
fn an_explicit_binary_suppresses_the_vm_download() {
    let mut application = sample_application();
    application.set_app_cli_binary("/opt/custom/gt");
    assert_eq!(
        Downloader::files_to_download(&application, PlatformOS::LinuxX8664).len(),
        0
    );
    assert_eq!(
        Downloader::files_to_unzip(&application, PlatformOS::LinuxX8664).len(),
        0
    );
    let plain = sample_application();
    assert_eq!(
        Downloader::files_to_download(&plain, PlatformOS::LinuxX8664).len(),
        1
    );
}

#[test]
fn release_paths_render_their_placeholders() {
    let application = sample_application();
    let release = Release::new();
    let rendered = release
        .process_template_path(
            &application,
            "GlamorousToolkit-{{os}}-{{arch}}-v{{version}}.zip",
            PlatformOS::MacOSAarch64,
        )
        .unwrap();
    assert_eq!(rendered, "GlamorousToolkit-MacOS-aarch64-v4.2.0.zip");
    let nested = release
        .process_template_path(
            &application,
            "out/{{os}}/release-{{version}}.zip",
            PlatformOS::WindowsX8664,
        )
        .unwrap();
    assert_eq!(nested, "out/Windows/release-4.2.0.zip");
    let plain = release
        .process_template_path(&application, "plain.zip", PlatformOS::LinuxX8664)
        .unwrap();
    assert_eq!(plain, "plain.zip");
    let broken = release
        .process_template_path(&application, "{{unclosed", PlatformOS::LinuxX8664)
        .unwrap_err();
    assert!(matches!(broken, InstallerError::TemplateError(_)));
    // a partial tag would make rendering read another file: refused up front
    let partial = release
        .process_template_path(&application, "{{>part}}.zip", PlatformOS::LinuxX8664)
        .unwrap_err();
    assert!(matches!(partial, InstallerError::TemplateError(_)));
    let implicit = release
        .process_template_path(&application, "{{.}}.zip", PlatformOS::LinuxX8664)
        .unwrap_err();
    assert!(matches!(implicit, InstallerError::TemplateError(_)));
}

#[test]
fn loader_templates_render_their_version_tags() {
    let builder = Builder::new();
    let script = builder
        .render_loader_script(
            "load: '{{gtoolkit_version}}' releaser: '{{releaser_version}}'",
            "v4.2.0",
            "v1.0.0",
        )
        .unwrap();
    assert_eq!(script, "load: 'v4.2.0' releaser: 'v1.0.0'");
    let refused = builder
        .render_loader_script("{{=<% %>=}}", "v4.2.0", "v1.0.0")
        .unwrap_err();
    assert!(matches!(refused, InstallerError::TemplateError(_)));
}

#[test]
fn the_releaser_command_names_strategy_and_expectation() {
    let application = sample_application();
    let release = Release::new();
    let command =
        release.run_releaser_command(&application, &ReleaserOptions::new(VersionBump::Minor));
    assert_eq!(command.name(), "releasegtoolkit");
    let evaluator = gtoolkit_installer::smalltalk::evaluator::SmalltalkEvaluator::new(
        &application.gtoolkit(),
    );
    let invocation = command.create_command(&evaluator, true);
    let args: Vec<&str> = (0..invocation.arg_count())
        .map(|i| invocation.arg_at(i))
        .collect();
    assert!(args.contains(&"--strategy=minor"));
    assert!(args.contains(&"--expected=4.2.0"));
}

#[test]
fn the_start_expression_waits_then_snapshots() {
    let start = Starter::new().start_expression(&StartOptions::default());
    assert_eq!(
        start.expression(),
        "GtWorld openDefault.\
         5000 milliSeconds wait.\
         GtSpaceTallyHistory recordDefaultSystemWideDataLabeled: 'Open Default GtWorld End'.\
         BlHost pickHost universe snapshot: true andQuit: true"
    );
    let custom = Starter::new().start_expression(&StartOptions::new(250, "GtWorld openDefault"));
    assert!(custom.expression().contains("250 milliSeconds wait"));
}

#[test]
fn renaming_builds_the_save_command_and_paths() {
    let application = sample_application();
    let renamer = Renamer::new();
    let options = RenameOptions::new("MyImage");
    let command = renamer.rename_command(&options);
    assert_eq!(command.name(), "save");
    assert_eq!(
        renamer.new_image_path(&application, &options),
        "/tmp/glamoroustoolkit/MyImage.image"
    );
    assert_eq!(
        renamer.current_changes_path(&application),
        "/tmp/glamoroustoolkit/GlamorousToolkit.changes"
    );
}

#[test]
fn skip_packages_render_inside_quotes() {
    let options = TestOptions::new(
        None,
        false,
        false,
        Some(vec!["PackageA".to_string(), "PackageB".to_string()]),
    );
    assert_eq!(
        options.skip_packages_argument(),
        "--skip-packages=\"PackageA,PackageB\""
    );
    let none = TestOptions::new(None, false, false, None);
    assert_eq!(none.skip_packages_argument(), "");
}

#[test]
fn addresses_are_checked_before_use() {
    assert!(validate_url("https://dl.feenk.com/pharo/a.zip").is_ok());
    let err = validate_url("not a url at all").unwrap_err();
    assert!(matches!(&err, InstallerError::UrlParseError(t) if t == "not a url at all"));
    assert!(validate_url(gtoolkit_installer::application::DEFAULT_PHARO_IMAGE).is_ok());
}

#[test]
fn oracle_answers_translate_to_versions_or_failures() {
    let v = Application::vm_version_from_oracle(Some(Version::new(1, 2, 3))).unwrap();
    assert_eq!(v.to_text(), "1.2.3");
    assert!(matches!(
        Application::vm_version_from_oracle(None).unwrap_err(),
        InstallerError::FailedToDetectGlamorousAppVersion
    ));
    assert!(matches!(
        Application::image_version_from_oracle(None).unwrap_err(),
        InstallerError::FailedToDetectGlamorousImageVersion
    ));
}
