use gtoolkit_installer::application::Application;
use gtoolkit_installer::matching::EntryNamed;
use gtoolkit_installer::moving::file::FileToMove;
use gtoolkit_installer::moving::folder::FolderToMove;
use gtoolkit_installer::options::AppOptions;
use gtoolkit_installer::paths::{
    dotted_name, extension_part, file_name_part, join_path, parent_part, stem_part,
    with_file_name_path,
};
use gtoolkit_installer::platform::PlatformOS;
use gtoolkit_installer::seed::ImageSeed;
use gtoolkit_installer::tools::copier::Copier;
use gtoolkit_installer::tools::packager::Packager;
use gtoolkit_installer::tools::tentative::Tentative;
use gtoolkit_installer::error::InstallerError;
use gtoolkit_installer::tools::builder::require_key_exists;
use gtoolkit_installer::version::{AppVersion, ImageVersion, Version};
use gtoolkit_installer::zipping::{zip_file_entry_name, zip_folder_entry_name, ToZip, ZipMember};

fn sample_application(host: PlatformOS) -> Application {
    Application::new(
        "/tmp/ws",
        AppVersion::new(Version::new(1, 0, 0)),
        ImageVersion::new(Version::new(2, 0, 0)),
        ImageSeed::from_url("https://example.com/seed.zip"),
        host,
    )
}

#[test]
fn path_parts_split_as_expected() {
    assert_eq!(join_path("/tmp/ws", "a.image"), "/tmp/ws/a.image");
    assert_eq!(join_path("/tmp/ws/", "a.image"), "/tmp/ws/a.image");
    assert_eq!(join_path("", "a.image"), "a.image");
    assert_eq!(file_name_part("/tmp/foo/Bar.image"), "Bar.image");
    assert_eq!(file_name_part("Bar.image"), "Bar.image");
    assert_eq!(parent_part("/tmp/foo/Bar.image"), Some("/tmp/foo".to_string()));
    assert_eq!(parent_part("/x"), Some("/".to_string()));
    assert_eq!(parent_part("Bar.image"), None);
    assert_eq!(stem_part("/tmp/foo/Bar.image"), "Bar");
    assert_eq!(stem_part("/tmp/foo/Bar"), "Bar");
    assert_eq!(extension_part("/tmp/foo/Bar.image"), Some("image".to_string()));
    assert_eq!(extension_part("/tmp/foo/Bar"), None);
    assert_eq!(extension_part("/tmp/foo/.hidden"), None);
    assert_eq!(
        with_file_name_path("/tmp/foo/Bar.image", "New.image"),
        "/tmp/foo/New.image"
    );
    assert_eq!(dotted_name("Bar", "image"), "Bar.image");
}

#[test]
fn archive_entry_names_fall_below_the_zipped_folder() {
    assert_eq!(zip_file_entry_name("/tmp/ws/a.image"), "a.image");
    assert_eq!(
        zip_folder_entry_name("/tmp/ws/gt-extra", "/tmp/ws/gt-extra/logo.png"),
        Some("gt-extra/logo.png".to_string())
    );
    assert_eq!(
        zip_folder_entry_name("/tmp/ws/gt-extra", "/tmp/ws/gt-extra"),
        Some("gt-extra".to_string())
    );
    assert_eq!(zip_folder_entry_name("/tmp/ws/gt-extra", "/var/other"), None);
    assert_eq!(zip_folder_entry_name("gt-extra", "gt-extra/x"), None);
}

#[test]
fn archives_remember_their_members_in_order() {
    let mut to_zip = ToZip::new("/tmp/out.zip")
        .one_entry(EntryNamed::wildmatch("*.image"), "/tmp/ws")
        .folder("/tmp/ws/gt-extra");
    to_zip.add_file("/tmp/Dockerfile");
    assert_eq!(to_zip.path(), "/tmp/out.zip");
    assert_eq!(to_zip.member_count(), 3);
    assert!(matches!(to_zip.member_at(0), ZipMember::Entry(_, d) if d == "/tmp/ws"));
    assert!(matches!(to_zip.member_at(1), ZipMember::Folder(f) if f == "/tmp/ws/gt-extra"));
    assert!(matches!(to_zip.member_at(2), ZipMember::File(f) if f == "/tmp/Dockerfile"));
}

#[test]
fn relative_workspaces_anchor_under_the_current_directory() {
    let relative = AppOptions::new(false, "glamoroustoolkit");
    assert_eq!(relative.workspace("/home/dev"), "/home/dev/glamoroustoolkit");
    let absolute = AppOptions::new(true, "/srv/gt");
    assert_eq!(absolute.workspace("/home/dev"), "/srv/gt");
    assert!(absolute.verbose());
}

#[test]
fn copies_carry_the_snapshot_state_and_app_entries() {
    let application = sample_application(PlatformOS::LinuxX8664);
    let entries = Copier::new().entries_to_copy(&application);
    assert_eq!(entries.len(), 7);
    assert!(entries[0].selects("GlamorousToolkit.image"));
    assert!(entries[1].selects("GlamorousToolkit.changes"));
    assert!(entries[2].selects("Pharo10.0.sources"));
    assert!(entries[3].selects("gtoolkit.yaml"));
    assert!(entries[4].selects("gt-extra"));
    assert!(entries[5].selects("bin"));
    assert!(entries[6].selects("lib"));
    let on_mac = sample_application(PlatformOS::MacOSAarch64);
    let entries = Copier::new().entries_to_copy(&on_mac);
    assert_eq!(entries.len(), 6);
    assert!(entries[5].selects("GlamorousToolkit.app"));
}

#[test]
fn tentative_packages_hold_the_triad_and_the_state() {
    let application = sample_application(PlatformOS::WindowsX8664);
    let entries = Tentative::new().package_entries(&application);
    assert_eq!(entries.len(), 5);
    assert!(entries[3].selects("gtoolkit.yaml"));
    assert!(entries[4].selects("bin"));
    let tentative = Tentative::new();
    assert!(tentative.should_package_gt_extra(true, true));
    assert!(tentative.should_package_gt_extra(false, false));
    assert!(!tentative.should_package_gt_extra(false, true));
}

#[test]
fn image_packages_filter_the_triad_and_version_file() {
    let filters = Packager::new().package_image_filters("gtoolkit.version");
    assert_eq!(filters.len(), 4);
    assert!(filters[3].selects("gtoolkit.version"));
    assert!(!filters[3].selects("other.version"));
    assert_eq!(
        Packager::new().tentative_archive_name(),
        "GlamorousToolkit-tentative.zip"
    );
}

#[test]
fn app_entries_follow_the_host() {
    let on_linux = sample_application(PlatformOS::LinuxX8664);
    let entries = on_linux.gtoolkit_app_entries();
    assert_eq!(entries.len(), 2);
    assert!(entries[0].selects("bin"));
    assert!(entries[1].selects("lib"));
    let on_mac = sample_application(PlatformOS::MacOSX8664);
    let entries = on_mac.gtoolkit_app_entries();
    assert_eq!(entries.len(), 1);
    assert!(entries[0].selects("GlamorousToolkit.app"));
}

#[test]
fn moves_and_tree_copies_compute_their_targets() {
    let file = FileToMove::new("/tmp/seed/Pharo.sources", "/tmp/ws");
    assert_eq!(
        file.destination_path(true, "Pharo.sources"),
        "/tmp/ws/Pharo.sources"
    );
    assert_eq!(file.destination_path(false, "Pharo.sources"), "/tmp/ws");
    let folder = FolderToMove::new("/tmp/seed", "/tmp/ws");
    assert_eq!(
        folder.destination_for("/tmp/seed/sub/file.txt"),
        Some("/tmp/ws/sub/file.txt".to_string())
    );
    assert_eq!(folder.destination_for("/tmp/seed"), Some("/tmp/ws".to_string()));
    assert_eq!(folder.destination_for("/var/elsewhere"), None);
}

#[test]
fn the_cleanup_expression_scrubs_and_collects() {
    let application = sample_application(PlatformOS::LinuxX8664);
    let expression = gtoolkit_installer::tools::cleaner::Cleaner::new()
        .clean_up_expression(&application);
    assert_eq!(
        expression.expression(),
        "IceCredentialsProvider sshCredentials publicKey: ''; privateKey: ''.\
         IceCredentialsProvider useCustomSsh: false.\
         IceRepository registry removeAll.\
         3 timesRepeat: [ Smalltalk garbageCollect ]"
    );
}

#[test]
fn example_runs_name_their_flags() {
    let mut application = sample_application(PlatformOS::LinuxX8664);
    application.set_verbose(true);
    let gtoolkit = application.gtoolkit();
    let command = gtoolkit.run_examples_command(
        &vec!["PackageA".to_string(), "".to_string(), "PackageB".to_string()],
        true,
        Some("--skip-packages=\"Skipped\"".to_string()),
    );
    assert_eq!(command.name(), "examples");
    let evaluator =
        gtoolkit_installer::smalltalk::evaluator::SmalltalkEvaluator::new(&gtoolkit);
    let invocation = command.create_command(&evaluator, true);
    let args: Vec<&str> = (0..invocation.arg_count())
        .map(|i| invocation.arg_at(i))
        .collect();
    assert_eq!(
        args,
        [
            "/tmp/ws/GlamorousToolkit.image",
            "examples",
            "PackageA",
            "PackageB",
            "--junit-xml-output",
            "--verbose",
            "--disable-deprecation-rewrites",
            "--skip-packages=\"Skipped\""
        ]
    );
}

#[test]
fn credential_presteps_quote_the_key_paths() {
    let builder = gtoolkit_installer::tools::builder::Builder::new();
    let expression = builder.ssh_credentials_expression("/k/private", "/k/public");
    assert_eq!(
        expression.expression(),
        "IceCredentialsProvider useCustomSsh: true.\
         IceCredentialsProvider sshCredentials publicKey: '/k/private'; privateKey: '/k/public'"
    );
}

#[test]
fn key_existence_is_demanded_per_key() {
    assert!(require_key_exists("/k/private", true, false).is_ok());
    let err = require_key_exists("/k/private", false, false).unwrap_err();
    assert!(matches!(&err, InstallerError::PrivateKeyDoesNotExist(p) if p == "/k/private"));
    let err = require_key_exists("/k/public", false, true).unwrap_err();
    assert_eq!(err.message(), "Specified public key /k/public does not exist");
}

#[test]
fn interactive_evaluators_inherit_their_output_settings() {
    let application = sample_application(PlatformOS::LinuxX8664);
    let gtoolkit = application.gtoolkit();
    let mut evaluator =
        gtoolkit_installer::smalltalk::evaluator::SmalltalkEvaluator::new(&gtoolkit);
    assert!(evaluator.should_quit());
    assert!(!evaluator.should_save());
    assert!(!evaluator.wants_interactive());
    evaluator.interactive(true);
    evaluator.quit(false);
    evaluator.save(true);
    assert!(evaluator.wants_interactive());
    assert!(!evaluator.should_quit());
    assert!(evaluator.should_save());
    assert_eq!(evaluator.interactive_or_headless_flag(), Some("--interactive"));
    evaluator.interactive(false);
    assert_eq!(evaluator.interactive_or_headless_flag(), None);
}
