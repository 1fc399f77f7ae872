use gtoolkit_installer::application::Application;
use gtoolkit_installer::platform::PlatformOS;
use gtoolkit_installer::seed::ImageSeed;
use gtoolkit_installer::state::parse_state_text;
use gtoolkit_installer::version::{AppVersion, ImageVersion, Version};

fn sample_application() -> Application {
    Application::new(
        "/tmp/ws",
        AppVersion::new(Version::new(1, 2, 3)),
        ImageVersion::new(Version::new(4, 5, 6)),
        ImageSeed::from_url("https://example.com/seed.zip"),
        PlatformOS::LinuxX8664,
    )
}

#[test]
fn state_text_is_the_expected_record() {
    let app = sample_application();
    let text = app.state_text();
    assert_eq!(
        text,
        "verbose: false\n\
         workspace: /tmp/ws\n\
         app_version: 1.2.3\n\
         app_cli_binary: ~\n\
         image_version: 4.5.6\n\
         image_name: GlamorousToolkit\n\
         image_extension: image\n\
         image_seed: url https://example.com/seed.zip\n"
    );
}

#[test]
fn save_then_load_round_trips() {
    let mut app = sample_application();
    app.set_verbose(true);
    app.set_app_cli_binary("/opt/bin/gt-cli");
    let text = app.state_text();
    let loaded = parse_state_text(text.as_str(), PlatformOS::LinuxX8664).unwrap();
    assert!(loaded.is_verbose());
    assert_eq!(loaded.workspace(), "/tmp/ws");
    assert_eq!(loaded.app_version().to_text(), "1.2.3");
    assert_eq!(loaded.image_version().to_text(), "4.5.6");
    assert_eq!(loaded.image_name(), "GlamorousToolkit");
    assert_eq!(loaded.image_extension(), "image");
    assert_eq!(loaded.app_cli_binary(), Some("/opt/bin/gt-cli"));
    assert!(matches!(loaded.image_seed(), ImageSeed::Url(u) if u == "https://example.com/seed.zip"));
}

#[test]
fn round_trip_keeps_each_seed_kind() {
    for seed in [
        ImageSeed::from_url("https://example.com/a.zip"),
        ImageSeed::from_zip("/tmp/archive.zip"),
        ImageSeed::from_image("/tmp/ws/GlamorousToolkit.image"),
    ] {
        let app = Application::new(
            "/tmp/ws",
            AppVersion::new(Version::new(0, 8, 1500)),
            ImageVersion::new(Version::new(10, 0, 7)),
            seed.clone(),
            PlatformOS::MacOSAarch64,
        );
        let text = app.state_text();
        let loaded = parse_state_text(text.as_str(), PlatformOS::MacOSAarch64).unwrap();
        match (&seed, loaded.image_seed()) {
            (ImageSeed::Url(a), ImageSeed::Url(b)) => assert_eq!(a, b),
            (ImageSeed::Zip(a), ImageSeed::Zip(b)) => assert_eq!(a, b),
            (ImageSeed::Image(a), ImageSeed::Image(b)) => assert_eq!(a, b),
            _ => panic!("the seed changed kind across the round trip"),
        }
    }
}

#[test]
fn load_replaces_the_workspace_with_the_given_one() {
    let app = sample_application();
    let text = app.state_text();
    let loaded =
        Application::from_state_text(text.as_str(), "/mnt/elsewhere", PlatformOS::LinuxX8664)
            .unwrap();
    assert_eq!(loaded.workspace(), "/mnt/elsewhere");
    assert_eq!(loaded.image_name(), "GlamorousToolkit");
}

#[test]
fn malformed_state_text_is_refused() {
    for bad in [
        "",
        "verbose: maybe\n",
        "verbose: true\n",
        "verbose: true\nworkspace: /tmp\napp_version: 1.2\napp_cli_binary: ~\nimage_version: 4.5.6\nimage_name: a\nimage_extension: image\nimage_seed: url x\n",
        "verbose: true\nworkspace: /tmp\napp_version: 1.2.3\napp_cli_binary: ~\nimage_version: 4.5.6\nimage_name: a\nimage_extension: image\nimage_seed: cd x\n",
        "verbose: true\nworkspace: /tmp\napp_version: 1.2.3\napp_cli_binary: ~\nimage_version: 4.5.6\nimage_name: a\nimage_extension: image\nimage_seed: url x\ntrailing\n",
    ] {
        let r = parse_state_text(bad, PlatformOS::LinuxX8664);
        assert!(r.is_err(), "this text should have been refused: {:?}", bad);
    }
}

#[test]
fn version_text_round_trips() {
    for v in [
        Version::new(0, 0, 0),
        Version::new(1, 2, 3),
        Version::new(10, 0, 1500),
        Version::new(u64::MAX, 1, 9),
    ] {
        let text = v.to_text();
        let parsed = Version::parse(text.as_str()).unwrap();
        assert_eq!(parsed, v);
    }
    assert_eq!(Version::new(7, 10, 2).to_text(), "7.10.2");
}

#[test]
fn version_parse_accepts_a_leading_v_and_refuses_junk() {
    assert_eq!(Version::parse("v1.2.3"), Some(Version::new(1, 2, 3)));
    assert_eq!(Version::parse("0.8.1500"), Some(Version::new(0, 8, 1500)));
    assert_eq!(Version::parse(""), None);
    assert_eq!(Version::parse("1.2"), None);
    assert_eq!(Version::parse("1.2.x"), None);
    assert_eq!(Version::parse("a.b.c"), None);
    assert_eq!(Version::parse("1.2.3.4"), None);
}

#[test]
fn set_image_seed_adopts_an_existing_snapshot() {
    let mut app = sample_application();
    app.set_image_seed(ImageSeed::from_image("/tmp/foo/Bar.image"))
        .unwrap();
    assert_eq!(app.workspace(), "/tmp/foo");
    assert_eq!(app.image_name(), "Bar");
    assert_eq!(app.image_extension(), "image");
    assert!(matches!(app.image_seed(), ImageSeed::Image(_)));
    assert_eq!(app.image(), "/tmp/foo/Bar.image");
}

#[test]
fn set_image_seed_refuses_an_unreadable_name() {
    let mut app = sample_application();
    let err = app
        .set_image_seed(ImageSeed::from_image("Bar.image"))
        .unwrap_err();
    assert_eq!(
        err.message(),
        "Failed to get a parent directory of Bar.image"
    );
    let err = app
        .set_image_seed(ImageSeed::from_image("/tmp/foo/Bar"))
        .unwrap_err();
    assert_eq!(err.message(), "Failed to read the file extension of /tmp/foo/Bar");
    let err = app
        .set_image_seed(ImageSeed::from_image("/tmp/foo/"))
        .unwrap_err();
    assert_eq!(err.message(), "Failed to read the file name of /tmp/foo/");
    // nothing changed on the failed transitions
    assert_eq!(app.workspace(), "/tmp/ws");
    assert_eq!(app.image_name(), "GlamorousToolkit");
}

#[test]
fn image_and_state_file_paths_join_under_the_workspace() {
    let app = sample_application();
    assert_eq!(app.image(), "/tmp/ws/GlamorousToolkit.image");
    assert_eq!(app.serialization_file(), "/tmp/ws/gtoolkit.yaml");
    assert_eq!(Application::serialization_file_name(), "gtoolkit.yaml");
}

#[test]
fn app_urls_name_the_release_and_platform() {
    let app = sample_application();
    assert_eq!(
        app.gtoolkit_app_url_for_target(PlatformOS::LinuxX8664),
        "https://github.com/feenkcom/gtoolkit-vm/releases/download/v1.2.3/GlamorousToolkit-x86_64-unknown-linux-gnu.zip"
    );
    assert_eq!(
        app.gtoolkit_app_url_for_target(PlatformOS::MacOSAarch64),
        "https://github.com/feenkcom/gtoolkit-vm/releases/download/v1.2.3/GlamorousToolkit-aarch64-apple-darwin.app.zip"
    );
    assert_eq!(
        app.gtoolkit_app_url_for_target(PlatformOS::AndroidAarch64),
        "https://github.com/feenkcom/gtoolkit-vm/releases/download/v1.2.3/GlamorousToolkit-aarch64-linux-android.apk"
    );
    assert_eq!(app.gtoolkit_app_host_url(), app.gtoolkit_app_url_for_target(PlatformOS::LinuxX8664));
}

#[test]
fn the_cli_binary_override_wins() {
    let mut app = sample_application();
    assert_eq!(app.gtoolkit_app_cli(), "/tmp/ws/bin/GlamorousToolkit-cli");
    assert_eq!(
        app.gtoolkit_app_cli_for_target(PlatformOS::WindowsX8664),
        "/tmp/ws/x86_64-pc-windows-msvc/bin/GlamorousToolkit-cli.exe"
    );
    app.set_app_cli_binary("/opt/custom/gt");
    assert!(app.has_explicit_app_cli_binary());
    assert_eq!(app.gtoolkit_app_cli(), "/opt/custom/gt");
}
