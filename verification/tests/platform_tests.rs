use gtoolkit_installer::platform::{
    app_binary_relative, app_cli_relative, pharo_executable_for, pharo_vm_url_for, PlatformOS,
};

const ALL_TARGETS: [PlatformOS; 7] = [
    PlatformOS::MacOSX8664,
    PlatformOS::MacOSAarch64,
    PlatformOS::WindowsX8664,
    PlatformOS::WindowsAarch64,
    PlatformOS::LinuxX8664,
    PlatformOS::LinuxAarch64,
    PlatformOS::AndroidAarch64,
];

#[test]
fn every_target_has_a_nonempty_triple() {
    for target in ALL_TARGETS {
        assert!(!target.as_str().is_empty());
    }
}

#[test]
fn every_target_has_a_nonempty_cli_path() {
    for target in ALL_TARGETS {
        assert!(!app_cli_relative(target).is_empty());
    }
}

#[test]
fn windows_binaries_end_in_exe() {
    for target in [PlatformOS::WindowsX8664, PlatformOS::WindowsAarch64] {
        assert!(app_cli_relative(target).ends_with(".exe"));
        assert!(app_binary_relative(target).ends_with(".exe"));
    }
}

#[test]
fn mac_binaries_sit_in_the_app_bundle() {
    for target in [PlatformOS::MacOSX8664, PlatformOS::MacOSAarch64] {
        assert!(app_cli_relative(target).contains(".app/Contents/MacOS"));
        assert!(app_binary_relative(target).contains(".app/Contents/MacOS"));
    }
}

#[test]
fn platform_triples_are_exact() {
    assert_eq!(PlatformOS::MacOSX8664.as_str(), "x86_64-apple-darwin");
    assert_eq!(PlatformOS::MacOSAarch64.as_str(), "aarch64-apple-darwin");
    assert_eq!(PlatformOS::WindowsX8664.as_str(), "x86_64-pc-windows-msvc");
    assert_eq!(PlatformOS::WindowsAarch64.as_str(), "aarch64-pc-windows-msvc");
    assert_eq!(PlatformOS::LinuxX8664.as_str(), "x86_64-unknown-linux-gnu");
    assert_eq!(PlatformOS::LinuxAarch64.as_str(), "aarch64-unknown-linux-gnu");
    assert_eq!(PlatformOS::AndroidAarch64.as_str(), "aarch64-linux-android");
}

#[test]
fn host_resolution_covers_the_closed_set() {
    assert_eq!(
        PlatformOS::from_os_arch("macos", "aarch64"),
        Some(PlatformOS::MacOSAarch64)
    );
    assert_eq!(
        PlatformOS::from_os_arch("macos", "x86_64"),
        Some(PlatformOS::MacOSX8664)
    );
    assert_eq!(
        PlatformOS::from_os_arch("linux", "x86_64"),
        Some(PlatformOS::LinuxX8664)
    );
    assert_eq!(
        PlatformOS::from_os_arch("linux", "aarch64"),
        Some(PlatformOS::LinuxAarch64)
    );
    assert_eq!(
        PlatformOS::from_os_arch("windows", "x86_64"),
        Some(PlatformOS::WindowsX8664)
    );
    assert_eq!(
        PlatformOS::from_os_arch("windows", "aarch64"),
        Some(PlatformOS::WindowsAarch64)
    );
    assert_eq!(PlatformOS::from_os_arch("freebsd", "x86_64"), None);
    assert_eq!(PlatformOS::from_os_arch("linux", "riscv64"), None);
}

#[test]
fn only_android_lacks_a_base_interpreter() {
    for target in ALL_TARGETS {
        let is_android = target == PlatformOS::AndroidAarch64;
        assert_eq!(target.is_android(), is_android);
        assert_eq!(pharo_vm_url_for(target).is_none(), is_android);
        assert_eq!(pharo_executable_for(target).is_none(), is_android);
    }
}
