use vstd::prelude::*;

use crate::application::Application;
use crate::matching::EntryNamed;
use crate::platform::{is_linux, is_mac, is_windows, PlatformOS};

verus! {

/// Knows which top-level entries constitute the packaged application.
pub struct Package;

impl Package {
    /// The entries for the host platform.
    pub fn gtoolkit_app_folders(application: &Application) -> (r: Vec<EntryNamed>)
        ensures
            package_entries_described(application.host_spec(), r@),
    {
        Self::gtoolkit_app_entries_for_target(application, application.host_platform())
    }

    /// The entries for a platform: the application bundle on the Mac
    /// platforms, the binary directory on Windows, binary and library
    /// directories on Linux, the library directory on the phone platform.
    pub fn gtoolkit_app_entries_for_target(application: &Application, target: PlatformOS) -> (r:
        Vec<EntryNamed>)
        ensures
            package_entries_described(target, r@),
    {
        match target {
            PlatformOS::MacOSX8664 | PlatformOS::MacOSAarch64 => {
                let mut v: Vec<EntryNamed> = Vec::new();
                v.push(EntryNamed::exact("GlamorousToolkit.app"));
                v
            },
            PlatformOS::WindowsX8664 | PlatformOS::WindowsAarch64 => {
                let mut v: Vec<EntryNamed> = Vec::new();
                v.push(EntryNamed::exact("bin"));
                v
            },
            PlatformOS::LinuxX8664 | PlatformOS::LinuxAarch64 => {
                let mut v: Vec<EntryNamed> = Vec::new();
                v.push(EntryNamed::exact("bin"));
                v.push(EntryNamed::exact("lib"));
                v
            },
            PlatformOS::AndroidAarch64 => {
                let mut v: Vec<EntryNamed> = Vec::new();
                v.push(EntryNamed::exact("lib"));
                v
            },
        }
    }
}

/// The packaged entries of each platform, spelled out.
pub open spec fn package_entries_described(target: PlatformOS, entries: Seq<EntryNamed>) -> bool {
    &&& is_mac(target) ==> entries.len() == 1 && (entries[0] matches EntryNamed::Exact(n) && n@
        == "GlamorousToolkit.app"@)
    &&& is_windows(target) ==> entries.len() == 1 && (entries[0] matches EntryNamed::Exact(n)
        && n@ == "bin"@)
    &&& is_linux(target) ==> entries.len() == 2 && (entries[0] matches EntryNamed::Exact(n) && n@
        == "bin"@) && (entries[1] matches EntryNamed::Exact(n) && n@ == "lib"@)
    &&& target == PlatformOS::AndroidAarch64 ==> entries.len() == 1 && (
    entries[0] matches EntryNamed::Exact(n) && n@ == "lib"@)
}

} // verus!
