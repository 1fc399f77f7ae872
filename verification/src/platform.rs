use vstd::prelude::*;

use crate::matching::EntryNamed;
use crate::strutil::{contains_seq, has_suffix, str_eq};

verus! {

/// The closed set of operating-system / architecture pairs that releases
/// exist for.
#[derive(Clone, Copy, Debug, PartialEq, Eq, Structural)]
pub enum PlatformOS {
    MacOSX8664,
    MacOSAarch64,
    WindowsX8664,
    WindowsAarch64,
    LinuxX8664,
    LinuxAarch64,
    AndroidAarch64,
}

pub open spec fn is_mac(t: PlatformOS) -> bool {
    t == PlatformOS::MacOSX8664 || t == PlatformOS::MacOSAarch64
}

pub open spec fn is_windows(t: PlatformOS) -> bool {
    t == PlatformOS::WindowsX8664 || t == PlatformOS::WindowsAarch64
}

pub open spec fn is_linux(t: PlatformOS) -> bool {
    t == PlatformOS::LinuxX8664 || t == PlatformOS::LinuxAarch64
}

/// The target triple naming a platform.
pub open spec fn triple_of(t: PlatformOS) -> Seq<char> {
    match t {
        PlatformOS::MacOSX8664 => "x86_64-apple-darwin"@,
        PlatformOS::MacOSAarch64 => "aarch64-apple-darwin"@,
        PlatformOS::WindowsX8664 => "x86_64-pc-windows-msvc"@,
        PlatformOS::WindowsAarch64 => "aarch64-pc-windows-msvc"@,
        PlatformOS::LinuxX8664 => "x86_64-unknown-linux-gnu"@,
        PlatformOS::LinuxAarch64 => "aarch64-unknown-linux-gnu"@,
        PlatformOS::AndroidAarch64 => "aarch64-linux-android"@,
    }
}

/// The platform that a host with the given OS and architecture names runs,
/// as `std::env::consts` spells them; hosts outside the closed set resolve
/// to nothing.
pub open spec fn host_target_of(os: Seq<char>, arch: Seq<char>) -> Option<PlatformOS> {
    if os == "macos"@ && arch == "aarch64"@ {
        Some(PlatformOS::MacOSAarch64)
    } else if os == "macos"@ && arch == "x86_64"@ {
        Some(PlatformOS::MacOSX8664)
    } else if os == "linux"@ && arch == "x86_64"@ {
        Some(PlatformOS::LinuxX8664)
    } else if os == "linux"@ && arch == "aarch64"@ {
        Some(PlatformOS::LinuxAarch64)
    } else if os == "windows"@ && arch == "x86_64"@ {
        Some(PlatformOS::WindowsX8664)
    } else if os == "windows"@ && arch == "aarch64"@ {
        Some(PlatformOS::WindowsAarch64)
    } else {
        None
    }
}

/// The path of the windowed application binary, relative to where the app
/// was unpacked; there is none on the phone platform.
pub open spec fn app_binary_relative_of(t: PlatformOS) -> Seq<char> {
    if is_mac(t) {
        "GlamorousToolkit.app/Contents/MacOS/GlamorousToolkit"@
    } else if is_windows(t) {
        "bin/GlamorousToolkit.exe"@
    } else {
        "bin/GlamorousToolkit"@
    }
}

/// The path of the command-line interface binary, relative to where the app
/// was unpacked.
pub open spec fn app_cli_relative_of(t: PlatformOS) -> Seq<char> {
    if is_mac(t) {
        "GlamorousToolkit.app/Contents/MacOS/GlamorousToolkit-cli"@
    } else if is_windows(t) {
        "bin/GlamorousToolkit-cli.exe"@
    } else if is_linux(t) {
        "bin/GlamorousToolkit-cli"@
    } else {
        "lib/arm64-v8a/libvm_client_android.so"@
    }
}

/// The archive suffix that a platform's app release carries.
pub open spec fn app_archive_suffix_of(t: PlatformOS) -> Seq<char> {
    if is_mac(t) {
        ".app.zip"@
    } else if t == PlatformOS::AndroidAarch64 {
        ".apk"@
    } else {
        ".zip"@
    }
}

/// The address the app release for a platform and version is downloaded from.
pub open spec fn app_url_of(t: PlatformOS, version_text: Seq<char>) -> Seq<char> {
    "https://github.com/feenkcom/gtoolkit-vm/releases/download/v"@ + version_text
        + "/GlamorousToolkit-"@ + triple_of(t) + app_archive_suffix_of(t)
}

impl PlatformOS {
    /// The target triple naming this platform.
    pub fn as_str(&self) -> (r: &'static str)
        ensures
            r@ == triple_of(*self),
    {
        match self {
            PlatformOS::MacOSX8664 => "x86_64-apple-darwin",
            PlatformOS::MacOSAarch64 => "aarch64-apple-darwin",
            PlatformOS::WindowsX8664 => "x86_64-pc-windows-msvc",
            PlatformOS::WindowsAarch64 => "aarch64-pc-windows-msvc",
            PlatformOS::LinuxX8664 => "x86_64-unknown-linux-gnu",
            PlatformOS::LinuxAarch64 => "aarch64-unknown-linux-gnu",
            PlatformOS::AndroidAarch64 => "aarch64-linux-android",
        }
    }

    pub fn is_android(&self) -> (r: bool)
        ensures
            r == (*self == PlatformOS::AndroidAarch64),
    {
        match self {
            PlatformOS::AndroidAarch64 => true,
            _ => false,
        }
    }

    /// Resolves the platform of a host from its OS and architecture names.
    pub fn from_os_arch(os: &str, arch: &str) -> (r: Option<PlatformOS>)
        ensures
            r == host_target_of(os@, arch@),
    {
        let is_x86 = str_eq(arch, "x86_64");
        let is_arm = str_eq(arch, "aarch64");
        if str_eq(os, "macos") {
            if is_arm {
                Some(PlatformOS::MacOSAarch64)
            } else if is_x86 {
                Some(PlatformOS::MacOSX8664)
            } else {
                None
            }
        } else if str_eq(os, "linux") {
            if is_x86 {
                Some(PlatformOS::LinuxX8664)
            } else if is_arm {
                Some(PlatformOS::LinuxAarch64)
            } else {
                None
            }
        } else if str_eq(os, "windows") {
            if is_x86 {
                Some(PlatformOS::WindowsX8664)
            } else if is_arm {
                Some(PlatformOS::WindowsAarch64)
            } else {
                None
            }
        } else {
            None
        }
    }
}

/// The path of the windowed application binary relative to the app location.
pub fn app_binary_relative(target: PlatformOS) -> (r: &'static str)
    requires
        target != PlatformOS::AndroidAarch64,
    ensures
        r@ == app_binary_relative_of(target),
{
    match target {
        PlatformOS::MacOSX8664 | PlatformOS::MacOSAarch64 => {
            "GlamorousToolkit.app/Contents/MacOS/GlamorousToolkit"
        },
        PlatformOS::WindowsX8664 | PlatformOS::WindowsAarch64 => "bin/GlamorousToolkit.exe",
        _ => "bin/GlamorousToolkit",
    }
}

/// The path of the command-line interface binary relative to the app location.
pub fn app_cli_relative(target: PlatformOS) -> (r: &'static str)
    ensures
        r@ == app_cli_relative_of(target),
{
    match target {
        PlatformOS::MacOSX8664 | PlatformOS::MacOSAarch64 => {
            "GlamorousToolkit.app/Contents/MacOS/GlamorousToolkit-cli"
        },
        PlatformOS::WindowsX8664 | PlatformOS::WindowsAarch64 => "bin/GlamorousToolkit-cli.exe",
        PlatformOS::LinuxX8664 | PlatformOS::LinuxAarch64 => "bin/GlamorousToolkit-cli",
        PlatformOS::AndroidAarch64 => "lib/arm64-v8a/libvm_client_android.so",
    }
}

/// The top-level entries that make up the unpacked app on a platform.
pub fn app_entries_for(target: PlatformOS) -> (r: Vec<EntryNamed>)
    ensures
        is_mac(target) ==> r@.len() == 1 && (r@[0] matches EntryNamed::Wildmatch(p) && p@
            == "*.app"@),
        is_windows(target) ==> r@.len() == 1 && (r@[0] matches EntryNamed::Exact(n) && n@
            == "bin"@),
        is_linux(target) ==> r@.len() == 2 && (r@[0] matches EntryNamed::Exact(n) && n@ == "bin"@)
            && (r@[1] matches EntryNamed::Exact(n) && n@ == "lib"@),
        target == PlatformOS::AndroidAarch64 ==> r@.len() == 1 && (r@[0] matches EntryNamed::Exact(
            n,
        ) && n@ == "lib"@),
{
    match target {
        PlatformOS::MacOSX8664 | PlatformOS::MacOSAarch64 => {
            let mut v: Vec<EntryNamed> = Vec::new();
            v.push(EntryNamed::wildmatch("*.app"));
            v
        },
        PlatformOS::WindowsX8664 | PlatformOS::WindowsAarch64 => {
            let mut v: Vec<EntryNamed> = Vec::new();
            v.push(EntryNamed::exact("bin"));
            v
        },
        PlatformOS::LinuxX8664 | PlatformOS::LinuxAarch64 => {
            let mut v: Vec<EntryNamed> = Vec::new();
            v.push(EntryNamed::exact("bin"));
            v.push(EntryNamed::exact("lib"));
            v
        },
        PlatformOS::AndroidAarch64 => {
            let mut v: Vec<EntryNamed> = Vec::new();
            v.push(EntryNamed::exact("lib"));
            v
        },
    }
}

/// The fixed address the base interpreter's virtual machine is fetched
/// from, per host platform.
pub open spec fn pharo_vm_url_of(target: PlatformOS) -> Seq<char> {
    if target == PlatformOS::MacOSX8664 {
        "https://dl.feenk.com/pharo/PharoVM-9.0.15-b4879008-Darwin-x86_64-bin.zip"@
    } else if target == PlatformOS::MacOSAarch64 {
        "https://dl.feenk.com/pharo/PharoVM-9.0.15-b4879008-Darwin-arm64-bin.zip"@
    } else if target == PlatformOS::LinuxX8664 {
        "https://dl.feenk.com/pharo/PharoVM-9.0.15-b487900-Linux-x86_64-bin.zip"@
    } else if target == PlatformOS::LinuxAarch64 {
        "https://dl.feenk.com/pharo/PharoVM-9.0.15-b487900-Linux-aarch64-bin.zip"@
    } else {
        "https://dl.feenk.com/pharo/PharoVM-9.0.15-b4879008-Windows-x86_64-bin.zip"@
    }
}

/// The address the base interpreter's virtual machine is fetched from, per
/// host platform; there is none for the phone platform.
pub fn pharo_vm_url_for(target: PlatformOS) -> (r: Option<&'static str>)
    ensures
        r is Some <==> target != PlatformOS::AndroidAarch64,
        r matches Some(u) ==> u@ == pharo_vm_url_of(target) && u@.len() > 0,
{
    proof {
        reveal_strlit("https://dl.feenk.com/pharo/PharoVM-9.0.15-b4879008-Darwin-x86_64-bin.zip");
        reveal_strlit("https://dl.feenk.com/pharo/PharoVM-9.0.15-b4879008-Darwin-arm64-bin.zip");
        reveal_strlit("https://dl.feenk.com/pharo/PharoVM-9.0.15-b487900-Linux-x86_64-bin.zip");
        reveal_strlit("https://dl.feenk.com/pharo/PharoVM-9.0.15-b487900-Linux-aarch64-bin.zip");
        reveal_strlit("https://dl.feenk.com/pharo/PharoVM-9.0.15-b4879008-Windows-x86_64-bin.zip");
    }
    match target {
        PlatformOS::MacOSX8664 => Some(
            "https://dl.feenk.com/pharo/PharoVM-9.0.15-b4879008-Darwin-x86_64-bin.zip",
        ),
        PlatformOS::MacOSAarch64 => Some(
            "https://dl.feenk.com/pharo/PharoVM-9.0.15-b4879008-Darwin-arm64-bin.zip",
        ),
        PlatformOS::LinuxX8664 => Some(
            "https://dl.feenk.com/pharo/PharoVM-9.0.15-b487900-Linux-x86_64-bin.zip",
        ),
        PlatformOS::LinuxAarch64 => Some(
            "https://dl.feenk.com/pharo/PharoVM-9.0.15-b487900-Linux-aarch64-bin.zip",
        ),
        PlatformOS::WindowsX8664 | PlatformOS::WindowsAarch64 => Some(
            "https://dl.feenk.com/pharo/PharoVM-9.0.15-b4879008-Windows-x86_64-bin.zip",
        ),
        PlatformOS::AndroidAarch64 => None,
    }
}

/// The path of the base interpreter binary, relative to the workspace, once
/// its virtual machine was unpacked into `pharo-vm`.
pub fn pharo_executable_for(target: PlatformOS) -> (r: Option<&'static str>)
    ensures
        r is Some <==> target != PlatformOS::AndroidAarch64,
        is_mac(target) ==> (r matches Some(p) && p@ == "pharo-vm/Pharo.app/Contents/MacOS/Pharo"@),
        is_windows(target) ==> (r matches Some(p) && p@ == "pharo-vm/PharoConsole.exe"@),
        is_linux(target) ==> (r matches Some(p) && p@ == "pharo-vm/pharo"@),
{
    match target {
        PlatformOS::MacOSX8664 | PlatformOS::MacOSAarch64 => Some(
            "pharo-vm/Pharo.app/Contents/MacOS/Pharo",
        ),
        PlatformOS::WindowsX8664 | PlatformOS::WindowsAarch64 => Some("pharo-vm/PharoConsole.exe"),
        PlatformOS::LinuxX8664 | PlatformOS::LinuxAarch64 => Some("pharo-vm/pharo"),
        PlatformOS::AndroidAarch64 => None,
    }
}

/// Every supported platform names non-empty, platform-idiomatic binary
/// paths: on the desktop platforms both binaries exist, the ones for the
/// window system sit under `.app/Contents/MacOS` on the Mac platforms, and
/// the ones for the Windows platforms end in `.exe`.
pub proof fn lemma_platform_paths(t: PlatformOS)
    ensures
        triple_of(t).len() > 0,
        app_cli_relative_of(t).len() > 0,
        t != PlatformOS::AndroidAarch64 ==> app_binary_relative_of(t).len() > 0,
        is_windows(t) ==> has_suffix(app_cli_relative_of(t), ".exe"@),
        is_windows(t) ==> has_suffix(app_binary_relative_of(t), ".exe"@),
        is_mac(t) ==> contains_seq(app_cli_relative_of(t), ".app/Contents/MacOS"@),
        is_mac(t) ==> contains_seq(app_binary_relative_of(t), ".app/Contents/MacOS"@),
{
    reveal_strlit("x86_64-apple-darwin");
    reveal_strlit("aarch64-apple-darwin");
    reveal_strlit("x86_64-pc-windows-msvc");
    reveal_strlit("aarch64-pc-windows-msvc");
    reveal_strlit("x86_64-unknown-linux-gnu");
    reveal_strlit("aarch64-unknown-linux-gnu");
    reveal_strlit("aarch64-linux-android");
    reveal_strlit("GlamorousToolkit.app/Contents/MacOS/GlamorousToolkit");
    reveal_strlit("GlamorousToolkit.app/Contents/MacOS/GlamorousToolkit-cli");
    reveal_strlit("bin/GlamorousToolkit.exe");
    reveal_strlit("bin/GlamorousToolkit");
    reveal_strlit("bin/GlamorousToolkit-cli.exe");
    reveal_strlit("bin/GlamorousToolkit-cli");
    reveal_strlit("lib/arm64-v8a/libvm_client_android.so");
    reveal_strlit(".exe");
    reveal_strlit(".app/Contents/MacOS");
    if is_windows(t) {
        let cli = app_cli_relative_of(t);
        let bin = app_binary_relative_of(t);
        assert(cli.subrange(cli.len() - 4, cli.len() as int) =~= ".exe"@);
        assert(bin.subrange(bin.len() - 4, bin.len() as int) =~= ".exe"@);
    }
    if is_mac(t) {
        let cli = app_cli_relative_of(t);
        let bin = app_binary_relative_of(t);
        let needle = ".app/Contents/MacOS"@;
        assert(cli.subrange(16, 16 + needle.len() as int) =~= needle);
        assert(bin.subrange(16, 16 + needle.len() as int) =~= needle);
    }
}

} // verus!
