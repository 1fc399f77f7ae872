use vstd::prelude::*;

use crate::application::Application;
use crate::matching::{entry_matches, EntryNamed};
use crate::platform::{is_linux, is_mac, is_windows, PlatformOS};

verus! {

/// Where a copy of the installation goes.
#[derive(Clone, Debug)]
pub struct CopyOptions {
    destination: String,
}

impl CopyOptions {
    pub closed spec fn destination_view(&self) -> Seq<char> {
        self.destination@
    }

    pub fn new(destination: &str) -> (r: CopyOptions)
        ensures
            r.destination_view() == destination@,
    {
        CopyOptions { destination: destination.to_owned() }
    }

    pub fn destination(&self) -> (r: &str)
        ensures
            r@ == self.destination_view(),
    {
        self.destination.as_str()
    }
}

/// Copies the installation's files into a new workspace, leaving temporary
/// files and logs behind.
pub struct Copier;

impl Copier {
    pub fn new() -> (r: Copier) {
        Copier {  }
    }

    /// What a copy carries over: the snapshot triad, the state file, the
    /// extra content, and the application's own entries for the host.
    pub fn entries_to_copy(&self, application: &Application) -> (r: Vec<EntryNamed>)
        ensures
            r@.len() >= 5,
            r@[0] matches EntryNamed::Wildmatch(p) && p@ == "*.image"@,
            r@[1] matches EntryNamed::Wildmatch(p) && p@ == "*.changes"@,
            r@[2] matches EntryNamed::Wildmatch(p) && p@ == "*.sources"@,
            r@[3] matches EntryNamed::Exact(n) && n@ == crate::SERIALIZATION_FILE@,
            r@[4] matches EntryNamed::Exact(n) && n@ == "gt-extra"@,
            is_mac(application.host_spec()) ==> r@.len() == 6 && (
            r@[5] matches EntryNamed::Wildmatch(p) && p@ == "*.app"@),
            is_windows(application.host_spec()) ==> r@.len() == 6 && (
            r@[5] matches EntryNamed::Exact(n) && n@ == "bin"@),
            is_linux(application.host_spec()) ==> r@.len() == 7 && (
            r@[5] matches EntryNamed::Exact(n) && n@ == "bin"@) && (
            r@[6] matches EntryNamed::Exact(n) && n@ == "lib"@),
            application.host_spec() == PlatformOS::AndroidAarch64 ==> r@.len() == 6 && (
            r@[5] matches EntryNamed::Exact(n) && n@ == "lib"@),
    {
        let mut entries: Vec<EntryNamed> = Vec::new();
        entries.push(EntryNamed::wildmatch("*.image"));
        entries.push(EntryNamed::wildmatch("*.changes"));
        entries.push(EntryNamed::wildmatch("*.sources"));
        entries.push(EntryNamed::exact(Application::serialization_file_name()));
        entries.push(EntryNamed::exact("gt-extra"));
        let app_entries = application.gtoolkit_app_entries();
        let n = app_entries.len();
        let mut i: usize = 0;
        while i < n
            invariant
                0 <= i <= n,
                n == app_entries@.len(),
                entries@.len() == 5 + i,
                forall|k: int|
                    0 <= k < i ==> entry_matches(#[trigger] entries@[5 + k], app_entries@[k]),
                entries@[0] matches EntryNamed::Wildmatch(p) && p@ == "*.image"@,
                entries@[1] matches EntryNamed::Wildmatch(p) && p@ == "*.changes"@,
                entries@[2] matches EntryNamed::Wildmatch(p) && p@ == "*.sources"@,
                entries@[3] matches EntryNamed::Exact(x) && x@ == crate::SERIALIZATION_FILE@,
                entries@[4] matches EntryNamed::Exact(x) && x@ == "gt-extra"@,
            decreases n - i,
        {
            let e = app_entries[i].clone_entry();
            entries.push(e);
            i = i + 1;
        }
        proof {
            if n >= 1 {
                assert(entry_matches(entries@[5 + 0int], app_entries@[0]));
            }
            if n >= 2 {
                assert(entry_matches(entries@[5 + 1int], app_entries@[1]));
            }
        }
        entries
    }
}

} // verus!
