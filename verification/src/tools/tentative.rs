use vstd::prelude::*;

use crate::application::Application;
use crate::matching::EntryNamed;
use crate::tools::package::Package;
use crate::unzip::FileToUnzip;

verus! {

/// Where the tentative archive lies, and whether absent pieces are
/// tolerated.
#[derive(Clone, Debug)]
pub struct TentativeOptions {
    tentative: String,
    ignore_absent: bool,
}

impl TentativeOptions {
    pub closed spec fn tentative_view(&self) -> Seq<char> {
        self.tentative@
    }

    pub closed spec fn ignore_absent_spec(&self) -> bool {
        self.ignore_absent
    }

    pub fn new(tentative: &str, ignore_absent: bool) -> (r: TentativeOptions)
        ensures
            r.tentative_view() == tentative@,
            r.ignore_absent_spec() == ignore_absent,
    {
        TentativeOptions { tentative: tentative.to_owned(), ignore_absent }
    }

    pub fn tentative(&self) -> (r: &str)
        ensures
            r@ == self.tentative_view(),
    {
        self.tentative.as_str()
    }

    pub fn ignore_absent(&self) -> (r: bool)
        ensures
            r == self.ignore_absent_spec(),
    {
        self.ignore_absent
    }
}

/// Packages an image as a tentative release, and unpacks one.
pub struct Tentative;

impl Tentative {
    pub fn new() -> (r: Tentative) {
        Tentative {  }
    }

    /// What a tentative package holds by name: the snapshot triad, the
    /// state file, and the application's entries for the host.
    pub fn package_entries(&self, application: &Application) -> (r: Vec<EntryNamed>)
        ensures
            r@.len() >= 4,
            r@[0] matches EntryNamed::Wildmatch(p) && p@ == "*.image"@,
            r@[1] matches EntryNamed::Wildmatch(p) && p@ == "*.changes"@,
            r@[2] matches EntryNamed::Wildmatch(p) && p@ == "*.sources"@,
            r@[3] matches EntryNamed::Exact(n) && n@ == crate::SERIALIZATION_FILE@,
    {
        let mut entries: Vec<EntryNamed> = Vec::new();
        entries.push(EntryNamed::wildmatch("*.image"));
        entries.push(EntryNamed::wildmatch("*.changes"));
        entries.push(EntryNamed::wildmatch("*.sources"));
        entries.push(EntryNamed::exact(Application::serialization_file_name()));
        let folders = Package::gtoolkit_app_folders(application);
        let n = folders.len();
        let mut i: usize = 0;
        while i < n
            invariant
                0 <= i <= n,
                n == folders@.len(),
                entries@.len() == 4 + i,
                entries@[0] matches EntryNamed::Wildmatch(p) && p@ == "*.image"@,
                entries@[1] matches EntryNamed::Wildmatch(p) && p@ == "*.changes"@,
                entries@[2] matches EntryNamed::Wildmatch(p) && p@ == "*.sources"@,
                entries@[3] matches EntryNamed::Exact(x) && x@ == crate::SERIALIZATION_FILE@,
            decreases n - i,
        {
            let e = folders[i].clone_entry();
            entries.push(e);
            i = i + 1;
        }
        entries
    }

    /// Whether the extra-content folder goes into the package: always,
    /// except that a missing one is tolerated when absences are ignored.
    pub fn should_package_gt_extra(&self, gt_extra_exists: bool, ignore_absent: bool) -> (r: bool)
        ensures
            r == (gt_extra_exists || !ignore_absent),
    {
        gt_extra_exists || !ignore_absent
    }

    /// The one expansion unpacking a tentative archive asks for: the
    /// archive into the workspace.
    pub fn unpackage_task(&self, application: &Application, tentative_options: &TentativeOptions)
        -> (r: FileToUnzip)
        ensures
            r.archive_view() == tentative_options.tentative_view(),
            r.output_view() == application.workspace_view(),
    {
        FileToUnzip::new(tentative_options.tentative(), application.workspace())
    }
}

} // verus!
