use vstd::prelude::*;

use crate::matching::EntryNamed;

verus! {

/// Packages an image and its extras as a tentative archive.
pub struct Packager;

impl Packager {
    pub fn new() -> (r: Packager) {
        Packager {  }
    }

    /// The fixed name of the tentative archive.
    pub fn tentative_archive_name(&self) -> (r: &'static str)
        ensures
            r@ == "GlamorousToolkit-tentative.zip"@,
    {
        "GlamorousToolkit-tentative.zip"
    }

    /// The files a tentative image package holds: the snapshot triad and
    /// the version file.
    pub fn package_image_filters(&self, vm_version_file_name: &str) -> (r: Vec<EntryNamed>)
        ensures
            r@.len() == 4,
            r@[0] matches EntryNamed::Wildmatch(p) && p@ == "*.image"@,
            r@[1] matches EntryNamed::Wildmatch(p) && p@ == "*.changes"@,
            r@[2] matches EntryNamed::Wildmatch(p) && p@ == "*.sources"@,
            r@[3] matches EntryNamed::Exact(n) && n@ == vm_version_file_name@,
    {
        let mut v: Vec<EntryNamed> = Vec::new();
        v.push(EntryNamed::wildmatch("*.image"));
        v.push(EntryNamed::wildmatch("*.changes"));
        v.push(EntryNamed::wildmatch("*.sources"));
        v.push(EntryNamed::exact(vm_version_file_name));
        v
    }

    /// The one folder a tentative image package carries whole.
    pub fn package_image_folder(&self) -> (r: &'static str)
        ensures
            r@ == "gt-extra"@,
    {
        "gt-extra"
    }
}

} // verus!
