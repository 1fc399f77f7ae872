use vstd::prelude::*;

use crate::matching::{entry_matches, EntryNamed};
use crate::paths::{file_name_of, file_name_part, parent_of, parent_part};
use crate::strutil::{has_prefix, str_starts_with, substring_copy};

verus! {

/// One member of an archive being written: a named entry found in a
/// directory, a whole folder, or a single file.
#[derive(Clone, Debug)]
pub enum ZipMember {
    Entry(EntryNamed, String),
    Folder(String),
    File(String),
}

/// What two members being alike means: same kind, same texts.
pub open spec fn member_matches(a: ZipMember, b: ZipMember) -> bool {
    match (a, b) {
        (ZipMember::Entry(ea, da), ZipMember::Entry(eb, db)) => entry_matches(ea, eb) && da@
            == db@,
        (ZipMember::Folder(fa), ZipMember::Folder(fb)) => fa@ == fb@,
        (ZipMember::File(fa), ZipMember::File(fb)) => fa@ == fb@,
        _ => false,
    }
}

/// An archive being put together: where it goes and what goes into it, in
/// order. The writing itself is the archiver's business.
#[derive(Clone, Debug)]
pub struct ToZip {
    path: String,
    members: Vec<ZipMember>,
}

impl ToZip {
    pub closed spec fn path_view(&self) -> Seq<char> {
        self.path@
    }

    pub closed spec fn members_view(&self) -> Seq<ZipMember> {
        self.members@
    }

    pub fn new(path: &str) -> (r: ToZip)
        ensures
            r.path_view() == path@,
            r.members_view().len() == 0,
    {
        ToZip { path: path.to_owned(), members: Vec::new() }
    }

    /// Adds one named entry to pick out of a directory.
    pub fn one_entry(self, entry: EntryNamed, within: &str) -> (r: ToZip)
        ensures
            r.path_view() == self.path_view(),
            r.members_view().len() == self.members_view().len() + 1,
            r.members_view().drop_last() == self.members_view(),
            r.members_view().last() matches ZipMember::Entry(e, d) && entry_matches(e, entry)
                && d@ == within@,
    {
        let mut members = self.members;
        members.push(ZipMember::Entry(entry, within.to_owned()));
        proof {
            assert(members@.drop_last() =~= self.members_view());
        }
        ToZip { path: self.path, members }
    }

    /// Adds a folder carried whole.
    pub fn folder(self, path: &str) -> (r: ToZip)
        ensures
            r.path_view() == self.path_view(),
            r.members_view().len() == self.members_view().len() + 1,
            r.members_view().drop_last() == self.members_view(),
            r.members_view().last() matches ZipMember::Folder(f) && f@ == path@,
    {
        let mut members = self.members;
        members.push(ZipMember::Folder(path.to_owned()));
        proof {
            assert(members@.drop_last() =~= self.members_view());
        }
        ToZip { path: self.path, members }
    }

    pub fn add_folder(&mut self, path: &str)
        ensures
            final(self).path_view() == old(self).path_view(),
            final(self).members_view().len() == old(self).members_view().len() + 1,
            final(self).members_view().drop_last() == old(self).members_view(),
            final(self).members_view().last() matches ZipMember::Folder(f) && f@ == path@,
    {
        self.members.push(ZipMember::Folder(path.to_owned()));
        proof {
            assert(self.members_view().drop_last() =~= old(self).members_view());
        }
    }

    pub fn add_file(&mut self, path: &str)
        ensures
            final(self).path_view() == old(self).path_view(),
            final(self).members_view().len() == old(self).members_view().len() + 1,
            final(self).members_view().drop_last() == old(self).members_view(),
            final(self).members_view().last() matches ZipMember::File(f) && f@ == path@,
    {
        self.members.push(ZipMember::File(path.to_owned()));
        proof {
            assert(self.members_view().drop_last() =~= old(self).members_view());
        }
    }

    pub fn path(&self) -> (r: &str)
        ensures
            r@ == self.path_view(),
    {
        self.path.as_str()
    }

    pub fn member_count(&self) -> (r: usize)
        ensures
            r == self.members_view().len(),
    {
        self.members.len()
    }

    pub fn member_at(&self, i: usize) -> (r: &ZipMember)
        requires
            i < self.members_view().len(),
        ensures
            *r == self.members_view()[i as int],
    {
        &self.members[i]
    }
}

/// The name a file carries inside an archive: its own file name.
pub fn zip_file_entry_name(file: &str) -> (r: String)
    ensures
        r@ == file_name_of(file@),
{
    file_name_part(file)
}

/// The name a path under a zipped folder carries inside the archive: the
/// path's part below the folder's parent, so that the folder's own name
/// opens every entry; nothing for a path outside the folder's parent.
pub fn zip_folder_entry_name(src_dir: &str, path: &str) -> (r: Option<String>)
    ensures
        match r {
            Some(name) => parent_of(src_dir@) matches Some(parent) && has_prefix(path@, parent)
                && name@ == path@.subrange(parent.len() as int + 1, path@.len() as int),
            None => parent_of(src_dir@) is None || (parent_of(src_dir@) matches Some(parent) && (
            !has_prefix(path@, parent) || path@.len() < parent.len() + 1)),
        },
{
    let parent = match parent_part(src_dir) {
        Some(p) => p,
        None => {
            return None;
        },
    };
    if !str_starts_with(path, parent.as_str()) {
        return None;
    }
    let parent_len = parent.as_str().unicode_len();
    let n = path.unicode_len();
    if n <= parent_len {
        return None;
    }
    Some(substring_copy(path, parent_len + 1, n))
}

} // verus!
