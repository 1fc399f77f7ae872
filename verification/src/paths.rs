use vstd::prelude::*;

use crate::strutil::{last_index_of, str_rfind_char, substring_copy};

verus! {

/// A path joined with a further component, separated by a single slash.
pub open spec fn join_of(base: Seq<char>, name: Seq<char>) -> Seq<char> {
    if base.len() == 0 {
        name
    } else if base.last() == '/' {
        base + name
    } else {
        base + seq!['/'] + name
    }
}

/// The component after the last slash; the whole path when it has no slash.
pub open spec fn file_name_of(path: Seq<char>) -> Seq<char> {
    match last_index_of(path, '/') {
        Some(i) => path.subrange(i + 1, path.len() as int),
        None => path,
    }
}

/// The directory part before the last slash; `None` when the path has no
/// slash, and the root itself when the last slash is the leading one.
pub open spec fn parent_of(path: Seq<char>) -> Option<Seq<char>> {
    match last_index_of(path, '/') {
        Some(i) => if i == 0 {
            Some(seq!['/'])
        } else {
            Some(path.subrange(0, i))
        },
        None => None,
    }
}

/// The file name up to its last dot; the whole name when it has no dot or
/// only a leading one.
pub open spec fn stem_of_name(name: Seq<char>) -> Seq<char> {
    match last_index_of(name, '.') {
        Some(i) => if i == 0 {
            name
        } else {
            name.subrange(0, i)
        },
        None => name,
    }
}

/// The part of the file name after its last dot; `None` when it has no dot
/// or only a leading one.
pub open spec fn extension_of_name(name: Seq<char>) -> Option<Seq<char>> {
    match last_index_of(name, '.') {
        Some(i) => if i == 0 {
            None
        } else {
            Some(name.subrange(i + 1, name.len() as int))
        },
        None => None,
    }
}

pub open spec fn stem_of_path(path: Seq<char>) -> Seq<char> {
    stem_of_name(file_name_of(path))
}

pub open spec fn extension_of_path(path: Seq<char>) -> Option<Seq<char>> {
    extension_of_name(file_name_of(path))
}

/// The path with its file name replaced.
pub open spec fn with_file_name_of(path: Seq<char>, name: Seq<char>) -> Seq<char> {
    match parent_of(path) {
        Some(dir) => join_of(dir, name),
        None => name,
    }
}

pub fn join_path(base: &str, name: &str) -> (r: String)
    ensures
        r@ == join_of(base@, name@),
{
    let n = base.unicode_len();
    if n == 0 {
        return name.to_owned();
    }
    if base.get_char(n - 1) == '/' {
        let r = base.to_owned().concat(name);
        proof {
            assert(r@ =~= join_of(base@, name@));
        }
        r
    } else {
        let mut r = base.to_owned();
        r.append("/");
        r.append(name);
        proof {
            reveal_strlit("/");
            assert("/"@ =~= seq!['/']);
            assert(r@ =~= join_of(base@, name@));
        }
        r
    }
}

pub fn file_name_part(path: &str) -> (r: String)
    ensures
        r@ == file_name_of(path@),
{
    let n = path.unicode_len();
    match str_rfind_char(path, '/') {
        Some(i) => substring_copy(path, i + 1, n),
        None => path.to_owned(),
    }
}

pub fn parent_part(path: &str) -> (r: Option<String>)
    ensures
        match r {
            Some(p) => parent_of(path@) == Some(p@),
            None => parent_of(path@) is None,
        },
{
    match str_rfind_char(path, '/') {
        Some(i) => {
            if i == 0 {
                let root = "/".to_owned();
                proof {
                    reveal_strlit("/");
                    assert(root@ =~= seq!['/']);
                }
                Some(root)
            } else {
                Some(substring_copy(path, 0, i))
            }
        },
        None => None,
    }
}

pub fn stem_part(path: &str) -> (r: String)
    ensures
        r@ == stem_of_path(path@),
{
    let name = file_name_part(path);
    let n = name.as_str().unicode_len();
    match str_rfind_char(name.as_str(), '.') {
        Some(i) => {
            if i == 0 {
                name
            } else {
                substring_copy(name.as_str(), 0, i)
            }
        },
        None => name,
    }
}

pub fn extension_part(path: &str) -> (r: Option<String>)
    ensures
        match r {
            Some(e) => extension_of_path(path@) == Some(e@),
            None => extension_of_path(path@) is None,
        },
{
    let name = file_name_part(path);
    let n = name.as_str().unicode_len();
    match str_rfind_char(name.as_str(), '.') {
        Some(i) => {
            if i == 0 {
                None
            } else {
                Some(substring_copy(name.as_str(), i + 1, n))
            }
        },
        None => None,
    }
}

pub fn with_file_name_path(path: &str, name: &str) -> (r: String)
    ensures
        r@ == with_file_name_of(path@, name@),
{
    match parent_part(path) {
        Some(dir) => join_path(dir.as_str(), name),
        None => name.to_owned(),
    }
}

/// A name for a file, as `<stem>.<extension>`.
pub open spec fn dotted_of(stem: Seq<char>, extension: Seq<char>) -> Seq<char> {
    stem + seq!['.'] + extension
}

pub fn dotted_name(stem: &str, extension: &str) -> (r: String)
    ensures
        r@ == dotted_of(stem@, extension@),
{
    let mut r = stem.to_owned();
    r.append(".");
    r.append(extension);
    proof {
        reveal_strlit(".");
        assert("."@ =~= seq!['.']);
        assert(r@ =~= dotted_of(stem@, extension@));
    }
    r
}

} // verus!
