use vstd::prelude::*;

use crate::error::InstallerError;
use crate::strutil::str_eq;

verus! {

/// Whether the wildcard pattern `p` matches the whole of `s`: `*` stands for
/// any run of characters, `?` for any single one.
pub open spec fn wild_matches(p: Seq<char>, s: Seq<char>) -> bool
    decreases p.len(), s.len(),
{
    if p.len() == 0 {
        s.len() == 0
    } else if p[0] == '*' {
        wild_matches(p.drop_first(), s) || (s.len() > 0 && wild_matches(p, s.drop_first()))
    } else {
        s.len() > 0 && (p[0] == '?' || p[0] == s[0]) && wild_matches(
            p.drop_first(),
            s.drop_first(),
        )
    }
}

fn wild_match_at(p: &str, s: &str, pn: usize, sn: usize, i: usize, j: usize) -> (r: bool)
    requires
        pn == p@.len(),
        sn == s@.len(),
        i <= pn,
        j <= sn,
    ensures
        r == wild_matches(p@.subrange(i as int, pn as int), s@.subrange(j as int, sn as int)),
    decreases pn - i, sn - j,
{
    let ghost pp = p@.subrange(i as int, pn as int);
    let ghost ss = s@.subrange(j as int, sn as int);
    if i == pn {
        proof {
            assert(pp.len() == 0);
        }
        j == sn
    } else {
        let pc = p.get_char(i);
        proof {
            assert(pp[0] == p@[i as int]);
            assert(pp.drop_first() =~= p@.subrange(i + 1, pn as int));
            assert(ss.len() > 0 ==> ss.drop_first() =~= s@.subrange(j + 1, sn as int));
        }
        if pc == '*' {
            if wild_match_at(p, s, pn, sn, i + 1, j) {
                true
            } else if j < sn {
                wild_match_at(p, s, pn, sn, i, j + 1)
            } else {
                false
            }
        } else {
            if j == sn {
                false
            } else {
                let sc = s.get_char(j);
                proof {
                    assert(ss[0] == s@[j as int]);
                }
                if pc == '?' || pc == sc {
                    wild_match_at(p, s, pn, sn, i + 1, j + 1)
                } else {
                    false
                }
            }
        }
    }
}

/// Whether the wildcard pattern matches the whole text.
pub fn wild_match(pattern: &str, text: &str) -> (r: bool)
    ensures
        r == wild_matches(pattern@, text@),
{
    let pn = pattern.unicode_len();
    let sn = text.unicode_len();
    let r = wild_match_at(pattern, text, pn, sn, 0, 0);
    proof {
        assert(pattern@.subrange(0, pn as int) =~= pattern@);
        assert(text@.subrange(0, sn as int) =~= text@);
    }
    r
}

/// One named entry of an installation, picked either by its exact name or by
/// a wildcard pattern.
#[derive(Clone, Debug)]
pub enum EntryNamed {
    Exact(String),
    Wildmatch(String),
}

/// Whether a file name answers to the entry's name or pattern.
pub open spec fn entry_selects(e: EntryNamed, name: Seq<char>) -> bool {
    match e {
        EntryNamed::Exact(n) => n@ == name,
        EntryNamed::Wildmatch(p) => wild_matches(p@, name),
    }
}

impl EntryNamed {
    pub fn exact(name: &str) -> (r: EntryNamed)
        ensures
            r matches EntryNamed::Exact(n) && n@ == name@,
    {
        EntryNamed::Exact(name.to_owned())
    }

    pub fn wildmatch(pattern: &str) -> (r: EntryNamed)
        ensures
            r matches EntryNamed::Wildmatch(p) && p@ == pattern@,
    {
        EntryNamed::Wildmatch(pattern.to_owned())
    }

    pub fn selects(&self, name: &str) -> (r: bool)
        ensures
            r == entry_selects(*self, name@),
    {
        match self {
            EntryNamed::Exact(n) => str_eq(n.as_str(), name),
            EntryNamed::Wildmatch(p) => wild_match(p.as_str(), name),
        }
    }
}


/// The text of an entry's name or pattern.
pub open spec fn pattern_text_of(e: EntryNamed) -> Seq<char> {
    match e {
        EntryNamed::Exact(n) => n@,
        EntryNamed::Wildmatch(p) => p@,
    }
}

/// How many of the names the entry selects.
pub open spec fn select_count(e: EntryNamed, names: Seq<Seq<char>>) -> nat
    decreases names.len(),
{
    if names.len() == 0 {
        0
    } else {
        select_count(e, names.drop_last()) + if entry_selects(e, names.last()) {
            1nat
        } else {
            0nat
        }
    }
}

/// Entries of the same kind with the same text.
pub open spec fn entry_matches(a: EntryNamed, b: EntryNamed) -> bool {
    &&& (a is Exact <==> b is Exact)
    &&& pattern_text_of(a) == pattern_text_of(b)
}

impl EntryNamed {
    /// A field-for-field copy.
    pub fn clone_entry(&self) -> (r: EntryNamed)
        ensures
            entry_matches(r, *self),
    {
        match self {
            EntryNamed::Exact(n) => EntryNamed::Exact(n.clone()),
            EntryNamed::Wildmatch(p) => EntryNamed::Wildmatch(p.clone()),
        }
    }

    pub fn pattern_text(&self) -> (r: &str)
        ensures
            r@ == pattern_text_of(*self),
    {
        match self {
            EntryNamed::Exact(n) => n.as_str(),
            EntryNamed::Wildmatch(p) => p.as_str(),
        }
    }

    /// Picks the one file the entry names among those in a directory: no
    /// selected name and more than one selected name are each their own
    /// failure, naming the pattern and the directory.
    pub fn find_one(&self, file_names: &Vec<String>, directory: &str) -> (r: Result<
        String,
        InstallerError,
    >)
        ensures
            ({
                let views = file_names@.map_values(|s: String| s@);
                match r {
                    Ok(name) => select_count(*self, views) == 1 && entry_selects(*self, name@)
                        && (exists|i: int| 0 <= i < views.len() && views[i] == name@),
                    Err(e) => match e {
                        InstallerError::NoFileMatch(p, d) => select_count(*self, views) == 0 && p@
                            == pattern_text_of(*self) && d@ == directory@,
                        InstallerError::AmbiguousFileMatch(p, d) => select_count(*self, views) >= 2
                            && p@ == pattern_text_of(*self) && d@ == directory@,
                        _ => false,
                    },
                }
            }),
    {
        let ghost views = file_names@.map_values(|s: String| s@);
        let n = file_names.len();
        let mut count: usize = 0;
        let mut found: Option<String> = None;
        let mut i: usize = 0;
        proof {
            assert(select_count(*self, views.subrange(0, 0)) == 0);
        }
        while i < n
            invariant
                0 <= i <= n,
                n == views.len(),
                views == file_names@.map_values(|s: String| s@),
                count == select_count(*self, views.subrange(0, i as int)),
                count <= i,
                count == 0 <==> found is None,
                match found {
                    Some(name) => entry_selects(*self, name@) && (exists|k: int|
                        0 <= k < views.len() && views[k] == name@),
                    None => true,
                },
            decreases n - i,
        {
            proof {
                assert(views.subrange(0, i + 1).drop_last() =~= views.subrange(0, i as int));
                assert(views.subrange(0, i + 1).last() == views[i as int]);
            }
            if self.selects(file_names[i].as_str()) {
                count = count + 1;
                if count == 1 {
                    found = Some(file_names[i].clone());
                    proof {
                        assert(views[i as int] == file_names@[i as int]@);
                    }
                }
            }
            i = i + 1;
        }
        proof {
            assert(views.subrange(0, n as int) =~= views);
        }
        if count == 0 {
            Err(InstallerError::NoFileMatch(self.pattern_text().to_owned(), directory.to_owned()))
        } else if count == 1 {
            match found {
                Some(name) => Ok(name),
                None => {
                    proof {
                        assert(false);
                    }
                    Err(
                        InstallerError::NoFileMatch(
                            self.pattern_text().to_owned(),
                            directory.to_owned(),
                        ),
                    )
                },
            }
        } else {
            Err(
                InstallerError::AmbiguousFileMatch(
                    self.pattern_text().to_owned(),
                    directory.to_owned(),
                ),
            )
        }
    }
}

} // verus!
