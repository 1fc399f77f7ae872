pub mod file;
pub mod folder;

use vstd::prelude::*;

use crate::error::InstallerError;
use crate::paths::{join_of, join_path};

verus! {

/// Whether a pattern compiles as a regular expression; this depends on the
/// pattern alone.
pub uninterp spec fn regex_pattern_ok(pattern: Seq<char>) -> bool;

/// Whether a regular expression matches somewhere in a text; this depends
/// on the pattern and the text alone.
pub uninterp spec fn regex_matches(pattern: Seq<char>, text: Seq<char>) -> bool;

/// Relies on regex::Regex::new and regex::Regex::is_match: compiling
/// succeeds or fails by the pattern alone, and a compiled pattern matches
/// by the pattern and the haystack alone.
#[verifier::external_body]
fn regex_is_match(pattern: &str, text: &str) -> (r: Option<bool>)
    ensures
        r is Some <==> regex_pattern_ok(pattern@),
        r matches Some(b) ==> b == regex_matches(pattern@, text@),
{
    match regex::Regex::new(pattern) {
        Ok(re) => Some(re.is_match(text)),
        Err(_) => None,
    }
}

/// How many of the names the regular expression matches.
pub open spec fn regex_match_count(pattern: Seq<char>, names: Seq<Seq<char>>) -> nat
    decreases names.len(),
{
    if names.len() == 0 {
        0
    } else {
        regex_match_count(pattern, names.drop_last()) + if regex_matches(pattern, names.last()) {
            1nat
        } else {
            0nat
        }
    }
}

/// One file to find by a regular expression over the names in a directory,
/// and to move to a destination.
#[derive(Clone, Debug)]
pub struct FileToMove {
    pattern: String,
    directory: String,
    destination: String,
}

impl FileToMove {
    pub closed spec fn pattern_view(&self) -> Seq<char> {
        self.pattern@
    }

    pub closed spec fn directory_view(&self) -> Seq<char> {
        self.directory@
    }

    pub closed spec fn destination_view(&self) -> Seq<char> {
        self.destination@
    }

    pub fn new(pattern: &str, from: &str, destination: &str) -> (r: FileToMove)
        ensures
            r.pattern_view() == pattern@,
            r.directory_view() == from@,
            r.destination_view() == destination@,
    {
        FileToMove {
            pattern: pattern.to_owned(),
            directory: from.to_owned(),
            destination: destination.to_owned(),
        }
    }

    pub fn pattern(&self) -> (r: &str)
        ensures
            r@ == self.pattern_view(),
    {
        self.pattern.as_str()
    }

    pub fn directory(&self) -> (r: &str)
        ensures
            r@ == self.directory_view(),
    {
        self.directory.as_str()
    }

    pub fn destination(&self) -> (r: &str)
        ensures
            r@ == self.destination_view(),
    {
        self.destination.as_str()
    }

    /// Picks the one file among the directory's names that the pattern
    /// matches: none and more than one are each their own failure; a
    /// pattern that does not compile is refused rather than matched.
    pub fn find_file_matching(&self, file_names: &Vec<String>) -> (r: Result<
        String,
        InstallerError,
    >)
        ensures
            ({
                let views = file_names@.map_values(|s: String| s@);
                match r {
                    Ok(name) => {
                        &&& regex_pattern_ok(self.pattern_view())
                        &&& regex_match_count(self.pattern_view(), views) == 1
                        &&& regex_matches(self.pattern_view(), name@)
                        &&& exists|i: int| 0 <= i < views.len() && views[i] == name@
                    },
                    Err(e) => match e {
                        InstallerError::InvalidPattern(p) => !regex_pattern_ok(
                            self.pattern_view(),
                        ) && p@ == self.pattern_view(),
                        InstallerError::NoFileMatch(p, d) => regex_pattern_ok(self.pattern_view())
                            && regex_match_count(self.pattern_view(), views) == 0 && p@
                            == self.pattern_view() && d@ == self.directory_view(),
                        InstallerError::AmbiguousFileMatch(p, d) => regex_pattern_ok(
                            self.pattern_view(),
                        ) && regex_match_count(self.pattern_view(), views) >= 2 && p@
                            == self.pattern_view() && d@ == self.directory_view(),
                        _ => false,
                    },
                }
            }),
    {
        let ghost views = file_names@.map_values(|s: String| s@);
        if regex_is_match(self.pattern.as_str(), "").is_none() {
            return Err(InstallerError::InvalidPattern(self.pattern.clone()));
        }
        let n = file_names.len();
        let mut count: usize = 0;
        let mut found: Option<String> = None;
        let mut i: usize = 0;
        while i < n
            invariant
                0 <= i <= n,
                n == views.len(),
                views == file_names@.map_values(|s: String| s@),
                regex_pattern_ok(self.pattern_view()),
                count == regex_match_count(self.pattern_view(), views.subrange(0, i as int)),
                count <= i,
                count == 0 <==> found is None,
                match found {
                    Some(name) => regex_matches(self.pattern_view(), name@) && (exists|k: int|
                        0 <= k < views.len() && views[k] == name@),
                    None => true,
                },
            decreases n - i,
        {
            proof {
                assert(views.subrange(0, i + 1).drop_last() =~= views.subrange(0, i as int));
                assert(views.subrange(0, i + 1).last() == views[i as int]);
            }
            let is_match = match regex_is_match(self.pattern.as_str(), file_names[i].as_str()) {
                Some(b) => b,
                None => {
                    proof {
                        assert(false);
                    }
                    return Err(InstallerError::InvalidPattern(self.pattern.clone()));
                },
            };
            if is_match {
                count = count + 1;
                if count == 1 {
                    found = Some(file_names[i].clone());
                    proof {
                        assert(views[i as int] == file_names@[i as int]@);
                    }
                }
            }
            i = i + 1;
        }
        proof {
            assert(views.subrange(0, n as int) =~= views);
        }
        if count == 0 {
            Err(InstallerError::NoFileMatch(self.pattern.clone(), self.directory.clone()))
        } else if count == 1 {
            match found {
                Some(name) => Ok(name),
                None => {
                    proof {
                        assert(false);
                    }
                    Err(InstallerError::NoFileMatch(self.pattern.clone(), self.directory.clone()))
                },
            }
        } else {
            Err(InstallerError::AmbiguousFileMatch(self.pattern.clone(), self.directory.clone()))
        }
    }

    /// Where the found file comes to rest: inside the destination under
    /// its own name when the destination is a directory, at the
    /// destination itself otherwise.
    pub fn destination_path(&self, destination_is_dir: bool, file_name: &str) -> (r: String)
        ensures
            destination_is_dir ==> r@ == join_of(self.destination_view(), file_name@),
            !destination_is_dir ==> r@ == self.destination_view(),
    {
        if destination_is_dir {
            join_path(self.destination.as_str(), file_name)
        } else {
            self.destination.clone()
        }
    }
}

} // verus!
