use vstd::prelude::*;

use crate::strutil::{
    all_digits, dec_of, first_index_of, is_digit, lemma_dec_of_digits, lemma_dec_round_trip,
    lemma_first_index_of, parse_u64_dec, str_find_char, substring_copy, u64_to_dec, val_of_digits,
};

verus! {

/// A semantic version of a released component: `major.minor.patch`.
#[derive(Clone, Copy, Debug, PartialEq, Eq, Structural)]
pub struct Version {
    pub major: u64,
    pub minor: u64,
    pub patch: u64,
}

/// The textual form of a version, `major.minor.patch` in decimal.
pub open spec fn version_text_of(v: Version) -> Seq<char> {
    dec_of(v.major as nat) + seq!['.'] + dec_of(v.minor as nat) + seq!['.'] + dec_of(
        v.patch as nat,
    )
}

/// What a dotted version string names: three decimal runs separated by
/// exactly two dots.
pub open spec fn parse_version_of(s: Seq<char>) -> Option<(nat, nat, nat)> {
    match first_index_of(s, '.') {
        Some(i) => {
            let a = s.subrange(0, i);
            let rest = s.subrange(i + 1, s.len() as int);
            match first_index_of(rest, '.') {
                Some(j) => {
                    let b = rest.subrange(0, j);
                    let c = rest.subrange(j + 1, rest.len() as int);
                    if a.len() > 0 && b.len() > 0 && c.len() > 0 && all_digits(a) && all_digits(b)
                        && all_digits(c) {
                        Some((val_of_digits(a), val_of_digits(b), val_of_digits(c)))
                    } else {
                        None
                    }
                },
                None => None,
            }
        },
        None => None,
    }
}

/// As `parse_version_of`, after an optional leading `v`.
pub open spec fn parse_version_text_of(s: Seq<char>) -> Option<(nat, nat, nat)> {
    if s.len() > 0 && s[0] == 'v' {
        parse_version_of(s.subrange(1, s.len() as int))
    } else {
        parse_version_of(s)
    }
}

impl Version {
    pub fn new(major: u64, minor: u64, patch: u64) -> (r: Version)
        ensures
            r.major == major && r.minor == minor && r.patch == patch,
    {
        Version { major, minor, patch }
    }

    /// Renders the version as `major.minor.patch`.
    pub fn to_text(&self) -> (r: String)
        ensures
            r@ == version_text_of(*self),
    {
        let mut r = u64_to_dec(self.major);
        let dot = ".";
        proof {
            reveal_strlit(".");
            assert(dot@ =~= seq!['.']);
        }
        r.append(dot);
        let minor = u64_to_dec(self.minor);
        r.append(minor.as_str());
        r.append(dot);
        let patch = u64_to_dec(self.patch);
        r.append(patch.as_str());
        proof {
            assert(r@ =~= version_text_of(*self));
        }
        r
    }

    /// Reads a version from `major.minor.patch`, an optional `v` in front;
    /// `None` exactly when the text is not of that form, or when a component
    /// is over `u64::MAX`.
    pub fn parse(s: &str) -> (r: Option<Version>)
        ensures
            match r {
                Some(v) => parse_version_text_of(s@) == Some(
                    (v.major as nat, v.minor as nat, v.patch as nat),
                ),
                None => match parse_version_text_of(s@) {
                    Some(t) => t.0 > u64::MAX || t.1 > u64::MAX || t.2 > u64::MAX,
                    None => true,
                },
            },
    {
        let n = s.unicode_len();
        let un_v: String;
        if n > 0 && s.get_char(0) == 'v' {
            un_v = substring_copy(s, 1, n);
            proof {
                assert(un_v@ =~= s@.subrange(1, s@.len() as int));
            }
        } else {
            un_v = s.to_owned();
        }
        Self::parse_dotted(un_v.as_str())
    }

    /// Reads `major.minor.patch` with no leading `v`.
    pub fn parse_dotted(s: &str) -> (r: Option<Version>)
        ensures
            match r {
                Some(v) => parse_version_of(s@) == Some(
                    (v.major as nat, v.minor as nat, v.patch as nat),
                ),
                None => match parse_version_of(s@) {
                    Some(t) => t.0 > u64::MAX || t.1 > u64::MAX || t.2 > u64::MAX,
                    None => true,
                },
            },
    {
        let n = s.unicode_len();
        let i = match str_find_char(s, '.') {
            Some(i) => i,
            None => {
                return None;
            },
        };
        let a_text = substring_copy(s, 0, i);
        let rest = substring_copy(s, i + 1, n);
        proof {
            assert(rest@ =~= s@.subrange(i + 1, s@.len() as int));
        }
        let rn = rest.as_str().unicode_len();
        let j = match str_find_char(rest.as_str(), '.') {
            Some(j) => j,
            None => {
                return None;
            },
        };
        let b_text = substring_copy(rest.as_str(), 0, j);
        let c_text = substring_copy(rest.as_str(), j + 1, rn);
        let major = match parse_u64_dec(a_text.as_str()) {
            Some(v) => v,
            None => {
                return None;
            },
        };
        let minor = match parse_u64_dec(b_text.as_str()) {
            Some(v) => v,
            None => {
                return None;
            },
        };
        let patch = match parse_u64_dec(c_text.as_str()) {
            Some(v) => v,
            None => {
                return None;
            },
        };
        Some(Version { major, minor, patch })
    }
}

/// Within text made of digits, a dot, and a tail, the first dot stands right
/// after the digits.
proof fn lemma_first_dot_after_digits(digits: Seq<char>, tail: Seq<char>)
    requires
        digits.len() > 0,
        all_digits(digits),
    ensures
        first_index_of(digits + seq!['.'] + tail, '.') == Some(digits.len() as int),
{
    let s = digits + seq!['.'] + tail;
    let p = digits.len() as int;
    assert(s[p] == '.');
    lemma_first_index_of(s, '.');
    match first_index_of(s, '.') {
        Some(i) => {
            if i < p {
                assert(s[i] == digits[i]);
                assert(is_digit(digits[i]));
            }
            if i > p {
                assert(s[p] != '.');
            }
        },
        None => {
            assert(s[p] != '.');
        },
    }
}

/// Rendering a version and reading the dotted text back yields the same
/// version.
pub proof fn lemma_version_round_trip_dotted(v: Version)
    ensures
        parse_version_of(version_text_of(v)) == Some(
            (v.major as nat, v.minor as nat, v.patch as nat),
        ),
{
    let a = dec_of(v.major as nat);
    let b = dec_of(v.minor as nat);
    let c = dec_of(v.patch as nat);
    let s = version_text_of(v);
    lemma_dec_of_digits(v.major as nat);
    lemma_dec_of_digits(v.minor as nat);
    lemma_dec_of_digits(v.patch as nat);
    assert(s =~= a + seq!['.'] + (b + seq!['.'] + c));
    lemma_first_dot_after_digits(a, b + seq!['.'] + c);
    let rest = s.subrange(a.len() as int + 1, s.len() as int);
    assert(rest =~= b + seq!['.'] + c);
    lemma_first_dot_after_digits(b, c);
    assert(s.subrange(0, a.len() as int) =~= a);
    assert(rest.subrange(0, b.len() as int) =~= b);
    assert(rest.subrange(b.len() as int + 1, rest.len() as int) =~= c);
    lemma_dec_round_trip(v.major as nat);
    lemma_dec_round_trip(v.minor as nat);
    lemma_dec_round_trip(v.patch as nat);
}

/// Rendering a version and reading the text back yields the same version.
pub proof fn lemma_version_round_trip(v: Version)
    ensures
        parse_version_text_of(version_text_of(v)) == Some(
            (v.major as nat, v.minor as nat, v.patch as nat),
        ),
{
    lemma_version_round_trip_dotted(v);
    let a = dec_of(v.major as nat);
    let s = version_text_of(v);
    lemma_dec_of_digits(v.major as nat);
    assert(s[0] == a[0]);
    assert(is_digit(a[0]));
    assert(s[0] != 'v');
}

/// The version of the released application (the native virtual machine).
#[derive(Clone, Copy, Debug, PartialEq, Eq, Structural)]
pub struct AppVersion {
    version: Version,
}

impl AppVersion {
    pub fn new(version: Version) -> (r: AppVersion)
        ensures
            r.version() == version,
    {
        AppVersion { version }
    }

    pub closed spec fn version(&self) -> Version {
        self.version
    }

    pub fn as_version(&self) -> (r: Version)
        ensures
            r == self.version(),
    {
        self.version
    }

    pub fn to_text(&self) -> (r: String)
        ensures
            r@ == version_text_of(self.version()),
    {
        self.version.to_text()
    }
}

/// The version of the released image (the content payload).
#[derive(Clone, Copy, Debug, PartialEq, Eq, Structural)]
pub struct ImageVersion {
    version: Version,
}

impl ImageVersion {
    pub fn new(version: Version) -> (r: ImageVersion)
        ensures
            r.version() == version,
    {
        ImageVersion { version }
    }

    pub closed spec fn version(&self) -> Version {
        self.version
    }

    pub fn as_version(&self) -> (r: Version)
        ensures
            r == self.version(),
    {
        self.version
    }

    pub fn to_text(&self) -> (r: String)
        ensures
            r@ == version_text_of(self.version()),
    {
        self.version.to_text()
    }
}

/// Which component of a version a release bumps.
#[derive(Clone, Copy, Debug, PartialEq, Eq, Structural)]
pub enum VersionBump {
    Major,
    Minor,
    Patch,
}

impl VersionBump {
    pub fn to_str(&self) -> (r: &'static str)
        ensures
            (*self == VersionBump::Major ==> r@ == "major"@) && (*self == VersionBump::Minor
                ==> r@ == "minor"@) && (*self == VersionBump::Patch ==> r@ == "patch"@),
    {
        match self {
            VersionBump::Major => "major",
            VersionBump::Minor => "minor",
            VersionBump::Patch => "patch",
        }
    }
}

} // verus!
