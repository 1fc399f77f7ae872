use vstd::prelude::*;

use crate::error::InstallerError;

verus! {

/// Whether a text is a well-formed address; this depends on the text
/// alone.
pub uninterp spec fn url_ok(s: Seq<char>) -> bool;

/// Relies on url::Url::parse: whether a text parses as an address depends
/// on the text alone.
#[verifier::external_body]
fn url_parses(s: &str) -> (r: bool)
    ensures
        r == url_ok(s@),
{
    url::Url::parse(s).is_ok()
}

/// Checks an address before it is stored or fetched: a text that does not
/// parse as one is its own error, naming the text.
pub fn validate_url(s: &str) -> (r: Result<(), InstallerError>)
    ensures
        match r {
            Ok(()) => url_ok(s@),
            Err(e) => !url_ok(s@) && (e matches InstallerError::UrlParseError(t) && t@ == s@),
        },
{
    if url_parses(s) {
        Ok(())
    } else {
        Err(InstallerError::UrlParseError(s.to_owned()))
    }
}

} // verus!
