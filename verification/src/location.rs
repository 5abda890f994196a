//! Worker input/output locations: a command-line argument is either a
//! URL (an object-store destination) or a local filesystem path. The URL
//! text itself is kept in its parser's normalized form, so the rest of
//! the pipeline works on plain strings.

use vstd::prelude::*;

verus! {

/// What a `url::Url` parse yields for a given text: `None` when the text
/// is not an absolute URL, else the normalized form `Url::as_str` shows.
pub uninterp spec fn url_parse(s: Seq<char>) -> Option<Seq<char>>;

/// Where a worker reads its source or writes its output.
#[derive(Debug, Clone, PartialEq, Eq)]
pub enum Location {
    /// An object-store destination, in the URL's normalized text form.
    Url(String),
    /// A local filesystem path.
    Path(String),
}

impl Location {
    /// Relies on `url::Url::parse` and `Url::as_str`: text that parses
    /// as an absolute URL becomes that URL's normalized form, and any
    /// other text is taken as a filesystem path, unchanged.
    #[verifier::external_body]
    pub fn parse(s: &str) -> (r: Location)
        ensures
            (r is Url) == (url_parse(s@) is Some),
            r matches Location::Url(u) ==> url_parse(s@) == Some(u@),
            r matches Location::Path(p) ==> p@ == s@,
    {
        match url::Url::parse(s) {
            Ok(u) => Location::Url(u.as_str().to_owned()),
            Err(_) => Location::Path(s.to_owned()),
        }
    }

    /// The location as the text handed to external processes.
    pub fn to_str(&self) -> (r: &str)
        ensures
            self matches Location::Url(u) ==> r@ == u@,
            self matches Location::Path(p) ==> r@ == p@,
    {
        match self {
            Location::Url(u) => u.as_str(),
            Location::Path(p) => p.as_str(),
        }
    }
}

} // verus!
