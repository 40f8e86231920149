//! Locations: URL text paired with its scheme, and the conversion of `file`
//! URLs to local filesystem paths.
//!
//! A location keeps the URL exactly as the store holds it. What only a URL
//! parser can compute — whether the text is a well-formed URL, its scheme,
//! and its filesystem path — is obtained through the `url` crate and named
//! by the two uninterpreted functions below; everything built on top is
//! stated and proved over those names.

use vstd::prelude::*;

use crate::errors::RecentError;
use crate::strutil::str_eq;

verus! {

/// The scheme of the URL that `s` parses to, or `None` when `s` is not a
/// well-formed URL.
pub uninterp spec fn url_scheme(s: Seq<char>) -> Option<Seq<char>>;

/// The local filesystem path of the URL that `s` parses to, or `None` when
/// `s` is not a well-formed URL or its path has no local filesystem form
/// (for example a non-empty remote host).
pub uninterp spec fn url_to_path(s: Seq<char>) -> Option<Seq<char>>;

/// Relies on `url::Url::parse` and `Url::scheme`: parsing is a function of
/// the text alone, and `scheme` returns the parsed URL's normalized scheme.
#[verifier::external_body]
fn parse_scheme(s: &str) -> (r: Option<String>)
    ensures
        r is Some <==> url_scheme(s@) is Some,
        r is Some ==> r->0@ == url_scheme(s@)->0,
{
    match url::Url::parse(s) {
        Ok(u) => Some(u.scheme().to_string()),
        Err(_) => None,
    }
}

/// Relies on `url::Url::parse` and `Url::to_file_path`: both are functions
/// of the text alone; `to_file_path` fails on a host that is neither empty
/// nor `localhost` and on a path with no filesystem form.
#[verifier::external_body]
fn parse_file_path(s: &str) -> (r: Option<String>)
    ensures
        r is Some <==> url_to_path(s@) is Some,
        r is Some ==> r->0@ == url_to_path(s@)->0,
{
    match url::Url::parse(s) {
        Ok(u) => match u.to_file_path() {
            Ok(p) => Some(p.to_string_lossy().into_owned()),
            Err(()) => None,
        },
        Err(_) => None,
    }
}

/// The mathematical value of a [`Location`].
pub struct LocationModel {
    /// The URL text, exactly as stored.
    pub text: Seq<char>,
    /// The scheme of that URL.
    pub scheme: Seq<char>,
}

impl LocationModel {
    /// The stored scheme really is the scheme of the stored text.
    pub open spec fn wf(self) -> bool {
        url_scheme(self.text) == Some(self.scheme)
    }

    /// Whether the location is on the local filesystem.
    pub open spec fn is_local(self) -> bool {
        self.scheme == "file"@
    }
}

/// The location that URL text decodes to: the text itself with its scheme,
/// or `None` when the text is not a well-formed URL.
pub open spec fn decode_location(s: Seq<char>) -> Option<LocationModel> {
    match url_scheme(s) {
        Some(sch) => Some(LocationModel { text: s, scheme: sch }),
        None => None,
    }
}

/// A well-formed URL as the history store holds it: the raw text together
/// with its scheme, computed once when the location is built.
#[derive(Debug, Clone, PartialEq, Eq)]
pub struct Location {
    text: String,
    scheme: String,
}

impl View for Location {
    type V = LocationModel;

    closed spec fn view(&self) -> LocationModel {
        LocationModel { text: self.text@, scheme: self.scheme@ }
    }
}

impl DeepView for Location {
    type V = LocationModel;

    open spec fn deep_view(&self) -> LocationModel {
        self.view()
    }
}

impl Location {
    /// Builds a location from URL text; `None` when the text is not a
    /// well-formed URL.
    pub fn new(text: &str) -> (r: Option<Location>)
        ensures
            match decode_location(text@) {
                Some(m) => r is Some && r->0@ == m,
                None => r is None,
            },
            r is Some ==> r->0@.wf(),
    {
        match parse_scheme(text) {
            Some(scheme) => Some(Location { text: text.to_owned(), scheme }),
            None => None,
        }
    }

    /// The URL text.
    pub fn as_str(&self) -> (r: &str)
        ensures
            r@ == self@.text,
    {
        self.text.as_str()
    }

    /// The URL's scheme.
    pub fn scheme(&self) -> (r: &str)
        ensures
            r@ == self@.scheme,
    {
        self.scheme.as_str()
    }

    /// Whether the location is on the local filesystem.
    pub fn is_local(&self) -> (r: bool)
        ensures
            r == self@.is_local(),
    {
        str_eq(self.scheme.as_str(), "file")
    }

    /// The local filesystem path of this location.
    ///
    /// Fails with `NotLocal` when the scheme is not `file`, and with
    /// `MalformedUrl` when the `file` URL has no filesystem form.
    pub fn file_path(&self) -> (r: Result<String, RecentError>)
        ensures
            !self@.is_local() ==> r == Err::<String, RecentError>(RecentError::NotLocal),
            self@.is_local() ==> match url_to_path(self@.text) {
                Some(p) => r is Ok && r->Ok_0@ == p,
                None => r == Err::<String, RecentError>(RecentError::MalformedUrl),
            },
    {
        if !self.is_local() {
            return Err(RecentError::NotLocal);
        }
        match parse_file_path(self.text.as_str()) {
            Some(p) => Ok(p),
            None => Err(RecentError::MalformedUrl),
        }
    }
}

/// Converts URL text to a local filesystem path.
///
/// Succeeds exactly on well-formed URLs with scheme `file` whose path has a
/// filesystem form; fails with `MalformedUrl` when the text does not parse
/// (or the path has no filesystem form) and with `UnsupportedScheme` on any
/// scheme other than `file`.
pub fn path_from_url(url_text: &str) -> (r: Result<String, RecentError>)
    ensures
        match url_scheme(url_text@) {
            None => r == Err::<String, RecentError>(RecentError::MalformedUrl),
            Some(sch) => if sch != "file"@ {
                r == Err::<String, RecentError>(RecentError::UnsupportedScheme)
            } else {
                match url_to_path(url_text@) {
                    Some(p) => r is Ok && r->Ok_0@ == p,
                    None => r == Err::<String, RecentError>(RecentError::MalformedUrl),
                }
            },
        },
{
    match parse_scheme(url_text) {
        None => Err(RecentError::MalformedUrl),
        Some(scheme) => {
            if !str_eq(scheme.as_str(), "file") {
                return Err(RecentError::UnsupportedScheme);
            }
            match parse_file_path(url_text) {
                Some(p) => Ok(p),
                None => Err(RecentError::MalformedUrl),
            }
        },
    }
}

} // verus!
