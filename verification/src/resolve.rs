//! The extension resolver.
//!
//! Two-tier policy: an extension derived from the response's URL is preferred,
//! because it is free and because many servers omit or misreport
//! `Content-Type`; the normalized content type is looked up in the MIME table
//! only when the URL holds no `.` at all. The whole resolution is a pure
//! function of the response: [`resolve_spec`] states its outcome at the view
//! level, and [`remote_file_ext`] returns exactly that outcome.

use vstd::prelude::*;
use vstd::string::StrSliceExecFns;

use crate::errors::ExtError;
use crate::mime::mime_ext_spec;
use crate::mime::mime_to_ext;
use crate::short_str::MAX_SHORT_STR_LEN;
use crate::short_str::ShortStr;
use crate::text::last_dot;
use crate::text::normalize_mime;
use crate::text::rfind_dot;

verus! {

/// The response abstraction the resolver consumes: the final/effective request
/// URL and the value of the `Content-Type` header, if one was present. The
/// HTTP layer that received the response fills it in; the resolver borrows it
/// read-only and reads nothing else of the response.
pub struct Response {
    pub url: String,
    pub content_type: Option<String>,
}

impl Response {
    /// The `Content-Type` header value at the view level.
    pub open spec fn content_type_view(&self) -> Option<Seq<char>> {
        match self.content_type {
            Some(c) => Some(c@),
            None => None,
        }
    }

    pub fn new(url: String, content_type: Option<String>) -> (r: Response)
        ensures
            r.url == url,
            r.content_type == content_type,
    {
        Response { url, content_type }
    }

    /// The final/effective request URL.
    pub fn get_url(&self) -> (r: &str)
        ensures
            r@ == self.url@,
    {
        self.url.as_str()
    }

    /// The value of the `Content-Type` header, if the response carried one.
    pub fn header_content_type(&self) -> (r: Option<&str>)
        ensures
            match r {
                Some(s) => self.content_type_view() == Some(s@),
                None => self.content_type_view() is None,
            },
    {
        match &self.content_type {
            Some(c) => Some(c.as_str()),
            None => None,
        }
    }
}

/// The outcome of one resolution, at the view level.
pub enum Resolution {
    /// An extension was resolved.
    Found(Seq<char>),
    /// The URL-derived extension exceeds the `ShortStr` bound.
    TooLong(Seq<char>),
    /// The content type has no table entry.
    Unknown(Seq<char>),
    /// The URL holds no `.` and no content type was declared.
    NoContentType,
}

/// The outcome resolution owes for the URL `url` and the declared content type
/// `ct`: the suffix of `url` from its last `.` when there is one (too long a
/// suffix is a hard error, with no fallback to the header), else the table
/// entry for the normalized content type.
pub open spec fn resolve_spec(url: Seq<char>, ct: Option<Seq<char>>) -> Resolution {
    match last_dot(url) {
        Some(i) => {
            let ext = url.subrange(i, url.len() as int);
            if ext.len() <= MAX_SHORT_STR_LEN {
                Resolution::Found(ext)
            } else {
                Resolution::TooLong(ext)
            }
        },
        None => match ct {
            None => Resolution::NoContentType,
            Some(c) => match mime_ext_spec(normalize_mime(c)) {
                Some(e) => Resolution::Found(e),
                None => Resolution::Unknown(c),
            },
        },
    }
}

/// The view-level outcome that an executable result denotes.
pub open spec fn result_model(r: Result<ShortStr, ExtError>) -> Resolution {
    match r {
        Ok(ext) => Resolution::Found(ext@),
        Err(ExtError::ExtensionTooLong(s)) => Resolution::TooLong(s@),
        Err(ExtError::UnknownMimeType(s)) => Resolution::Unknown(s@),
        Err(ExtError::MissingContentType) => Resolution::NoContentType,
    }
}

/// Returns the file extension most suitable for the content of the response.
///
/// The substring of the URL from its last `.` is returned verbatim when there
/// is one and it fits the `ShortStr` bound — no MIME lookup happens in that
/// path, and too long a suffix fails with [`ExtError::ExtensionTooLong`]
/// rather than falling through. Only a URL without any `.` falls back to the
/// `Content-Type` header: a missing header fails with
/// [`ExtError::MissingContentType`], an unknown normalized type with
/// [`ExtError::UnknownMimeType`].
pub fn remote_file_ext(response: &Response) -> (r: Result<ShortStr, ExtError>)
    ensures
        result_model(r) == resolve_spec(response.url@, response.content_type_view()),
        r matches Ok(ext) ==> ext.wf(),
{
    let path = response.get_url();
    if let Some(dot) = rfind_dot(path) {
        let n = path.unicode_len();
        let ext = path.substring_char(dot, n);
        match ShortStr::new(ext) {
            Some(v) => Ok(v),
            None => Err(ExtError::ExtensionTooLong(ext.to_owned())),
        }
    } else {
        match response.header_content_type() {
            Some(content_type) => mime_to_ext(content_type),
            None => Err(ExtError::MissingContentType),
        }
    }
}

/// Resolution has no hidden state: any two results that meet the contract of
/// [`remote_file_ext`] for the same URL and declared content type have the
/// same view-level outcome, so calling it twice on one response yields
/// identical results.
pub proof fn lemma_resolution_idempotent(
    r1: Result<ShortStr, ExtError>,
    r2: Result<ShortStr, ExtError>,
    url: Seq<char>,
    ct: Option<Seq<char>>,
)
    requires
        result_model(r1) == resolve_spec(url, ct),
        result_model(r2) == resolve_spec(url, ct),
    ensures
        result_model(r1) == result_model(r2),
{
}

} // verus!
