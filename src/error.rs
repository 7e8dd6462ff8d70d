//! The errors of the cache and the HTTP status that each one is answered with.

use vstd::prelude::*;
use vstd::string::*;
use crate::narinfo::{decimal, decimal_of};
use opendal::Error as OpendalError;
use opendal::ErrorKind as OpendalErrorKind;

verus! {

#[verifier::external_type_specification]
#[verifier::external_body]
pub struct ExOpendalError(OpendalError);

#[verifier::external_type_specification]
pub struct ExOpendalErrorKind(OpendalErrorKind);

/// The kind that a blob backend failure carries.
pub uninterp spec fn kind_of(e: OpendalError) -> OpendalErrorKind;

/// Relies on opendal::Error::kind, which returns the kind the error was
/// made with.
pub assume_specification[ OpendalError::kind ](e: &OpendalError) -> (r: OpendalErrorKind)
    ensures
        r == kind_of(*e),
;

/// The kinds of blob backend failure that the status mapping tells apart.
#[derive(Clone, Copy, Debug, PartialEq, Eq, Structural)]
pub enum BackendErrorKind {
    RateLimited,
    NotFound,
    Other,
}

/// A failure reported by the blob backend: its kind and its description.
#[derive(Debug, PartialEq, Eq)]
pub struct BackendError {
    pub kind: BackendErrorKind,
    pub message: String,
}

/// Everything that can go wrong while serving a request.
#[derive(Debug, PartialEq, Eq)]
pub enum Error {
    /// A local I/O failure while streaming or compressing.
    IO(String),
    /// The blob backend failed.
    Api(BackendError),
    /// Neither the backend nor an upstream has the object.
    NotFound,
    /// The request path is malformed.
    BadRequest,
    /// A local I/O failure, with what was being done.
    Io(String, String),
    /// The operation needs the blob backend, which is not configured.
    GHADisabled,
    /// The FlakeHub cache failed.
    FlakeHub(String),
    /// An HTTP request to FlakeHub failed.
    FlakeHubHttp(String),
    /// FlakeHub answered this status, with this body, when asked for the
    /// cache name.
    GetCacheName(u16, String),
    /// The netrc file could not be read.
    Netrc(String),
    /// The netrc file has no credentials for this host.
    MissingCreds(String),
    /// The store failed.
    Attic(String),
    /// This URL is unusable.
    BadUrl(String),
    /// The configuration is unusable.
    Config(String),
    /// An internal failure, such as the worker having stopped.
    Internal(String),
}

/// The HTTP status that answers an error. A generic backend failure is
/// answered with 418, which the Nix client reports without retrying; a plain
/// server error would make it retry.
pub open spec fn status_of(e: Error) -> u16 {
    match e {
        Error::Api(b) => match b.kind {
            BackendErrorKind::RateLimited => 429,
            BackendErrorKind::NotFound => 404,
            BackendErrorKind::Other => 418,
        },
        Error::NotFound => 404,
        Error::BadRequest => 400,
        Error::GHADisabled => 503,
        _ => 500,
    }
}

/// The text of the response body that carries an error.
pub open spec fn message_of(e: Error) -> Seq<char> {
    match e {
        Error::IO(m) => "IO error: "@ + m@,
        Error::Api(b) => "GitHub API error: "@ + b.message@,
        Error::NotFound => "Not Found"@,
        Error::BadRequest => "Bad Request"@,
        Error::Io(m, c) => "I/O error: "@ + m@ + ". Context: "@ + c@,
        Error::GHADisabled => "GHA cache is disabled"@,
        Error::FlakeHub(m) => "FlakeHub cache error: "@ + m@,
        Error::FlakeHubHttp(m) => "FlakeHub HTTP error: "@ + m@,
        Error::GetCacheName(code, m) => "Got HTTP response "@ + decimal_of(code as nat)
            + " getting the cache name from FlakeHub: "@ + m@,
        Error::Netrc(m) => "netrc parse error: "@ + m@,
        Error::MissingCreds(h) => "Cannot find netrc credentials for "@ + h@,
        Error::Attic(m) => "Attic error: "@ + m@,
        Error::BadUrl(_) => "Bad URL"@,
        Error::Config(m) => "Configuration error: "@ + m@,
        Error::Internal(m) => "Internal error: "@ + m@,
    }
}

impl Error {
    /// The HTTP status of the response that reports this error.
    pub fn status_code(&self) -> (r: u16)
        ensures
            r == status_of(*self),
    {
        match self {
            Error::Api(b) => match b.kind {
                BackendErrorKind::RateLimited => 429,
                BackendErrorKind::NotFound => 404,
                BackendErrorKind::Other => 418,
            },
            Error::NotFound => 404,
            Error::BadRequest => 400,
            Error::GHADisabled => 503,
            _ => 500,
        }
    }

    /// The body of the response that reports this error.
    pub fn message(&self) -> (r: String)
        ensures
            r@ == message_of(*self),
    {
        proof {
            reveal_strlit("IO error: ");
            reveal_strlit("GitHub API error: ");
            reveal_strlit("Not Found");
            reveal_strlit("Bad Request");
            reveal_strlit("I/O error: ");
            reveal_strlit(". Context: ");
            reveal_strlit("GHA cache is disabled");
            reveal_strlit("Configuration error: ");
            reveal_strlit("Internal error: ");
            reveal_strlit("FlakeHub cache error: ");
            reveal_strlit("FlakeHub HTTP error: ");
            reveal_strlit("Got HTTP response ");
            reveal_strlit(" getting the cache name from FlakeHub: ");
            reveal_strlit("netrc parse error: ");
            reveal_strlit("Cannot find netrc credentials for ");
            reveal_strlit("Attic error: ");
            reveal_strlit("Bad URL");
        }
        match self {
            Error::IO(m) => String::from_str("IO error: ").concat(m.as_str()),
            Error::Api(b) => String::from_str("GitHub API error: ").concat(b.message.as_str()),
            Error::NotFound => String::from_str("Not Found"),
            Error::BadRequest => String::from_str("Bad Request"),
            Error::Io(m, c) => String::from_str("I/O error: ").concat(m.as_str()).concat(
                ". Context: ",
            ).concat(c.as_str()),
            Error::GHADisabled => String::from_str("GHA cache is disabled"),
            Error::FlakeHub(m) => String::from_str("FlakeHub cache error: ").concat(m.as_str()),
            Error::FlakeHubHttp(m) => String::from_str("FlakeHub HTTP error: ").concat(m.as_str()),
            Error::GetCacheName(code, m) => {
                let digits = decimal(*code as u64);
                String::from_str("Got HTTP response ").concat(digits.as_str()).concat(
                    " getting the cache name from FlakeHub: ",
                ).concat(m.as_str())
            },
            Error::Netrc(m) => String::from_str("netrc parse error: ").concat(m.as_str()),
            Error::MissingCreds(h) => String::from_str("Cannot find netrc credentials for ").concat(
                h.as_str(),
            ),
            Error::Attic(m) => String::from_str("Attic error: ").concat(m.as_str()),
            Error::BadUrl(_) => String::from_str("Bad URL"),
            Error::Config(m) => String::from_str("Configuration error: ").concat(m.as_str()),
            Error::Internal(m) => String::from_str("Internal error: ").concat(m.as_str()),
        }
    }

    /// The error for a failure that the blob backend reported, sorted by its
    /// kind.
    pub fn from_backend(e: &OpendalError) -> (r: Error)
        ensures
            r matches Error::Api(b) && b.kind == kind_class(kind_of(*e)),
    {
        let kind = backend_error_kind(e);
        let message = backend_error_text(e);
        Error::Api(BackendError { kind, message })
    }
}

/// Rate limiting and missing objects, told apart from the backend's other
/// failures.
pub open spec fn kind_class(k: OpendalErrorKind) -> BackendErrorKind {
    match k {
        OpendalErrorKind::RateLimited => BackendErrorKind::RateLimited,
        OpendalErrorKind::NotFound => BackendErrorKind::NotFound,
        _ => BackendErrorKind::Other,
    }
}

fn backend_error_kind(e: &OpendalError) -> (r: BackendErrorKind)
    ensures
        r == kind_class(kind_of(*e)),
{
    match e.kind() {
        OpendalErrorKind::RateLimited => BackendErrorKind::RateLimited,
        OpendalErrorKind::NotFound => BackendErrorKind::NotFound,
        _ => BackendErrorKind::Other,
    }
}

/// Relies on opendal::Error's Display impl, for the description of a failure.
#[verifier::external_body]
fn backend_error_text(e: &OpendalError) -> String {
    e.to_string()
}

} // verus!
