//! The publish boundary's error taxonomy.
//!
//! A failed remote write is classified into one of nine kinds, each a
//! terminal local outcome: it is rendered as a single diagnostic line,
//! reported, and discharged — never retried, never allowed to crash the
//! process.  The shell folds the remote client's error values into this
//! taxonomy at the boundary; payload details arrive already formatted as
//! plain strings.

use vstd::prelude::*;
use vstd::string::StringExecFns;
use crate::digits::dec_chars;
use crate::digits::fmt_u64;

verus! {

/// The one permission string the access token is scoped to: datastore write.
pub fn datastore_scope() -> (r: String)
    ensures
        r@ == "https://www.googleapis.com/auth/datastore"@,
{
    "https://www.googleapis.com/auth/datastore".to_owned()
}

/// The fixed parent path under which documents are created.
pub fn document_path() -> (r: String)
    ensures
        r@ == "projects/home-env/databases/(default)/documents"@,
{
    "projects/home-env/databases/(default)/documents".to_owned()
}

/// The collection that holds the measurement documents.
pub fn collection_name() -> (r: String)
    ensures
        r@ == "measurements"@,
{
    "measurements".to_owned()
}

/// Why a publish attempt failed.
#[derive(PartialEq, Eq, Debug)]
pub enum PublishError {
    /// The underlying HTTP/TLS call failed (connection, DNS, handshake).
    TransportError(String),
    /// A required credential field was absent from the loaded key material.
    MissingCredentialMaterial,
    /// Token exchange did not yield a usable token.
    MissingAuthToken(String),
    /// The request was aborted before completion.
    Cancelled,
    /// The document body of the carried size exceeded the carried limit.
    PayloadTooLarge(u64, u64),
    /// The remote service returned a generic failure status.
    RemoteFailure(String),
    /// The remote service rejected the request as malformed.
    BadRequest(String),
    /// A field-naming conflict was detected in the document schema.
    FieldConflict(String),
    /// The remote response body could not be parsed as expected.
    ResponseDecodeError(String),
}

impl PublishError {
    /// The one diagnostic line reported for this failure.
    pub open spec fn diagnostic_chars(self) -> Seq<char> {
        match self {
            PublishError::TransportError(d) => "transport error: "@ + d@,
            PublishError::MissingCredentialMaterial => "missing credential material"@,
            PublishError::MissingAuthToken(d) => "missing auth token: "@ + d@,
            PublishError::Cancelled => "request cancelled"@,
            PublishError::PayloadTooLarge(size, limit) => "payload too large: "@ + dec_chars(
                size as nat,
            ) + " exceeds limit "@ + dec_chars(limit as nat),
            PublishError::RemoteFailure(d) => "remote failure: "@ + d@,
            PublishError::BadRequest(d) => "bad request: "@ + d@,
            PublishError::FieldConflict(d) => "field conflict: "@ + d@,
            PublishError::ResponseDecodeError(d) => "response decode error: "@ + d@,
        }
    }

    /// Render the diagnostic line; defined for every kind, so reporting a
    /// failure can itself never fail.
    pub fn diagnostic(&self) -> (r: String)
        ensures
            r@ == self.diagnostic_chars(),
    {
        match self {
            PublishError::TransportError(d) => {
                let mut s = "transport error: ".to_owned();
                s.append(d.as_str());
                s
            },
            PublishError::MissingCredentialMaterial => "missing credential material".to_owned(),
            PublishError::MissingAuthToken(d) => {
                let mut s = "missing auth token: ".to_owned();
                s.append(d.as_str());
                s
            },
            PublishError::Cancelled => "request cancelled".to_owned(),
            PublishError::PayloadTooLarge(size, limit) => {
                let mut s = "payload too large: ".to_owned();
                s.append(fmt_u64(*size).as_str());
                s.append(" exceeds limit ");
                s.append(fmt_u64(*limit).as_str());
                s
            },
            PublishError::RemoteFailure(d) => {
                let mut s = "remote failure: ".to_owned();
                s.append(d.as_str());
                s
            },
            PublishError::BadRequest(d) => {
                let mut s = "bad request: ".to_owned();
                s.append(d.as_str());
                s
            },
            PublishError::FieldConflict(d) => {
                let mut s = "field conflict: ".to_owned();
                s.append(d.as_str());
                s
            },
            PublishError::ResponseDecodeError(d) => {
                let mut s = "response decode error: ".to_owned();
                s.append(d.as_str());
                s
            },
        }
    }
}

} // verus!
