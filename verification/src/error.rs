//! The closed set of failures the library can report.

use vstd::prelude::*;

verus! {

/// Everything that can go wrong while building, sending or decoding a query.
///
/// Every operation of the library either succeeds or returns exactly one
/// of these kinds; nothing is swallowed, logged or retried internally.
#[derive(Debug)]
pub enum InfluxDbError {
    /// The query failed to render (a write query with no fields), or was
    /// rejected as unsupported for the chosen endpoint.
    InvalidQueryError { error: String },
    /// The base URL and the request parameters could not form a valid URL.
    UrlConstructionError { error: String },
    /// The health-check exchange failed at the transport level.
    ProtocolError { error: String },
    /// A transport-level failure while sending or receiving the request.
    ConnectionError { error: String },
    /// The server answered with status 401: the caller is not who it claims.
    AuthorizationError,
    /// The server answered with status 403: the caller lacks permission.
    AuthenticationError,
    /// The server accepted the request but reported an application-level
    /// error in the response body.
    DatabaseError { error: String },
    /// The response bytes were not valid text, or did not match the
    /// expected JSON shape.
    DeserializationError { error: String },
}

impl InfluxDbError {
    /// The message carried by the error, or a fixed text for the kinds
    /// that carry none.
    pub fn text(&self) -> (r: String)
        ensures
            r@ == self.spec_text(),
    {
        match self {
            InfluxDbError::InvalidQueryError { error } => error.clone(),
            InfluxDbError::UrlConstructionError { error } => error.clone(),
            InfluxDbError::ProtocolError { error } => error.clone(),
            InfluxDbError::ConnectionError { error } => error.clone(),
            InfluxDbError::AuthorizationError => "authorization failure".to_owned(),
            InfluxDbError::AuthenticationError => "authentication failure".to_owned(),
            InfluxDbError::DatabaseError { error } => error.clone(),
            InfluxDbError::DeserializationError { error } => error.clone(),
        }
    }

    /// What `text` returns for each kind.
    pub open spec fn spec_text(&self) -> Seq<char> {
        match self {
            InfluxDbError::InvalidQueryError { error } => error@,
            InfluxDbError::UrlConstructionError { error } => error@,
            InfluxDbError::ProtocolError { error } => error@,
            InfluxDbError::ConnectionError { error } => error@,
            InfluxDbError::AuthorizationError => "authorization failure"@,
            InfluxDbError::AuthenticationError => "authentication failure"@,
            InfluxDbError::DatabaseError { error } => error@,
            InfluxDbError::DeserializationError { error } => error@,
        }
    }
}

} // verus!
