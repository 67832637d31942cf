//! The client: holds the connection target, database name and optional
//! credentials; plans the HTTP request for a query and classifies the
//! server's response.

use vstd::prelude::*;
use vstd::string::*;
use vstd::utf8::{decode_utf8, valid_utf8};

use crate::error::InfluxDbError;
use crate::query::write_query::spec_precision;
use crate::query::{spec_build_ok, spec_query_text, InfluxDbQuery};
use crate::text::{contains_seq, str_contains};

verus! {

/// Username and password presented to the database.
#[derive(Clone, Debug)]
pub struct InfluxDbAuthentication {
    pub username: String,
    pub password: String,
}

/// A handle on one InfluxDB database: the base URL where it runs, the
/// database to address, and the credentials to present, if any.
#[derive(Clone, Debug)]
pub struct InfluxDbClient {
    pub url: String,
    pub database: String,
    pub auth: Option<InfluxDbAuthentication>,
}

/// The basic request parameters derived from a client: the database
/// name, then — only with credentials — the username and the password.
pub open spec fn spec_basic_parameters(c: &InfluxDbClient) -> Seq<(Seq<char>, Seq<char>)> {
    match c.auth {
        None => seq![("db"@, c.database@)],
        Some(a) => seq![("db"@, c.database@), ("u"@, a.username@), ("p"@, a.password@)],
    }
}

/// The HTTP verb of a planned request.
#[derive(Clone, Copy, Debug, PartialEq, Eq, Structural)]
pub enum Method {
    Get,
    Post,
}

/// A fully planned HTTP request: everything a transport needs to send it.
#[derive(Debug)]
pub struct InfluxDbRequest {
    pub method: Method,
    pub url: String,
    pub body: Option<String>,
}

/// What `url::Url::parse_with_params` yields for a base URL and a list
/// of query parameters: the rendered URL, or the parse error's message.
pub uninterp spec fn spec_url_with_params(base: Seq<char>, params: Seq<(Seq<char>, Seq<char>)>) -> Result<
    Seq<char>,
    Seq<char>,
>;

/// Relies on `url::Url::parse_with_params`: parses the base URL, appends
/// each pair percent-encoded to its query string, and renders the result;
/// both the URL and the error message are functions of the inputs alone.
#[verifier::external_body]
pub(crate) fn parse_url_with_params(base: &str, params: &Vec<(String, String)>) -> (r: Result<
    String,
    String,
>)
    ensures
        ({
            let outcome = spec_url_with_params(base@, params.deep_view());
            match r {
                Ok(u) => outcome matches Ok(s) && u@ == s,
                Err(e) => outcome matches Err(m) && e@ == m,
            }
        }),
{
    match url::Url::parse_with_params(base, params) {
        Ok(u) => Ok(String::from(u)),
        Err(e) => Err(e.to_string()),
    }
}

/// Relies on `std::str::from_utf8`: returns the decoded text exactly
/// when the bytes are valid UTF-8, and nothing otherwise.
#[verifier::external_body]
fn bytes_as_str(body: &Vec<u8>) -> (r: Option<&str>)
    ensures
        r matches Some(s) ==> valid_utf8(body@) && s@ == decode_utf8(body@),
        r is None ==> !valid_utf8(body@),
{
    std::str::from_utf8(body.as_slice()).ok()
}

/// A read query routed through the query endpoint uses `GET` exactly
/// when its rendered text contains `SELECT` or `SHOW`.
pub open spec fn spec_uses_get(text: Seq<char>) -> bool {
    contains_seq(text, "SELECT"@) || contains_seq(text, "SHOW"@)
}

/// The verb a query is sent with: `GET` for read-only read queries,
/// `POST` for every other read query and for every write query.
pub open spec fn spec_query_method(q: &InfluxDbQuery) -> Method {
    match q {
        InfluxDbQuery::Read(_) => if spec_uses_get(spec_query_text(q)) {
            Method::Get
        } else {
            Method::Post
        },
        InfluxDbQuery::Write(_) => Method::Post,
    }
}

/// The URL a query is sent to: the query endpoint with the rendered text
/// under `q` for reads, the write endpoint with the precision parameter
/// for writes; basic parameters come first in both.
pub open spec fn spec_query_url(c: &InfluxDbClient, q: &InfluxDbQuery) -> Result<
    Seq<char>,
    Seq<char>,
> {
    match q {
        InfluxDbQuery::Read(_) => spec_url_with_params(
            c.url@ + "/query"@,
            spec_basic_parameters(c).push(("q"@, spec_query_text(q))),
        ),
        InfluxDbQuery::Write(wq) => spec_url_with_params(
            c.url@ + "/write"@,
            spec_basic_parameters(c).push(("precision"@, spec_precision(wq.timestamp))),
        ),
    }
}

impl InfluxDbClient {
    /// Creates a client for the database at the given base URL, with no
    /// credentials.
    pub fn new(url: &str, database: &str) -> (r: Self)
        ensures
            r.url@ == url@,
            r.database@ == database@,
            r.auth is None,
    {
        InfluxDbClient { url: url.to_owned(), database: database.to_owned(), auth: None }
    }

    /// Returns a client equal to this one but presenting the given
    /// credentials.
    pub fn with_auth(self, username: &str, password: &str) -> (r: Self)
        ensures
            r.url@ == self.url@,
            r.database@ == self.database@,
            r.auth matches Some(a) && a.username@ == username@ && a.password@ == password@,
    {
        InfluxDbClient {
            auth: Some(
                InfluxDbAuthentication {
                    username: username.to_owned(),
                    password: password.to_owned(),
                },
            ),
            ..self
        }
    }

    /// The name of the database the client addresses.
    pub fn database_name(&self) -> (r: &str)
        ensures
            r@ == self.database@,
    {
        self.database.as_str()
    }

    /// The base URL of the InfluxDB installation the client talks to.
    pub fn database_url(&self) -> (r: &str)
        ensures
            r@ == self.url@,
    {
        self.url.as_str()
    }

    /// The basic request parameters, derived on demand, borrowed access.
    pub fn basic_parameters(&self) -> (r: Vec<(String, String)>)
        ensures
            r.deep_view() == spec_basic_parameters(self),
    {
        let mut out: Vec<(String, String)> = Vec::new();
        out.push(("db".to_owned(), self.database.clone()));
        match &self.auth {
            Some(a) => {
                out.push(("u".to_owned(), a.username.clone()));
                out.push(("p".to_owned(), a.password.clone()));
            },
            None => {},
        }
        proof {
            assert(out.deep_view() =~= spec_basic_parameters(self));
        }
        out
    }

    /// The basic request parameters, derived on demand, owned access.
    pub fn into_basic_parameters(self) -> (r: Vec<(String, String)>)
        ensures
            r.deep_view() == spec_basic_parameters(&self),
    {
        let mut out: Vec<(String, String)> = Vec::new();
        out.push(("db".to_owned(), self.database));
        match self.auth {
            Some(a) => {
                out.push(("u".to_owned(), a.username));
                out.push(("p".to_owned(), a.password));
            },
            None => {},
        }
        proof {
            assert(out.deep_view() =~= spec_basic_parameters(&self));
        }
        out
    }

    /// The URL of the health-check endpoint.
    pub fn ping_url(&self) -> (r: String)
        ensures
            r@ == self.url@ + "/ping"@,
    {
        self.url.clone().concat("/ping")
    }

    /// Plans the request that carries the query: renders it, builds the
    /// URL with the basic parameters, and chooses the verb. A render
    /// failure becomes an invalid-query error and a URL failure a
    /// URL-construction error, each before any request could be sent.
    pub fn prepare_query(&self, q: &InfluxDbQuery) -> (r: Result<InfluxDbRequest, InfluxDbError>)
        ensures
            !spec_build_ok(q) ==> (r matches Err(e) && (e matches
            InfluxDbError::InvalidQueryError { error } && error@ == "fields cannot be empty"@)),
            spec_build_ok(q) ==> match spec_query_url(self, q) {
                Ok(u) => (r matches Ok(req) && req.method == spec_query_method(q) && req.url@ == u
                    && (match q {
                    InfluxDbQuery::Read(_) => req.body is None,
                    InfluxDbQuery::Write(_) => req.body matches Some(b) && b@ == spec_query_text(
                        q,
                    ),
                })),
                Err(m) => (r matches Err(e) && (e matches InfluxDbError::UrlConstructionError {
                    error,
                } && error@ == m)),
            },
    {
        let query = match q.build() {
            Err(err) => {
                return Err(InfluxDbError::InvalidQueryError { error: err.text() });
            },
            Ok(query) => query,
        };
        let mut params = self.basic_parameters();
        match q {
            InfluxDbQuery::Read(_) => {
                let read_query = query.get();
                params.push(("q".to_owned(), read_query.clone()));
                proof {
                    assert(params.deep_view() =~= spec_basic_parameters(self).push(
                        ("q"@, spec_query_text(q)),
                    ));
                }
                let endpoint = self.url.clone().concat("/query");
                let url = match parse_url_with_params(endpoint.as_str(), &params) {
                    Ok(u) => u,
                    Err(e) => {
                        return Err(InfluxDbError::UrlConstructionError { error: e });
                    },
                };
                let method = if str_contains(read_query.as_str(), "SELECT") || str_contains(
                    read_query.as_str(),
                    "SHOW",
                ) {
                    Method::Get
                } else {
                    Method::Post
                };
                Ok(InfluxDbRequest { method, url, body: None })
            },
            InfluxDbQuery::Write(wq) => {
                params.push(("precision".to_owned(), wq.get_precision()));
                proof {
                    assert(params.deep_view() =~= spec_basic_parameters(self).push(
                        ("precision"@, spec_precision(wq.timestamp)),
                    ));
                }
                let endpoint = self.url.clone().concat("/write");
                let url = match parse_url_with_params(endpoint.as_str(), &params) {
                    Ok(u) => u,
                    Err(e) => {
                        return Err(InfluxDbError::UrlConstructionError { error: e });
                    },
                };
                Ok(InfluxDbRequest { method: Method::Post, url, body: Some(query.get()) })
            },
        }
    }
}

/// Classifies a response: status 401 is an authorization failure and 403
/// an authentication failure, whatever the body holds; any other status
/// has its body decoded as text and inspected — a body containing the
/// text `"error"` is a database-level failure even under status 200.
pub fn classify_response(status: u16, body: &Vec<u8>) -> (r: Result<String, InfluxDbError>)
    ensures
        status == 401 ==> (r matches Err(e) && e is AuthorizationError),
        status == 403 ==> (r matches Err(e) && e is AuthenticationError),
        status != 401 && status != 403 ==> {
            if !valid_utf8(body@) {
                r matches Err(e) && (e matches InfluxDbError::DeserializationError { error }
                    && error@ == "response could not be converted to UTF-8 encoded string"@)
            } else if contains_seq(decode_utf8(body@), "\"error\""@) {
                r matches Err(e) && (e matches InfluxDbError::DatabaseError { error } && error@
                    == "influxdb error: \""@ + decode_utf8(body@) + "\""@)
            } else {
                r matches Ok(s) && s@ == decode_utf8(body@)
            }
        },
{
    if status == 401 {
        return Err(InfluxDbError::AuthorizationError);
    }
    if status == 403 {
        return Err(InfluxDbError::AuthenticationError);
    }
    match bytes_as_str(body) {
        None => Err(
            InfluxDbError::DeserializationError {
                error: "response could not be converted to UTF-8 encoded string".to_owned(),
            },
        ),
        Some(s) => {
            if str_contains(s, "\"error\"") {
                let message = String::from_str("influxdb error: \"").concat(s).concat("\"");
                Err(InfluxDbError::DatabaseError { error: message })
            } else {
                Ok(s.to_owned())
            }
        },
    }
}

} // verus!
