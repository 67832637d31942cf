//! Structured decoding of query responses: parses a successful response
//! body into a nested result/series/value structure and offers typed
//! extraction of one series set at a time.

use vstd::prelude::*;
use vstd::string::*;

use crate::client::{
    spec_basic_parameters, spec_url_with_params, spec_uses_get, InfluxDbClient, InfluxDbRequest,
    Method,
};
use crate::error::InfluxDbError;
use crate::query::read_query::InfluxDbReadQuery;
use crate::text::{seq_join, str_contains};

verus! {

#[verifier::external_type_specification]
#[verifier::external_body]
pub struct ExValue(serde_json::Value);

/// What `serde_json::from_slice` yields for `serde_json::Value`: the
/// parsed value when the bytes are one well-formed JSON document, and
/// the parser's error message otherwise.
pub uninterp spec fn spec_json_value_of(bytes: Seq<u8>) -> Result<serde_json::Value, Seq<char>>;

/// Relies on `serde_json::from_slice` for `serde_json::Value`: the
/// parse outcome, the error message included, is a function of the
/// bytes alone.
#[verifier::external_body]
fn parse_json(bytes: &Vec<u8>) -> (r: Result<serde_json::Value, String>)
    ensures
        ({
            let parsed = spec_json_value_of(bytes@);
            match r {
                Ok(v) => parsed matches Ok(s) && v == s,
                Err(m) => parsed matches Err(t) && m@ == t,
            }
        }),
{
    match serde_json::from_slice::<serde_json::Value>(bytes.as_slice()) {
        Ok(v) => Ok(v),
        Err(e) => Err(e.to_string()),
    }
}

/// What `serde_json::Value::get` yields: the value under the key when
/// this value is a JSON object holding that key, and nothing otherwise.
pub uninterp spec fn spec_field_of(v: serde_json::Value, key: Seq<char>) -> Option<
    serde_json::Value,
>;

/// Relies on `serde_json::Value::get`: the lookup outcome is a function
/// of the value and the key alone.
#[verifier::external_body]
fn json_get<'a>(v: &'a serde_json::Value, key: &str) -> (r: Option<&'a serde_json::Value>)
    ensures
        ({
            let looked_up = spec_field_of(*v, key@);
            match r {
                Some(f) => looked_up matches Some(s) && *f == s,
                None => looked_up is None,
            }
        }),
{
    v.get(key)
}

/// What `serde_json::Value::as_str` yields: the text carried by a JSON
/// string value, and nothing for any other kind of value.
pub uninterp spec fn spec_text_of(v: serde_json::Value) -> Option<Seq<char>>;

/// Relies on `serde_json::Value::as_str`: the outcome is a function of
/// the value alone.
#[verifier::external_body]
fn json_as_str(v: &serde_json::Value) -> (r: Option<String>)
    ensures
        ({
            let text = spec_text_of(*v);
            match r {
                Some(s) => text matches Some(t) && s@ == t,
                None => text is None,
            }
        }),
{
    match v.as_str() {
        Some(s) => Some(s.to_string()),
        None => None,
    }
}

/// What `serde_json::Value::as_array` yields: the elements of a JSON
/// array value, in order, and nothing for any other kind of value.
pub uninterp spec fn spec_elements_of(v: serde_json::Value) -> Option<Seq<serde_json::Value>>;

/// Relies on `serde_json::Value::as_array`: the outcome is a function
/// of the value alone.
#[verifier::external_body]
fn json_as_array<'a>(v: &'a serde_json::Value) -> (r: Option<&'a Vec<serde_json::Value>>)
    ensures
        ({
            let elements = spec_elements_of(*v);
            match r {
                Some(a) => elements matches Some(es) && a@ == es,
                None => elements is None,
            }
        }),
{
    v.as_array()
}

/// Relies on `serde_json::Value::clone`: the clone is the same value.
#[verifier::external_body]
fn json_clone(v: &serde_json::Value) -> (r: serde_json::Value)
    ensures
        r == *v,
{
    v.clone()
}

/// The error envelope's message carried by a parsed body: the string
/// under `error`, if the body is an object holding one.
pub open spec fn spec_error_message(v: serde_json::Value) -> Option<Seq<char>> {
    match spec_field_of(v, "error"@) {
        Some(ev) => spec_text_of(ev),
        None => None,
    }
}

/// The results carried by a parsed body: the array under `results`, if
/// the body is an object holding one.
pub open spec fn spec_results_array(v: serde_json::Value) -> Option<Seq<serde_json::Value>> {
    match spec_field_of(v, "results"@) {
        Some(rv) => spec_elements_of(rv),
        None => None,
    }
}

/// How one series entry decodes: its `name` string and its `values`
/// array, when it is an object carrying both in those shapes.
pub open spec fn spec_series_decoded(v: serde_json::Value) -> Option<
    (Seq<char>, Seq<serde_json::Value>),
> {
    match spec_field_of(v, "name"@) {
        Some(nv) => match spec_text_of(nv) {
            Some(name) => match spec_field_of(v, "values"@) {
                Some(vv) => match spec_elements_of(vv) {
                    Some(rows) => Some((name, rows)),
                    None => None,
                },
                None => None,
            },
            None => None,
        },
        None => None,
    }
}

/// How one result entry decodes: the name and rows of each entry of its
/// `series` array, in order, when every entry has the series shape.
pub open spec fn spec_return_decoded(v: serde_json::Value) -> Option<
    Seq<(Seq<char>, Seq<serde_json::Value>)>,
> {
    match spec_field_of(v, "series"@) {
        Some(sv) => match spec_elements_of(sv) {
            Some(entries) => if forall|i: int|
                0 <= i < entries.len() ==> spec_series_decoded(#[trigger] entries[i]) is Some {
                Some(Seq::new(entries.len(), |i: int| spec_series_decoded(entries[i])->0))
            } else {
                None
            },
            None => None,
        },
        None => None,
    }
}

/// The responses to one query, one opaque entry per statement, each
/// decodable exactly once, in order.
#[derive(Debug)]
pub struct DatabaseQueryResult {
    pub results: Vec<serde_json::Value>,
}

/// One decoded result: the series it holds, in order.
#[derive(Debug)]
pub struct InfluxDbReturn<T> {
    pub series: Vec<InfluxDbSeries<T>>,
}

/// One returned series: its name and its rows, in order.
#[derive(Debug)]
pub struct InfluxDbSeries<T> {
    pub name: String,
    pub values: Vec<T>,
}

/// The name and rows carried by each series of a series list.
pub open spec fn spec_series_view(series: Seq<InfluxDbSeries<serde_json::Value>>) -> Seq<
    (Seq<char>, Seq<serde_json::Value>),
> {
    series.map_values(|s: InfluxDbSeries<serde_json::Value>| (s.name@, s.values@))
}

/// The name and rows carried by each series of a decoded result.
pub open spec fn spec_return_view(ret: InfluxDbReturn<serde_json::Value>) -> Seq<
    (Seq<char>, Seq<serde_json::Value>),
> {
    spec_series_view(ret.series@)
}

/// Decodes one result entry: its `series` array, and each series'
/// `name` and `values`. Any missing or mis-typed part is a shape error.
fn decode_return(v: &serde_json::Value) -> (r: Result<
    InfluxDbReturn<serde_json::Value>,
    InfluxDbError,
>)
    ensures
        match spec_return_decoded(*v) {
            Some(decoded) => r matches Ok(ret) && spec_return_view(ret) == decoded,
            None => r matches Err(e) && e is DeserializationError,
        },
{
    let series_field = match json_get(v, "series") {
        Some(sv) => sv,
        None => {
            return Err(
                InfluxDbError::DeserializationError {
                    error: "could not deserialize: missing field series".to_owned(),
                },
            );
        },
    };
    let entries = match json_as_array(series_field) {
        Some(a) => a,
        None => {
            return Err(
                InfluxDbError::DeserializationError {
                    error: "could not deserialize: series is not an array".to_owned(),
                },
            );
        },
    };
    let ghost es = entries@;
    let mut series: Vec<InfluxDbSeries<serde_json::Value>> = Vec::new();
    let mut i: usize = 0;
    while i < entries.len()
        invariant
            i <= es.len(),
            es == entries@,
            spec_field_of(*v, "series"@) matches Some(sv) && spec_elements_of(sv) == Some(es),
            forall|j: int| 0 <= j < i ==> spec_series_decoded(#[trigger] es[j]) is Some,
            spec_series_view(series@) == Seq::new(i as nat, |j: int| spec_series_decoded(es[j])->0),
        decreases es.len() - i,
    {
        let entry = &entries[i];
        let name = match json_get(entry, "name") {
            Some(nv) => match json_as_str(nv) {
                Some(s) => s,
                None => {
                    proof {
                        assert(spec_series_decoded(es[i as int]) is None);
                    }
                    return Err(
                        InfluxDbError::DeserializationError {
                            error: "could not deserialize: series name is not a string".to_owned(),
                        },
                    );
                },
            },
            None => {
                proof {
                    assert(spec_series_decoded(es[i as int]) is None);
                }
                return Err(
                    InfluxDbError::DeserializationError {
                        error: "could not deserialize: missing field name".to_owned(),
                    },
                );
            },
        };
        let rows = match json_get(entry, "values") {
            Some(vv) => match json_as_array(vv) {
                Some(a) => a,
                None => {
                    proof {
                        assert(spec_series_decoded(es[i as int]) is None);
                    }
                    return Err(
                        InfluxDbError::DeserializationError {
                            error: "could not deserialize: values is not an array".to_owned(),
                        },
                    );
                },
            },
            None => {
                proof {
                    assert(spec_series_decoded(es[i as int]) is None);
                }
                return Err(
                    InfluxDbError::DeserializationError {
                        error: "could not deserialize: missing field values".to_owned(),
                    },
                );
            },
        };
        let mut values: Vec<serde_json::Value> = Vec::new();
        let mut j: usize = 0;
        while j < rows.len()
            invariant
                j <= rows@.len(),
                values@ == rows@.take(j as int),
            decreases rows@.len() - j,
        {
            values.push(json_clone(&rows[j]));
            proof {
                assert(values@ =~= rows@.take(j + 1 as int));
            }
            j = j + 1;
        }
        proof {
            assert(rows@.take(rows@.len() as int) =~= rows@);
        }
        let ghost decoded_entry = (name@, values@);
        let ghost before = series@;
        proof {
            assert(spec_series_decoded(es[i as int]) == Some(decoded_entry));
        }
        series.push(InfluxDbSeries { name, values });
        proof {
            assert(spec_series_view(series@) =~= spec_series_view(before).push(decoded_entry));
            assert(spec_series_view(series@) =~= Seq::new(
                (i + 1) as nat,
                |j: int| spec_series_decoded(es[j])->0,
            ));
        }
        i = i + 1;
    }
    proof {
        assert(spec_return_decoded(*v) == Some(
            Seq::new(es.len(), |j: int| spec_series_decoded(es[j])->0),
        ));
        assert(spec_series_view(series@) =~= Seq::new(
            es.len(),
            |j: int| spec_series_decoded(es[j])->0,
        ));
    }
    Ok(InfluxDbReturn { series })
}

impl DatabaseQueryResult {
    /// Removes the first not-yet-consumed result and decodes it into a
    /// series list: each call consumes exactly one entry, in first-added
    /// order. With no entries left this is an error, not a panic, and
    /// the decoder is left unchanged.
    pub fn deserialize_next(&mut self) -> (r: Result<
        InfluxDbReturn<serde_json::Value>,
        InfluxDbError,
    >)
        ensures
            old(self).results@.len() == 0 ==> (final (self).results@ == old(self).results@ && (
            r matches Err(e) && e is DeserializationError)),
            old(self).results@.len() > 0 ==> (final (self).results@ == old(
                self,
            ).results@.drop_first() && (match spec_return_decoded(old(self).results@[0]) {
                Some(decoded) => r matches Ok(ret) && spec_return_view(ret) == decoded,
                None => r matches Err(e) && e is DeserializationError,
            })),
    {
        let ghost before = self.results@;
        if self.results.len() == 0 {
            return Err(
                InfluxDbError::DeserializationError {
                    error: "could not deserialize: no query results left".to_owned(),
                },
            );
        }
        let first = self.results.remove(0);
        proof {
            assert(self.results@ =~= before.drop_first());
        }
        decode_return(&first)
    }
}

impl InfluxDbClient {
    /// Plans the request for a structured read. Only read queries whose
    /// rendered text contains `SELECT` or `SHOW` are accepted: this path
    /// is read-only by construction, unlike the raw query path.
    pub fn prepare_json_query(&self, q: &InfluxDbReadQuery) -> (r: Result<
        InfluxDbRequest,
        InfluxDbError,
    >)
        ensures
            ({
                let text = seq_join(q.statements(), ";"@);
                match spec_url_with_params(
                    self.url@ + "/query"@,
                    spec_basic_parameters(self).push(("q"@, text)),
                ) {
                    Err(m) => (r matches Err(e) && (e matches
                    InfluxDbError::UrlConstructionError { error } && error@ == m)),
                    Ok(u) => if spec_uses_get(text) {
                        r matches Ok(req) && req.method == Method::Get && req.url@ == u
                            && req.body is None
                    } else {
                        r matches Err(e) && (e matches InfluxDbError::InvalidQueryError { error }
                            && error@
                            == "Only SELECT and SHOW queries supported with JSON deserialization"@)
                    },
                }
            }),
    {
        let query = match q.build() {
            Ok(v) => v,
            Err(e) => {
                return Err(e);
            },
        };
        let read_query = query.get();
        let mut params = self.basic_parameters();
        params.push(("q".to_owned(), read_query.clone()));
        proof {
            assert(params.deep_view() =~= spec_basic_parameters(self).push(
                ("q"@, seq_join(q.statements(), ";"@)),
            ));
        }
        let endpoint = self.url.clone().concat("/query");
        let url = match crate::client::parse_url_with_params(endpoint.as_str(), &params) {
            Ok(u) => u,
            Err(e) => {
                return Err(InfluxDbError::UrlConstructionError { error: e });
            },
        };
        if str_contains(read_query.as_str(), "SELECT") || str_contains(read_query.as_str(), "SHOW")
             {
            Ok(InfluxDbRequest { method: Method::Get, url, body: None })
        } else {
            Err(
                InfluxDbError::InvalidQueryError {
                    error: "Only SELECT and SHOW queries supported with JSON deserialization".to_owned(),
                },
            )
        }
    }
}

/// Classifies a structured-read response. Status 401 and 403 classify
/// exactly as on the raw path; any other response body must parse as
/// JSON — an object carrying an `error` string fails as a database
/// error with exactly that string (checked before the results shape),
/// one carrying a `results` array becomes the decoder holding exactly
/// that array in order, and everything else is a shape error.
pub fn classify_json_response(status: u16, body: &Vec<u8>) -> (r: Result<
    DatabaseQueryResult,
    InfluxDbError,
>)
    ensures
        status == 401 ==> (r matches Err(e) && e is AuthorizationError),
        status == 403 ==> (r matches Err(e) && e is AuthenticationError),
        status != 401 && status != 403 ==> match spec_json_value_of(body@) {
            Err(m) => r matches Err(e) && (e matches InfluxDbError::DeserializationError { error }
                && error@ == "serde error: "@ + m),
            Ok(v) => match spec_error_message(v) {
                Some(m) => r matches Err(e) && (e matches InfluxDbError::DatabaseError { error }
                    && error@ == m),
                None => match spec_results_array(v) {
                    Some(a) => r matches Ok(d) && d.results@ == a,
                    None => r matches Err(e) && e is DeserializationError,
                },
            },
        },
{
    if status == 401 {
        return Err(InfluxDbError::AuthorizationError);
    }
    if status == 403 {
        return Err(InfluxDbError::AuthenticationError);
    }
    let value = match parse_json(body) {
        Ok(v) => v,
        Err(msg) => {
            return Err(
                InfluxDbError::DeserializationError {
                    error: String::from_str("serde error: ").concat(msg.as_str()),
                },
            );
        },
    };
    match json_get(&value, "error") {
        Some(ev) => match json_as_str(ev) {
            Some(message) => {
                return Err(InfluxDbError::DatabaseError { error: message });
            },
            None => {},
        },
        None => {},
    }
    match json_get(&value, "results") {
        Some(rv) => match json_as_array(rv) {
            Some(arr) => {
                let mut results: Vec<serde_json::Value> = Vec::new();
                let mut i: usize = 0;
                while i < arr.len()
                    invariant
                        i <= arr@.len(),
                        results@ == arr@.take(i as int),
                    decreases arr@.len() - i,
                {
                    results.push(json_clone(&arr[i]));
                    proof {
                        assert(results@ =~= arr@.take(i + 1 as int));
                    }
                    i = i + 1;
                }
                proof {
                    assert(arr@.take(arr@.len() as int) =~= arr@);
                }
                Ok(DatabaseQueryResult { results })
            },
            None => Err(
                InfluxDbError::DeserializationError {
                    error: "serde error: results is not an array".to_owned(),
                },
            ),
        },
        None => Err(
            InfluxDbError::DeserializationError {
                error: "serde error: missing field results".to_owned(),
            },
        ),
    }
}

} // verus!
