//! Queries that can be sent to InfluxDB: read queries in the database's
//! SQL-like dialect and write queries in the line-protocol text format.

pub mod read_query;
pub mod write_query;

use vstd::prelude::*;
use vstd::string::*;

use crate::error::InfluxDbError;
use crate::query::read_query::InfluxDbReadQuery;
use crate::query::write_query::{spec_render_write, InfluxDbWriteQuery};
use crate::text::{chars_to_string, seq_join, spec_dec_nat, str_eq, u64_to_dec_chars};

verus! {

/// A point in time: either "now" (no explicit value) or a non-negative
/// integer tagged with the unit it is counted in.
#[derive(Clone, Copy, Debug, PartialEq, Eq, Structural)]
pub enum Timestamp {
    NOW,
    NANOSECONDS(usize),
    MICROSECONDS(usize),
    MILLISECONDS(usize),
    SECONDS(usize),
    MINUTES(usize),
    HOURS(usize),
}

/// The integer carried by a timestamp, if any.
pub open spec fn spec_timestamp_value(ts: Timestamp) -> Option<usize> {
    match ts {
        Timestamp::NOW => None,
        Timestamp::NANOSECONDS(t) => Some(t),
        Timestamp::MICROSECONDS(t) => Some(t),
        Timestamp::MILLISECONDS(t) => Some(t),
        Timestamp::SECONDS(t) => Some(t),
        Timestamp::MINUTES(t) => Some(t),
        Timestamp::HOURS(t) => Some(t),
    }
}

/// How a timestamp renders: "now" renders to the empty string, any
/// unit-tagged timestamp to the decimal string of its integer value.
pub open spec fn spec_timestamp_text(ts: Timestamp) -> Seq<char> {
    match spec_timestamp_value(ts) {
        None => Seq::empty(),
        Some(t) => spec_dec_nat(t as nat),
    }
}

/// A unit-tagged timestamp renders independently of its unit: two
/// timestamps carrying the same integer render to the same text.
pub proof fn lemma_timestamp_text_unit_independent(a: Timestamp, b: Timestamp)
    requires
        !(a is NOW),
        !(b is NOW),
        spec_timestamp_value(a) == spec_timestamp_value(b),
    ensures
        spec_timestamp_text(a) == spec_timestamp_text(b),
{
}

impl Timestamp {
    /// The rendered timestamp: empty for "now", the decimal value otherwise.
    pub fn to_text(&self) -> (r: String)
        ensures
            r@ == spec_timestamp_text(*self),
    {
        match self {
            Timestamp::NOW => String::new(),
            Timestamp::NANOSECONDS(t) => decimal_string(*t),
            Timestamp::MICROSECONDS(t) => decimal_string(*t),
            Timestamp::MILLISECONDS(t) => decimal_string(*t),
            Timestamp::SECONDS(t) => decimal_string(*t),
            Timestamp::MINUTES(t) => decimal_string(*t),
            Timestamp::HOURS(t) => decimal_string(*t),
        }
    }
}

/// The decimal rendering of a timestamp value.
fn decimal_string(t: usize) -> (r: String)
    ensures
        r@ == spec_dec_nat(t as nat),
{
    let digits = u64_to_dec_chars(t as u64);
    chars_to_string(&digits)
}

/// Whether a query reads data out of the database or writes data into it.
#[derive(Clone, Copy, Debug, PartialEq, Eq, Structural)]
pub enum QueryType {
    ReadQuery,
    WriteQuery,
}

/// Returns a write-query builder for the given timestamp and measurement.
pub fn create_write_query(timestamp: Timestamp, measurement: &str) -> (r: InfluxDbWriteQuery)
    ensures
        r.measurement@ == measurement@,
        r.timestamp == timestamp,
        r.tags@ == Seq::<(String, String)>::empty(),
        r.fields@ == Seq::<(String, write_query::InfluxDbType)>::empty(),
{
    InfluxDbWriteQuery::new(timestamp, measurement)
}

/// Returns a read-query builder holding the given statement.
pub fn create_raw_read_query(read_query: &str) -> (r: InfluxDbReadQuery)
    ensures
        r.statements() == seq![read_query@],
{
    InfluxDbReadQuery::new(read_query)
}

/// A query of either kind, used to decide how the request is routed.
pub enum InfluxDbQuery {
    Write(InfluxDbWriteQuery),
    Read(InfluxDbReadQuery),
}

/// Whether building the query succeeds: read queries always build, a
/// write query builds exactly when it has at least one field.
pub open spec fn spec_build_ok(q: &InfluxDbQuery) -> bool {
    match q {
        InfluxDbQuery::Read(_) => true,
        InfluxDbQuery::Write(wq) => wq.fields@.len() > 0,
    }
}

/// The text a query renders to: statements joined by `;` for a read
/// query, the line-protocol line for a write query.
pub open spec fn spec_query_text(q: &InfluxDbQuery) -> Seq<char> {
    match q {
        InfluxDbQuery::Read(rq) => seq_join(rq.statements(), ";"@),
        InfluxDbQuery::Write(wq) => spec_render_write(wq),
    }
}

impl InfluxDbQuery {
    /// Renders the query to a validated string, or reports why it cannot
    /// be rendered.
    pub fn build(&self) -> (r: Result<ValidQuery, InfluxDbError>)
        ensures
            spec_build_ok(self) ==> (r matches Ok(v) && v@ == spec_query_text(self)),
            !spec_build_ok(self) ==> (r matches Err(e) && (e matches
            InfluxDbError::InvalidQueryError { error } && error@ == "fields cannot be empty"@)),
    {
        match self {
            InfluxDbQuery::Write(write_query) => write_query.build(),
            InfluxDbQuery::Read(read_query) => read_query.build(),
        }
    }
}

/// An opaque wrapper around a query string that has passed the build
/// step: the only thing the client is willing to transmit.
#[derive(Debug)]
pub struct ValidQuery(String);

impl View for ValidQuery {
    type V = Seq<char>;

    closed spec fn view(&self) -> Seq<char> {
        self.0@
    }
}

impl ValidQuery {
    /// Wraps an already rendered query string.
    pub fn from(string: &str) -> (r: Self)
        ensures
            r@ == string@,
    {
        ValidQuery(string.to_owned())
    }

    /// The rendered query string.
    pub fn get(self) -> (r: String)
        ensures
            r@ == self@,
    {
        self.0
    }
}

impl PartialEq<String> for ValidQuery {
    fn eq(&self, other: &String) -> bool {
        str_eq(self.0.as_str(), other.as_str())
    }
}

impl vstd::std_specs::cmp::PartialEqSpecImpl<String> for ValidQuery {
    open spec fn obeys_eq_spec() -> bool {
        true
    }

    open spec fn eq_spec(&self, other: &String) -> bool {
        self@ == other@
    }
}

impl<'a> PartialEq<&'a str> for ValidQuery {
    fn eq(&self, other: &&'a str) -> bool {
        str_eq(self.0.as_str(), *other)
    }
}

impl<'a> vstd::std_specs::cmp::PartialEqSpecImpl<&'a str> for ValidQuery {
    open spec fn obeys_eq_spec() -> bool {
        true
    }

    open spec fn eq_spec(&self, other: &&'a str) -> bool {
        self@ == (*other)@
    }
}

} // verus!
