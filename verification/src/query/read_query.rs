//! Read-query builder: an ordered, non-empty list of raw statements.

use vstd::prelude::*;

use crate::error::InfluxDbError;
use crate::query::{QueryType, ValidQuery};
use crate::text::{join_strings, seq_join};

verus! {

/// A read query: an ordered, non-empty sequence of raw statement
/// strings. Only the constructor and `add` can shape it, so a query
/// with zero statements is structurally impossible.
pub struct InfluxDbReadQuery {
    queries: Vec<String>,
}

impl InfluxDbReadQuery {
    /// The statements of the query, in the order they were added.
    pub closed spec fn statements(&self) -> Seq<Seq<char>> {
        self.queries.deep_view()
    }

    /// Creates a read query holding the given statement.
    pub fn new(query: &str) -> (r: Self)
        ensures
            r.statements() == seq![query@],
    {
        let mut queries: Vec<String> = Vec::new();
        queries.push(query.to_owned());
        let r = InfluxDbReadQuery { queries };
        proof {
            assert(r.statements() =~= seq![query@]);
        }
        r
    }

    /// Adds one more statement at the end of the query.
    pub fn add(self, query: &str) -> (r: Self)
        ensures
            r.statements() == self.statements().push(query@),
    {
        let mut queries = self.queries;
        let ghost before = queries.deep_view();
        queries.push(query.to_owned());
        let r = InfluxDbReadQuery { queries };
        proof {
            assert(r.statements() =~= before.push(query@));
        }
        r
    }

    /// Renders the query: the statements joined by `;`, in original
    /// order. Building a read query always succeeds.
    pub fn build(&self) -> (r: Result<ValidQuery, InfluxDbError>)
        ensures
            r matches Ok(v) && v@ == seq_join(self.statements(), ";"@),
    {
        Ok(ValidQuery::from(join_strings(&self.queries, ";").as_str()))
    }

    /// This is a read query.
    pub fn get_type(&self) -> (r: QueryType)
        ensures
            r == QueryType::ReadQuery,
    {
        QueryType::ReadQuery
    }
}

} // verus!
