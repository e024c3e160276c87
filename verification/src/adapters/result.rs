//! The result of a query as the front end receives it.

use crate::adapters::rows::JsonCell;
use crate::keyed::Keyed;
use crate::text::{decimal, spec_decimal, texts};
use vstd::prelude::*;
use vstd::string::*;

verus! {

/// The rows of a query with what the front end shows beside them.
#[derive(Debug, PartialEq, Eq)]
pub struct QueryResult {
    /// Milliseconds that the query took, in decimal.
    pub elapsed_ms: String,
    /// The number of rows, in decimal.
    pub num_rows: String,
    /// The names of the fields of the first row.
    pub fields: Vec<String>,
    /// The rows, each holding one value under each of its names.
    pub rows: Vec<Keyed<JsonCell>>,
}

/// The names that a result shows: those of its first row, none without rows.
pub open spec fn spec_result_fields(rows: Seq<Keyed<JsonCell>>) -> Seq<Seq<char>> {
    if rows.len() > 0 {
        rows[0].spec_keys()
    } else {
        Seq::<Seq<char>>::empty()
    }
}

impl QueryResult {
    /// Puts a result together from the rows of a query and the milliseconds
    /// that it took. The fields are the names of the first row, each once.
    pub fn make(elapsed_ms: u128, rows: Vec<Keyed<JsonCell>>) -> (result: QueryResult)
        ensures
            result.elapsed_ms@ == spec_decimal(elapsed_ms as nat),
            result.num_rows@ == spec_decimal(rows@.len()),
            texts(result.fields@) == spec_result_fields(rows@),
            texts(result.fields@).no_duplicates(),
            rows@.len() > 0 ==> forall|name: Seq<char>|
                texts(result.fields@).contains(name) <==> rows@[0]@.dom().contains(name),
            result.rows == rows,
    {
        let fields = if rows.len() > 0 {
            rows[0].keys()
        } else {
            let none: Vec<String> = Vec::new();
            assert(texts(none@) =~= Seq::<Seq<char>>::empty());
            none
        };
        QueryResult {
            elapsed_ms: decimal(elapsed_ms),
            num_rows: decimal(rows.len() as u128),
            fields,
            rows,
        }
    }
}

} // verus!
