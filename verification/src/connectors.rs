//! Connections that are configured by named options.

use crate::keyed::{Entry, Keyed};
use vstd::prelude::*;
use vstd::string::*;

verus! {

/// The drivers that a connection can be made with.
#[derive(Clone, Copy, Debug, PartialEq, Eq, Structural)]
pub enum Drivers {
    Mysql,
    Postgres,
    Mongodb,
    Sqlite,
}

/// The option that names the database that queries run in.
pub open spec fn spec_schema_option() -> Seq<char> {
    "db_name"@
}

/// The statement that makes `database` the one that queries run in.
pub open spec fn spec_use_statement(database: Seq<char>) -> Seq<char> {
    "USE "@ + database
}

/// Writes the statement that makes `database` the one that queries run in.
pub fn use_statement(database: &str) -> (statement: String)
    ensures
        statement@ == spec_use_statement(database@),
{
    let mut statement = "USE ".to_string();
    statement.append(database);
    statement
}

/// The options that a list of entries sets: each entry in turn, a later one
/// in place of an earlier one for the same option.
pub open spec fn spec_options(entries: Seq<Entry<String>>) -> Map<Seq<char>, String>
    decreases entries.len(),
{
    if entries.len() == 0 {
        Map::empty()
    } else {
        spec_options(entries.drop_last()).insert(entries.last().key@, entries.last().value)
    }
}

/// The statements that a query takes with these options: the change to the
/// chosen database first, if one is chosen, then the query.
pub open spec fn spec_statements(options: Map<Seq<char>, String>, query: Seq<char>) -> Seq<Seq<char>> {
    if options.dom().contains(spec_schema_option()) {
        seq![spec_use_statement(options[spec_schema_option()]@), query]
    } else {
        seq![query]
    }
}

/// A connection with its options.
pub struct Sqlite {
    opts: Keyed<String>,
}

impl View for Sqlite {
    type V = Map<Seq<char>, String>;

    closed spec fn view(&self) -> Map<Seq<char>, String> {
        self.opts@
    }
}

impl Sqlite {
    /// A connection with the options that `opts` sets.
    pub fn connect(opts: &Vec<Entry<String>>) -> (connection: Sqlite)
        ensures
            connection@ == spec_options(opts@),
    {
        let mut store: Keyed<String> = Keyed::new();
        let mut at: usize = 0;
        while at < opts.len()
            invariant
                at <= opts@.len(),
                store@ == spec_options(opts@.take(at as int)),
            decreases opts.len() - at,
        {
            let ghost upto = opts@.take(at as int + 1);
            assert(upto.drop_last() =~= opts@.take(at as int));
            store.insert(opts[at].key.clone(), opts[at].value.clone());
            at = at + 1;
        }
        assert(opts@.take(at as int) =~= opts@);
        Sqlite { opts: store }
    }

    /// Sets `option` to `value`. Always returns `true`.
    pub fn set_opt(&mut self, option: String, value: String) -> (done: bool)
        ensures
            done,
            final(self)@ == old(self)@.insert(option@, value),
    {
        self.opts.insert(option, value);
        true
    }

    /// What `option` is set to, if it is set.
    pub fn get_opt(&self, option: &String) -> (value: Option<String>)
        ensures
            self@.dom().contains(option@) ==> value == Some(self@[option@]),
            !self@.dom().contains(option@) ==> value is None,
    {
        match self.opts.get(option) {
            Some(value) => Some(value.clone()),
            None => None,
        }
    }

    /// Chooses the database that queries run in. Always returns `true`.
    pub fn change_schema(&mut self, value: String) -> (done: bool)
        ensures
            done,
            final(self)@ == old(self)@.insert(spec_schema_option(), value),
    {
        self.set_opt("db_name".to_string(), value)
    }

    /// The statements to run for `query`, in order.
    pub fn statements(&self, query: String) -> (statements: Vec<String>)
        ensures
            Seq::new(statements@.len(), |i: int| statements@[i]@) == spec_statements(self@, query@),
    {
        let mut statements: Vec<String> = Vec::new();
        match self.get_opt(&"db_name".to_string()) {
            Some(database) => {
                statements.push(use_statement(database.as_str()));
                statements.push(query);
            },
            None => {
                statements.push(query);
            },
        }
        assert(Seq::new(statements@.len(), |i: int| statements@[i]@) =~= spec_statements(
            self@,
            query@,
        ));
        statements
    }

    /// Lets go of the connection. Always returns `true`.
    pub fn disconnect(&mut self) -> (done: bool)
        ensures
            done,
            *final(self) == *old(self),
    {
        true
    }
}

} // verus!
