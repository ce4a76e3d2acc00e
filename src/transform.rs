//! What a query selects from the rows its predicate keeps, and the assembly
//! of whole statements from a predicate's subqueries.
use vstd::prelude::*;
use crate::filter::{common_table, Filter};
use crate::path::render;
use crate::query::{Literal, Query, QueryError};

verus! {

/// A predicate together with what to output for each row it keeps: the whole
/// document, or the value at the selector's path.
#[derive(Debug, Clone)]
pub struct Select {
    pub inner: Filter,
    /// `None` selects the whole document.
    pub selector: Option<Query>,
}

impl From<Filter> for Select {
    fn from(value: Filter) -> (r: Select) {
        Select { inner: value, selector: None }
    }
}

impl vstd::std_specs::convert::FromSpecImpl<Filter> for Select {
    open spec fn obeys_from_spec() -> bool {
        true
    }

    open spec fn from_spec(v: Filter) -> Select {
        Select { inner: v, selector: None }
    }
}

/// The final statement that outputs each row of `result` as a whole document.
pub open spec fn whole_statement() -> Seq<char> {
    "select result.value from result"@
}

/// The final statement that outputs, as text, the value at `query`'s path in
/// each row of `result`.
pub open spec fn projected_statement(query: Query) -> Seq<char> {
    "select cast(json_extract(result.value, '"@ + render(query.path@) + "') as text) from result"@
}

/// The leading subquery of every statement: all rows of `table`.
pub open spec fn root_cte(table: Seq<char>) -> Seq<char> {
    "\nwith\n    root as (select rowid, value from "@ + table + ")"@
}

/// The `with` clause of a statement on `table` filtered by `filter`: the
/// leading subquery, then those of the predicate, the last named `result`.
pub open spec fn with_chain(table: Seq<char>, filter: Filter) -> Seq<char> {
    root_cte(table) + filter.spec_cte("result"@)
}

/// The final statement that deletes from `table` each row kept in `result`.
pub open spec fn delete_statement(table: Seq<char>) -> Seq<char> {
    "delete from "@ + table + " where exists (select * from result where result.rowid = "@ + table
        + ".rowid)"@
}

/// The whole statement that retrieves what `select` outputs from `table`.
pub open spec fn get_sql(table: Seq<char>, select: Select) -> Seq<char> {
    with_chain(table, select.inner) + "\n"@ + select.spec_statement()
}

/// The whole statement that deletes from `table` the rows `filter` keeps.
pub open spec fn delete_sql(table: Seq<char>, filter: Filter) -> Seq<char> {
    with_chain(table, filter) + "\n"@ + delete_statement(table)
}

/// The statement that creates the document table `table` unless it exists.
pub open spec fn init_sql(table: Seq<char>) -> Seq<char> {
    "create table if not exists "@ + table + " (value text not null) strict"@
}

/// The statement that stores the JSON text bound as its one parameter as a
/// new row of `table`.
pub open spec fn insert_sql(table: Seq<char>) -> Seq<char> {
    "insert into "@ + table + "(value) values(json(?1))"@
}

/// The statement that creates the document table `table` unless it exists.
pub fn init_statement(table: &str) -> (r: String)
    ensures
        r@ == init_sql(table@),
{
    let mut sql = String::from_str("create table if not exists ");
    sql.append(table);
    sql.append(" (value text not null) strict");
    sql
}

/// The statement that stores one JSON text as a new row of `table`.
pub fn insert_statement(table: &str) -> (r: String)
    ensures
        r@ == insert_sql(table@),
{
    let mut sql = String::from_str("insert into ");
    sql.append(table);
    sql.append("(value) values(json(?1))");
    sql
}

/// Assembles a statement: the leading subquery on `table_name`, the
/// subqueries of `filter`, then `selector`.
pub fn sql_query_builder(table_name: &str, filter: &Filter, selector: &str) -> (r: String)
    ensures
        r@ == with_chain(table_name@, *filter) + "\n"@ + selector@,
{
    let mut sql = String::from_str("\nwith\n    root as (select rowid, value from ");
    sql.append(table_name);
    sql.append(")");
    filter.cte("result", &mut sql);
    sql.append("\n");
    sql.append(selector);
    proof {
        assert(sql@ =~= with_chain(table_name@, *filter) + "\n"@ + selector@);
    }
    sql
}

impl Filter {
    /// Keeps the rows of this predicate and outputs the value at `query`'s path.
    pub fn map(self, query: &Query) -> (r: Select)
        ensures
            r.inner == self,
            r.selector is Some,
            r.selector->Some_0.table == query.table,
            r.selector->Some_0.path@ == query.path@,
            r.selector->Some_0.kind == query.kind,
    {
        Select { inner: self, selector: Some(query.clone()) }
    }

    /// The statement that deletes from `table` every row this predicate keeps.
    pub fn delete_sql(&self, table: &str) -> (r: String)
        ensures
            r@ == delete_sql(table@, *self),
    {
        let mut selector = String::from_str("delete from ");
        selector.append(table);
        selector.append(" where exists (select * from result where result.rowid = ");
        selector.append(table);
        selector.append(".rowid)");
        proof {
            assert(selector@ =~= delete_statement(table@));
        }
        sql_query_builder(table, self, selector.as_str())
    }
}

impl Select {
    /// The final statement, reading from the subquery `result`.
    pub open spec fn spec_statement(&self) -> Seq<char> {
        match self.selector {
            None => whole_statement(),
            Some(q) => projected_statement(q),
        }
    }

    /// The literals to bind, in placeholder order: those of the predicate.
    pub open spec fn spec_params(&self) -> Seq<Literal> {
        self.inner.spec_params()
    }

    /// The table that the predicate and the selector both refer to.
    pub open spec fn spec_table(&self) -> Option<Seq<char>> {
        match self.selector {
            None => self.inner.spec_table(),
            Some(q) => common_table(self.inner.spec_table(), Some(q.table@)),
        }
    }

    /// Keeps the same rows and outputs the value at `query`'s path instead.
    pub fn map(self, query: &Query) -> (r: Select)
        ensures
            r.inner == self.inner,
            r.selector is Some,
            r.selector->Some_0.table == query.table,
            r.selector->Some_0.path@ == query.path@,
            r.selector->Some_0.kind == query.kind,
    {
        Select { inner: self.inner, selector: Some(query.clone()) }
    }

    /// The final statement, reading from the subquery `result`.
    pub fn statement(&self) -> (r: String)
        ensures
            r@ == self.spec_statement(),
    {
        match &self.selector {
            None => String::from_str("select result.value from result"),
            Some(q) => {
                let mut s = String::from_str("select cast(json_extract(result.value, '");
                q.path.render_into(&mut s);
                s.append("') as text) from result");
                proof {
                    assert(s@ =~= self.spec_statement());
                }
                s
            },
        }
    }

    /// The literals to bind, in placeholder order.
    pub fn params(&self) -> (r: Vec<Literal>)
        ensures
            r@ == self.spec_params(),
    {
        self.inner.params()
    }

    /// The table that the predicate and the selector both refer to.
    pub fn table(&self) -> (r: Result<String, QueryError>)
        ensures
            r is Ok <==> self.spec_table() is Some,
            r is Ok ==> r->Ok_0@ == self.spec_table()->Some_0,
            r is Err ==> r->Err_0 == QueryError::MixedTables,
    {
        let t = self.inner.table()?;
        match &self.selector {
            None => Ok(t),
            Some(q) => {
                if t == q.table {
                    Ok(t)
                } else {
                    Err(QueryError::MixedTables)
                }
            },
        }
    }

    /// The statement that retrieves from `table` what this outputs.
    pub fn get_sql(&self, table: &str) -> (r: String)
        ensures
            r@ == get_sql(table@, *self),
    {
        let statement = self.statement();
        sql_query_builder(table, &self.inner, statement.as_str())
    }
}

/// Retrieval and deletion match the same rows: the statement that deletes by a
/// predicate and the one that retrieves by it begin with the same `with`
/// clause, differ only in their final statement, and bind the same literals.
pub proof fn lemma_delete_matches_get(table: Seq<char>, select: Select)
    ensures
        get_sql(table, select) == with_chain(table, select.inner) + "\n"@ + select.spec_statement(),
        delete_sql(table, select.inner) == with_chain(table, select.inner) + "\n"@
            + delete_statement(table),
        select.spec_params() == select.inner.spec_params(),
{
}

} // verus!
