//! Running compiled statements on an SQLite connection, and decoding the rows
//! they return.
use vstd::prelude::*;
use crate::filter::Filter;
use crate::query::{check_table_name, is_table_name, Literal, QueryError, Table};
use crate::transform::{init_statement, insert_statement, Select};

verus! {

#[verifier::external_type_specification]
#[verifier::external_body]
pub struct ExConnection(rusqlite::Connection);

#[verifier::external_type_specification]
#[verifier::external_body]
pub struct ExStatement<'conn>(rusqlite::Statement<'conn>);

#[verifier::external_type_specification]
#[verifier::external_body]
pub struct ExSqlError(rusqlite::Error);

#[verifier::external_type_specification]
#[verifier::external_body]
pub struct ExJsonValue(serde_json::Value);

#[verifier::external_type_specification]
#[verifier::external_body]
pub struct ExJsonError(serde_json::Error);

/// Whether `text` is a JSON document that `serde_json` accepts.
pub uninterp spec fn is_json(text: Seq<char>) -> bool;

/// Relies on `rusqlite::Connection::prepare`: compiles `sql` into a statement
/// on `conn`, or reports the engine's error.
#[verifier::external_body]
fn prepare<'conn>(conn: &'conn rusqlite::Connection, sql: &str) -> (r: Result<
    rusqlite::Statement<'conn>,
    rusqlite::Error,
>) {
    conn.prepare(sql)
}

/// Relies on `rusqlite::Statement::raw_bind_parameter`: binds `value` to the
/// placeholder at the one-based position `index`.
#[verifier::external_body]
fn bind_parameter(statement: &mut rusqlite::Statement, index: usize, value: &Literal) -> (r: Result<
    (),
    rusqlite::Error,
>)
    requires
        index >= 1,
{
    match value {
        Literal::Text(s) => statement.raw_bind_parameter(index, s),
        Literal::Integer(i) => statement.raw_bind_parameter(index, i),
        Literal::Boolean(b) => statement.raw_bind_parameter(index, b),
    }
}

/// Relies on `rusqlite::Statement::raw_query` with `rusqlite::Row::get`: runs
/// the statement with the parameters bound so far and reads the first column
/// of each row as text.
#[verifier::external_body]
fn query_texts(statement: &mut rusqlite::Statement) -> (r: Result<Vec<String>, rusqlite::Error>) {
    statement.raw_query().mapped(|row| row.get::<usize, String>(0)).collect()
}

/// Relies on `rusqlite::Statement::raw_execute`: runs a statement that returns
/// no rows and gives the number of rows it changed.
#[verifier::external_body]
fn execute(statement: &mut rusqlite::Statement) -> (r: Result<usize, rusqlite::Error>) {
    statement.raw_execute()
}

/// Relies on `serde_json::to_string`: the JSON text of a document.
#[verifier::external_body]
fn to_json_text(value: &serde_json::Value) -> (r: Result<String, serde_json::Error>) {
    serde_json::to_string(value)
}

/// Relies on `serde_json::from_str`: parses `text` as a JSON document, which
/// succeeds exactly when the text is one.
#[verifier::external_body]
fn parse_json(text: &str) -> (r: Result<serde_json::Value, serde_json::Error>)
    ensures
        r is Ok <==> is_json(text@),
{
    serde_json::from_str(text)
}

/// Why running a query failed.
#[derive(Debug)]
pub enum TransformError {
    /// The engine refused or failed the statement.
    Sql(rusqlite::Error),
    /// A returned row is not a JSON document.
    Serde(serde_json::Error),
    /// The query cannot be compiled.
    Query(QueryError),
}

/// Binds `params` to the placeholders of `statement`, the first at position 1.
fn bind_all(statement: &mut rusqlite::Statement, params: &Vec<Literal>) -> (r: Result<
    (),
    rusqlite::Error,
>) {
    let mut i: usize = 0;
    while i < params.len()
        decreases params.len() - i,
    {
        bind_parameter(statement, i + 1, &params[i])?;
        i = i + 1;
    }
    Ok(())
}

/// Decodes each returned row as a JSON document, in order; fails on the
/// first row that is not one.
pub fn decode_rows(texts: &Vec<String>) -> (r: Result<Vec<serde_json::Value>, TransformError>)
    ensures
        r is Ok <==> forall|i: int| 0 <= i < texts@.len() ==> is_json(#[trigger] texts@[i]@),
        r is Ok ==> r->Ok_0@.len() == texts@.len(),
        r is Err ==> r->Err_0 is Serde,
{
    let mut out: Vec<serde_json::Value> = Vec::new();
    let mut i: usize = 0;
    while i < texts.len()
        invariant
            i <= texts@.len(),
            out@.len() == i,
            forall|j: int| 0 <= j < i ==> is_json(#[trigger] texts@[j]@),
        decreases texts@.len() - i,
    {
        match parse_json(texts[i].as_str()) {
            Ok(value) => out.push(value),
            Err(e) => return Err(TransformError::Serde(e)),
        }
        i = i + 1;
    }
    Ok(out)
}

/// The table that a query runs on, where its parts agree on one and its name
/// is a table name.
pub open spec fn target_table(table: Option<Seq<char>>) -> Result<Seq<char>, QueryError> {
    match table {
        None => Err(QueryError::MixedTables),
        Some(t) => if is_table_name(t) {
            Ok(t)
        } else {
            Err(QueryError::InvalidTableName)
        },
    }
}

fn checked_table(table: Result<String, QueryError>) -> (r: Result<String, TransformError>)
    ensures
        r is Ok <==> (table is Ok && is_table_name(table->Ok_0@)),
        r is Ok ==> r->Ok_0@ == table->Ok_0@,
        table is Err ==> r == Err::<String, TransformError>(TransformError::Query(table->Err_0)),
        table is Ok && !is_table_name(table->Ok_0@) ==> r == Err::<String, TransformError>(
            TransformError::Query(QueryError::InvalidTableName),
        ),
{
    match table {
        Ok(t) => if check_table_name(t.as_str()) {
            Ok(t)
        } else {
            Err(TransformError::Query(QueryError::InvalidTableName))
        },
        Err(e) => Err(TransformError::Query(e)),
    }
}

/// An SQLite connection holding one document table per record type.
pub struct Database {
    pub connection: rusqlite::Connection,
}

impl Database {
    pub fn new(connection: rusqlite::Connection) -> (r: Database)
        ensures
            r.connection == connection,
    {
        Database { connection }
    }

    /// Creates the document table of `table` unless it exists.
    pub fn init(&self, table: &Table) -> (r: Result<usize, TransformError>)
        ensures
            !is_table_name(table.name@) ==> r == Err::<usize, TransformError>(
                TransformError::Query(QueryError::InvalidTableName),
            ),
            r is Err && r->Err_0 is Query ==> !is_table_name(table.name@),
    {
        if !check_table_name(table.name.as_str()) {
            return Err(TransformError::Query(QueryError::InvalidTableName));
        }
        let sql = init_statement(table.name.as_str());
        let mut statement = match prepare(&self.connection, sql.as_str()) {
            Ok(s) => s,
            Err(e) => return Err(TransformError::Sql(e)),
        };
        match execute(&mut statement) {
            Ok(n) => Ok(n),
            Err(e) => Err(TransformError::Sql(e)),
        }
    }

    /// Stores `value` as a new document of `table`, whose table must exist.
    pub fn insert(&self, table: &Table, value: &serde_json::Value) -> (r: Result<
        usize,
        TransformError,
    >)
        ensures
            !is_table_name(table.name@) ==> r == Err::<usize, TransformError>(
                TransformError::Query(QueryError::InvalidTableName),
            ),
            r is Err && r->Err_0 is Query ==> !is_table_name(table.name@),
    {
        if !check_table_name(table.name.as_str()) {
            return Err(TransformError::Query(QueryError::InvalidTableName));
        }
        let text = match to_json_text(value) {
            Ok(t) => t,
            Err(e) => return Err(TransformError::Serde(e)),
        };
        let sql = insert_statement(table.name.as_str());
        let mut statement = match prepare(&self.connection, sql.as_str()) {
            Ok(s) => s,
            Err(e) => return Err(TransformError::Sql(e)),
        };
        if let Err(e) = bind_parameter(&mut statement, 1, &Literal::Text(text)) {
            return Err(TransformError::Sql(e));
        }
        match execute(&mut statement) {
            Ok(n) => Ok(n),
            Err(e) => Err(TransformError::Sql(e)),
        }
    }

    /// Everything that `transform` outputs, one JSON document per kept row.
    pub fn get(&self, transform: &Select) -> (r: Result<Vec<serde_json::Value>, TransformError>)
        ensures
            target_table(transform.spec_table()) is Err ==> r == Err::<
                Vec<serde_json::Value>,
                TransformError,
            >(TransformError::Query(target_table(transform.spec_table())->Err_0)),
            r is Err && r->Err_0 is Query ==> target_table(transform.spec_table()) is Err,
    {
        let table = checked_table(transform.table())?;
        let sql = transform.get_sql(table.as_str());
        let params = transform.params();
        let mut statement = match prepare(&self.connection, sql.as_str()) {
            Ok(s) => s,
            Err(e) => return Err(TransformError::Sql(e)),
        };
        if let Err(e) = bind_all(&mut statement, &params) {
            return Err(TransformError::Sql(e));
        }
        let texts = match query_texts(&mut statement) {
            Ok(t) => t,
            Err(e) => return Err(TransformError::Sql(e)),
        };
        decode_rows(&texts)
    }

    /// Deletes every row that `filter` keeps; gives how many were deleted.
    pub fn delete(&self, filter: &Filter) -> (r: Result<usize, TransformError>)
        ensures
            target_table(filter.spec_table()) is Err ==> r == Err::<usize, TransformError>(
                TransformError::Query(target_table(filter.spec_table())->Err_0),
            ),
            r is Err && r->Err_0 is Query ==> target_table(filter.spec_table()) is Err,
    {
        let table = checked_table(filter.table())?;
        let sql = filter.delete_sql(table.as_str());
        let params = filter.params();
        let mut statement = match prepare(&self.connection, sql.as_str()) {
            Ok(s) => s,
            Err(e) => return Err(TransformError::Sql(e)),
        };
        if let Err(e) = bind_all(&mut statement, &params) {
            return Err(TransformError::Sql(e));
        }
        match execute(&mut statement) {
            Ok(n) => Ok(n),
            Err(e) => Err(TransformError::Sql(e)),
        }
    }
}

} // verus!
