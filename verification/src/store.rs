//! The boundary to the SQLite engine and to the JSON codec. Everything in this
//! file is believed, not proved: the declarations of the outside types and one
//! small function for each outside call that the rest of the library makes.

use vstd::prelude::*;

verus! {

/// `rusqlite::Connection`: an open connection to the store. It is carried
/// through and never looked into.
#[verifier::external_type_specification]
#[verifier::external_body]
pub struct ExConnection(rusqlite::Connection);

/// `rusqlite::Error`: a failure reported by the engine or its binding.
#[verifier::external_type_specification]
#[verifier::external_body]
pub struct ExEngineError(rusqlite::Error);

/// `rusqlite::types::Value`: an owned value of one of SQLite's storage
/// classes, as the binding takes and hands out.
#[verifier::external_type_specification]
#[verifier::external_body]
pub struct ExEngineValue(rusqlite::types::Value);

/// `serde_json::Value`: any JSON value.
#[verifier::external_type_specification]
#[verifier::external_body]
pub struct ExJsonValue(serde_json::Value);

/// `serde_json::Number`: a JSON number. Amounts are carried as such.
#[verifier::external_type_specification]
#[verifier::external_body]
pub struct ExJsonNumber(serde_json::Number);

/// `serde_json::Error`: a failure to write or read JSON.
#[verifier::external_type_specification]
#[verifier::external_body]
pub struct ExJsonError(serde_json::Error);

/// One value bound to a statement or read from a column. The variants are the
/// five storage classes of SQLite. A real number is carried as a JSON number,
/// which the library never looks into; it is `None` for a real that JSON
/// cannot hold (an infinity), which binds as NULL.
#[derive(Debug, Clone)]
pub enum SqlValue {
    Null,
    Integer(i64),
    Real(Option<serde_json::Number>),
    Text(String),
    Blob(Vec<u8>),
}

/// `rusqlite::Connection::execute_batch`: runs the statements of `sql` one
/// after the other. Nothing is claimed of the outcome.
#[verifier::external_body]
pub(crate) fn run_batch(conn: &rusqlite::Connection, sql: &str) -> (r: Result<(), rusqlite::Error>) {
    conn.execute_batch(sql)
}

/// `rusqlite::Connection::execute`: runs one statement with `params` bound to
/// `?1`, `?2`, ... and returns the number of rows that it changed. Nothing is
/// claimed of the outcome, which depends on what the store holds.
#[verifier::external_body]
pub(crate) fn execute(
    conn: &rusqlite::Connection,
    sql: &str,
    params: Vec<rusqlite::types::Value>,
) -> (r: Result<usize, rusqlite::Error>) {
    conn.execute(sql, rusqlite::params_from_iter(params))
}

/// `rusqlite::Statement::query`: prepares `sql`, binds `params` and hands out
/// every row of the answer, each as the list of its columns from left to
/// right. Nothing is claimed of the rows, which depend on what the store
/// holds.
#[verifier::external_body]
pub(crate) fn query(
    conn: &rusqlite::Connection,
    sql: &str,
    params: Vec<rusqlite::types::Value>,
) -> (r: Result<Vec<Vec<rusqlite::types::Value>>, rusqlite::Error>) {
    let mut stmt = conn.prepare(sql)?;
    let width = stmt.column_count();
    let mut rows = stmt.query(rusqlite::params_from_iter(params))?;
    let mut out = Vec::new();
    while let Some(row) = rows.next()? {
        let mut cells = Vec::new();
        for i in 0..width {
            cells.push(row.get(i)?);
        }
        out.push(cells);
    }
    Ok(out)
}

/// `rusqlite::Connection::last_insert_rowid`: the row id of the most recent
/// successful insert on this connection. Nothing is claimed of it.
#[verifier::external_body]
pub(crate) fn last_insert_rowid(conn: &rusqlite::Connection) -> (r: i64) {
    conn.last_insert_rowid()
}

/// Builds the engine's `rusqlite::types::Value` that stands for `v`, variant
/// for variant; a real number goes through `serde_json::Number::as_f64`, and
/// an absent one through the engine's `From<Option<_>>`, which gives NULL.
#[verifier::external_body]
pub(crate) fn to_engine_value(v: &SqlValue) -> (r: rusqlite::types::Value) {
    match v {
        SqlValue::Null => rusqlite::types::Value::Null,
        SqlValue::Integer(i) => rusqlite::types::Value::Integer(*i),
        SqlValue::Real(n) => rusqlite::types::Value::from(
            n.as_ref().and_then(serde_json::Number::as_f64),
        ),
        SqlValue::Text(t) => rusqlite::types::Value::Text(t.clone()),
        SqlValue::Blob(b) => rusqlite::types::Value::Blob(b.clone()),
    }
}

/// Takes a `rusqlite::types::Value` apart, variant for variant; a real number
/// goes through `serde_json::Number::from_f64`.
#[verifier::external_body]
pub(crate) fn from_engine_value(v: &rusqlite::types::Value) -> (r: SqlValue) {
    match v {
        rusqlite::types::Value::Null => SqlValue::Null,
        rusqlite::types::Value::Integer(i) => SqlValue::Integer(*i),
        rusqlite::types::Value::Real(x) => SqlValue::Real(serde_json::Number::from_f64(*x)),
        rusqlite::types::Value::Text(t) => SqlValue::Text(t.clone()),
        rusqlite::types::Value::Blob(b) => SqlValue::Blob(b.clone()),
    }
}

/// Whether `e` is the failure that the engine reports where a statement
/// would break a UNIQUE constraint: a `rusqlite::Error::SqliteFailure` with
/// the extended result code `SQLITE_CONSTRAINT_UNIQUE`.
pub uninterp spec fn is_unique_failure(e: rusqlite::Error) -> bool;

/// The text that the `Display` of a `rusqlite::Error` writes for `e`.
pub uninterp spec fn engine_text(e: rusqlite::Error) -> Seq<char>;

/// The text that the `Display` of a `serde_json::Error` writes for `e`.
pub uninterp spec fn json_error_text(e: serde_json::Error) -> Seq<char>;

/// Reads the extended result code of a `rusqlite::Error`: true where the
/// engine refused a statement because a UNIQUE constraint would be broken.
/// The answer depends on the error alone.
#[verifier::external_body]
pub(crate) fn is_unique_violation(e: &rusqlite::Error) -> (r: bool)
    ensures
        r == is_unique_failure(*e),
{
    match e {
        rusqlite::Error::SqliteFailure(f, _) => f.extended_code
            == rusqlite::ffi::SQLITE_CONSTRAINT_UNIQUE,
        _ => false,
    }
}

/// `rusqlite::Error::InvalidColumnIndex`: the error that the engine's binding
/// gives for a column that a row does not have.
#[verifier::external_body]
pub(crate) fn column_index_error(idx: usize) -> (r: rusqlite::Error) {
    rusqlite::Error::InvalidColumnIndex(idx)
}

/// `rusqlite::Error::QueryReturnedNoRows`: the error that the engine's
/// binding gives where a query that must yield a row yields none.
#[verifier::external_body]
pub(crate) fn no_rows_error() -> (r: rusqlite::Error) {
    rusqlite::Error::QueryReturnedNoRows
}

/// `rusqlite::Error::InvalidColumnType`: the error that the engine's binding
/// gives for a column that holds another storage class than the one asked
/// for; the class named in it is `found`'s own (`Value::data_type`).
#[verifier::external_body]
pub(crate) fn column_type_error(idx: usize, name: &str, found: &rusqlite::types::Value) -> (r:
    rusqlite::Error) {
    rusqlite::Error::InvalidColumnType(idx, name.to_owned(), found.data_type())
}

/// The `Display` text of a `rusqlite::Error`, which depends on the error
/// alone.
#[verifier::external_body]
pub(crate) fn engine_message(e: &rusqlite::Error) -> (r: String)
    ensures
        r@ == engine_text(*e),
{
    e.to_string()
}

/// The `Display` text of a `serde_json::Error`, which depends on the error
/// alone.
#[verifier::external_body]
pub(crate) fn json_message(e: &serde_json::Error) -> (r: String)
    ensures
        r@ == json_error_text(*e),
{
    e.to_string()
}

/// The text that `serde_json::to_string` writes for `v`, where it writes one.
pub uninterp spec fn json_written(v: serde_json::Value) -> Option<Seq<char>>;

/// The value that `serde_json::from_str` reads out of `text`, where it reads
/// one.
pub uninterp spec fn json_read(text: Seq<char>) -> Option<serde_json::Value>;

/// What `serde_json::Value::as_str` gives for `v`: its text where it is a
/// JSON string.
pub uninterp spec fn value_text(v: serde_json::Value) -> Option<Seq<char>>;

/// What `serde_json::Value::as_number` gives for `v`: its number where it is
/// a JSON number.
pub uninterp spec fn value_number(v: serde_json::Value) -> Option<serde_json::Number>;

/// What `serde_json::Value::as_array` gives for `v`: its elements where it is
/// a JSON array.
pub uninterp spec fn value_elements(v: serde_json::Value) -> Option<Seq<serde_json::Value>>;

/// What `serde_json::Value::get` gives for `v` and a text key: the value
/// under `key` where `v` is a JSON object that has the key.
pub uninterp spec fn value_field(v: serde_json::Value, key: Seq<char>) -> Option<
    serde_json::Value,
>;

/// No two of the pairs have the same key.
pub open spec fn distinct_keys(fields: Seq<(String, serde_json::Value)>) -> bool {
    forall|i: int, j: int| 0 <= i < j < fields.len() ==> fields[i].0@ != fields[j].0@
}

/// `serde_json::to_string` on a JSON value: the text is a function of the
/// value alone.
#[verifier::external_body]
pub(crate) fn json_to_string(v: &serde_json::Value) -> (r: Result<String, serde_json::Error>)
    ensures
        r is Ok <==> json_written(*v) is Some,
        r matches Ok(text) ==> json_written(*v) == Some(text@),
{
    serde_json::to_string(v)
}

/// `serde_json::from_str` to a JSON value: the outcome is a function of the
/// text alone.
#[verifier::external_body]
pub(crate) fn json_from_str(s: &str) -> (r: Result<serde_json::Value, serde_json::Error>)
    ensures
        r is Ok <==> json_read(s@) is Some,
        r matches Ok(v) ==> json_read(s@) == Some(v),
{
    serde_json::from_str(s)
}

/// `serde_json::Value::String` around `text`: a JSON string with that text.
#[verifier::external_body]
pub(crate) fn json_text(text: String) -> (r: serde_json::Value)
    ensures
        value_text(r) == Some(text@),
{
    serde_json::Value::String(text)
}

/// `serde_json::Value::Number` around `n`: a JSON number that is `n`.
#[verifier::external_body]
pub(crate) fn json_number(n: serde_json::Number) -> (r: serde_json::Value)
    ensures
        value_number(r) == Some(n),
{
    serde_json::Value::Number(n)
}

/// `serde_json::Value::Array` of `elements`: a JSON array with these
/// elements in their order.
#[verifier::external_body]
pub(crate) fn json_array(elements: Vec<serde_json::Value>) -> (r: serde_json::Value)
    ensures
        value_elements(r) == Some(elements@),
{
    serde_json::Value::Array(elements)
}

/// `serde_json::Value::Object` with the given keys and values: where no key
/// comes twice, each key leads to its value.
#[verifier::external_body]
pub(crate) fn json_object(fields: Vec<(String, serde_json::Value)>) -> (r: serde_json::Value)
    ensures
        distinct_keys(fields@) ==> forall|i: int|
            0 <= i < fields.len() ==> value_field(r, (#[trigger] fields[i]).0@) == Some(
                fields[i].1,
            ),
{
    serde_json::Value::Object(fields.into_iter().collect())
}

/// `serde_json::Value::get` by key: the value under `key` where `v` is an
/// object that has the key.
#[verifier::external_body]
pub(crate) fn json_field(v: &serde_json::Value, key: &str) -> (r: Option<serde_json::Value>)
    ensures
        r == value_field(*v, key@),
{
    v.get(key).cloned()
}

/// `serde_json::Value::as_str`: the text where `v` is a JSON string.
#[verifier::external_body]
pub(crate) fn json_as_text(v: &serde_json::Value) -> (r: Option<String>)
    ensures
        r is Some <==> value_text(*v) is Some,
        r matches Some(text) ==> value_text(*v) == Some(text@),
{
    v.as_str().map(str::to_owned)
}

/// `serde_json::Value::as_number`: the number where `v` is a JSON number.
#[verifier::external_body]
pub(crate) fn json_as_number(v: &serde_json::Value) -> (r: Option<serde_json::Number>)
    ensures
        r == value_number(*v),
{
    v.as_number().cloned()
}

/// `serde_json::Value::as_array`: the elements where `v` is a JSON array.
#[verifier::external_body]
pub(crate) fn json_elements(v: &serde_json::Value) -> (r: Option<Vec<serde_json::Value>>)
    ensures
        r is Some <==> value_elements(*v) is Some,
        r matches Some(elements) ==> value_elements(*v) == Some(elements@),
{
    v.as_array().cloned()
}

/// `Clone::clone` of a `serde_json::Number`: the copy equals the number
/// copied.
pub assume_specification[ <serde_json::Number as Clone>::clone ](
    n: &serde_json::Number,
) -> (r: serde_json::Number)
    ensures
        r == *n,
;

} // verus!
