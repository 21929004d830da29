//! Reading typed columns out of the rows that a query hands back.

use crate::error::StoreError;
use crate::store::{
    column_index_error, column_type_error, no_rows_error, to_engine_value, SqlValue,
};
use vstd::prelude::*;

verus! {

/// Column `idx` of `row` exists and holds an integer.
pub open spec fn has_integer(row: Seq<SqlValue>, idx: int) -> bool {
    0 <= idx < row.len() && row[idx] is Integer
}

/// Column `idx` of `row` exists and holds text.
pub open spec fn has_text(row: Seq<SqlValue>, idx: int) -> bool {
    0 <= idx < row.len() && row[idx] is Text
}

/// Column `idx` of `row` exists and holds text or nothing.
pub open spec fn has_optional_text(row: Seq<SqlValue>, idx: int) -> bool {
    0 <= idx < row.len() && (row[idx] is Text || row[idx] is Null)
}

/// Column `idx` of `row` exists and holds a finite real number.
pub open spec fn has_real(row: Seq<SqlValue>, idx: int) -> bool {
    0 <= idx < row.len() && row[idx] is Real && row[idx]->Real_0 is Some
}

/// The text that column `idx` holds, if it holds any.
pub open spec fn optional_text(row: Seq<SqlValue>, idx: int) -> Option<String> {
    match row[idx] {
        SqlValue::Text(t) => Some(t),
        _ => None,
    }
}

/// The integer in column `idx`; a storage failure where the column is
/// missing or holds something else.
pub fn integer_at(row: &Vec<SqlValue>, idx: usize, name: &str) -> (r: Result<i64, StoreError>)
    ensures
        r is Ok <==> has_integer(row@, idx as int),
        r matches Ok(v) ==> row@[idx as int] == SqlValue::Integer(v),
        r matches Err(e) ==> e is Sqlite,
{
    if idx >= row.len() {
        return Err(StoreError::Sqlite(column_index_error(idx)));
    }
    match &row[idx] {
        SqlValue::Integer(i) => Ok(*i),
        other => Err(StoreError::Sqlite(column_type_error(idx, name, &to_engine_value(other)))),
    }
}

/// The text in column `idx`; a storage failure where the column is missing
/// or holds something else.
pub fn text_at(row: &Vec<SqlValue>, idx: usize, name: &str) -> (r: Result<String, StoreError>)
    ensures
        r is Ok <==> has_text(row@, idx as int),
        r matches Ok(v) ==> row@[idx as int] == SqlValue::Text(v),
        r matches Err(e) ==> e is Sqlite,
{
    if idx >= row.len() {
        return Err(StoreError::Sqlite(column_index_error(idx)));
    }
    match &row[idx] {
        SqlValue::Text(t) => Ok(t.clone()),
        other => Err(StoreError::Sqlite(column_type_error(idx, name, &to_engine_value(other)))),
    }
}

/// The text in column `idx`, or `None` where the column holds nothing; a
/// storage failure where the column is missing or holds something else.
pub fn optional_text_at(row: &Vec<SqlValue>, idx: usize, name: &str) -> (r: Result<
    Option<String>,
    StoreError,
>)
    ensures
        r is Ok <==> has_optional_text(row@, idx as int),
        r matches Ok(v) ==> v == optional_text(row@, idx as int),
        r matches Err(e) ==> e is Sqlite,
{
    if idx >= row.len() {
        return Err(StoreError::Sqlite(column_index_error(idx)));
    }
    match &row[idx] {
        SqlValue::Text(t) => Ok(Some(t.clone())),
        SqlValue::Null => Ok(None),
        other => Err(StoreError::Sqlite(column_type_error(idx, name, &to_engine_value(other)))),
    }
}

/// The real number in column `idx`; a storage failure where the column is
/// missing or holds something else, an infinity included.
pub fn real_at(row: &Vec<SqlValue>, idx: usize, name: &str) -> (r: Result<
    serde_json::Number,
    StoreError,
>)
    ensures
        r is Ok <==> has_real(row@, idx as int),
        r matches Ok(v) ==> row@[idx as int] == SqlValue::Real(Some(v)),
        r matches Err(e) ==> e is Sqlite,
{
    if idx >= row.len() {
        return Err(StoreError::Sqlite(column_index_error(idx)));
    }
    match &row[idx] {
        SqlValue::Real(Some(n)) => Ok(n.clone()),
        other => Err(StoreError::Sqlite(column_type_error(idx, name, &to_engine_value(other)))),
    }
}

/// An invoice row as it comes from the store, its item list still encoded.
pub struct FactureRow {
    pub id: i64,
    pub facture_number: String,
    pub client_name: String,
    pub client_address: Option<String>,
    pub client_ice: Option<String>,
    pub date: String,
    pub items_json: String,
    pub kind: String,
    pub show_margin: bool,
    pub prix_total_hors_frais: serde_json::Number,
    pub total_frais_service_ht: serde_json::Number,
    pub tva: serde_json::Number,
    pub total: serde_json::Number,
    pub notes: Option<String>,
}

/// `row` has the fourteen columns of an invoice, each of the class that its
/// field asks for.
pub open spec fn is_facture_row(row: Seq<SqlValue>) -> bool {
    &&& has_integer(row, 0)
    &&& has_text(row, 1)
    &&& has_text(row, 2)
    &&& has_optional_text(row, 3)
    &&& has_optional_text(row, 4)
    &&& has_text(row, 5)
    &&& has_text(row, 6)
    &&& has_text(row, 7)
    &&& has_integer(row, 8)
    &&& has_real(row, 9)
    &&& has_real(row, 10)
    &&& has_real(row, 11)
    &&& has_real(row, 12)
    &&& has_optional_text(row, 13)
}

/// The invoice row that the columns of `row` spell out.
pub open spec fn facture_row_of(row: Seq<SqlValue>) -> FactureRow {
    FactureRow {
        id: row[0]->Integer_0,
        facture_number: row[1]->Text_0,
        client_name: row[2]->Text_0,
        client_address: optional_text(row, 3),
        client_ice: optional_text(row, 4),
        date: row[5]->Text_0,
        items_json: row[6]->Text_0,
        kind: row[7]->Text_0,
        show_margin: row[8]->Integer_0 != 0,
        prix_total_hors_frais: row[9]->Real_0->Some_0,
        total_frais_service_ht: row[10]->Real_0->Some_0,
        tva: row[11]->Real_0->Some_0,
        total: row[12]->Real_0->Some_0,
        notes: optional_text(row, 13),
    }
}

/// Reads one invoice row, column by column. It succeeds exactly on the rows
/// that have every column in its class.
pub fn read_facture_row(row: &Vec<SqlValue>) -> (r: Result<FactureRow, StoreError>)
    ensures
        r is Ok <==> is_facture_row(row@),
        r matches Ok(f) ==> f == facture_row_of(row@),
        r matches Err(e) ==> e is Sqlite,
{
    let id = integer_at(row, 0, "id")?;
    let facture_number = text_at(row, 1, "facture_number")?;
    let client_name = text_at(row, 2, "client_name")?;
    let client_address = optional_text_at(row, 3, "client_address")?;
    let client_ice = optional_text_at(row, 4, "client_ice")?;
    let date = text_at(row, 5, "date")?;
    let items_json = text_at(row, 6, "items")?;
    let kind = text_at(row, 7, "type")?;
    let show_margin = integer_at(row, 8, "show_margin")?;
    let prix_total_hors_frais = real_at(row, 9, "prix_total_hors_frais")?;
    let total_frais_service_ht = real_at(row, 10, "total_frais_service_ht")?;
    let tva = real_at(row, 11, "tva")?;
    let total = real_at(row, 12, "total")?;
    let notes = optional_text_at(row, 13, "notes")?;
    Ok(
        FactureRow {
            id,
            facture_number,
            client_name,
            client_address,
            client_ice,
            date,
            items_json,
            kind,
            show_margin: show_margin != 0,
            prix_total_hors_frais,
            total_frais_service_ht,
            tva,
            total,
            notes,
        },
    )
}

/// The single integer of a one-row, one-column answer, such as a count.
pub open spec fn single_integer(rows: Seq<Vec<SqlValue>>) -> Option<i64> {
    if rows.len() >= 1 && has_integer(rows[0]@, 0) {
        Some(rows[0]@[0]->Integer_0)
    } else {
        None
    }
}

/// Reads the answer of a query that yields one integer. An answer without a
/// row, or with a first column of another class, is a storage failure.
pub fn read_single_integer(rows: &Vec<Vec<SqlValue>>) -> (r: Result<i64, StoreError>)
    ensures
        r is Ok <==> single_integer(rows@) is Some,
        r matches Ok(v) ==> single_integer(rows@) == Some(v),
        r matches Err(e) ==> e is Sqlite,
{
    if rows.len() == 0 {
        return Err(StoreError::Sqlite(no_rows_error()));
    }
    integer_at(&rows[0], 0, "count")
}

} // verus!
