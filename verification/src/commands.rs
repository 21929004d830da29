//! The operations on the store: listing, creating, replacing and deleting
//! invoices, and reading and writing the settings and the theme.

use crate::error::StoreError;
use crate::items::{cannot_be_written, items_from_json, items_to_json, reads_as};
use crate::models::{Facture, FactureData, FactureItem, PaginatedResponse, Pagination, Theme};
use crate::numbering::{assigned_number, spec_assigned_number};
use crate::paging::{page_offset, spec_total_pages, total_pages};
use crate::query::{
    begin_sql, commit_sql, count_params, count_sql, delete_sql, highest_id_sql, id_params,
    insert_params, insert_sql, list_params, list_sql, number_count_sql, number_sql, rollback_sql,
    schema_sql, setting_params, setting_upsert_sql, settings_sql, sort_mode, text_params,
    theme_sql, theme_upsert_sql, update_params, update_sql,
};
use crate::rows::{
    facture_row_of, has_text, is_facture_row, read_facture_row, read_single_integer, text_at,
    FactureRow,
};
use crate::store::{
    execute, from_engine_value, is_unique_failure, json_from_str, json_read, json_to_string,
    json_written, last_insert_rowid, query, run_batch, to_engine_value, SqlValue,
};
use vstd::prelude::*;
use vstd::string::StringExecFns;

verus! {

/// The store as the operations see it: the connection, once it is set up.
pub struct AppState {
    pub db: Option<rusqlite::Connection>,
}

/// Sets up the store on an open connection: write-ahead logging, foreign
/// keys, and the three tables where they are absent. It hands the engine
/// the statements of `schema_sql` and nothing else; a failure is the
/// engine's.
pub fn init_db(conn: &rusqlite::Connection) -> (r: Result<(), StoreError>)
    ensures
        r matches Err(e) ==> e is Sqlite,
{
    match run_batch(conn, schema_sql()) {
        Ok(()) => Ok(()),
        Err(e) => Err(StoreError::Sqlite(e)),
    }
}

/// What a changing statement's outcome means for the operation: a failure of
/// the engine is a storage failure; where the row must exist, no changed row
/// means that it does not; everything else is success.
pub fn change_outcome(outcome: Result<usize, rusqlite::Error>, must_exist: bool) -> (r: Result<
    (),
    StoreError,
>)
    ensures
        r is Ok <==> (outcome matches Ok(changed) && (must_exist ==> changed != 0)),
        outcome matches Err(e) ==> r == Err::<(), StoreError>(StoreError::Sqlite(e)),
        outcome is Ok && r is Err ==> r == Err::<(), StoreError>(StoreError::NotFound),
{
    match outcome {
        Err(e) => Err(StoreError::Sqlite(e)),
        Ok(changed) => if must_exist && changed == 0 {
            Err(StoreError::NotFound)
        } else {
            Ok(())
        },
    }
}

fn bind_all(params: &Vec<SqlValue>) -> (r: Vec<rusqlite::types::Value>)
    ensures
        r.len() == params.len(),
{
    let mut bound: Vec<rusqlite::types::Value> = Vec::new();
    let mut i: usize = 0;
    while i < params.len()
        invariant
            i <= params.len(),
            bound.len() == i,
        decreases params.len() - i,
    {
        bound.push(to_engine_value(&params[i]));
        i += 1;
    }
    bound
}

fn read_cells(cells: &Vec<rusqlite::types::Value>) -> (r: Vec<SqlValue>)
    ensures
        r.len() == cells.len(),
{
    let mut row: Vec<SqlValue> = Vec::new();
    let mut i: usize = 0;
    while i < cells.len()
        invariant
            i <= cells.len(),
            row.len() == i,
        decreases cells.len() - i,
    {
        row.push(from_engine_value(&cells[i]));
        i += 1;
    }
    row
}

fn run_execute(conn: &rusqlite::Connection, sql: &str, params: &Vec<SqlValue>) -> (r: Result<
    usize,
    rusqlite::Error,
>) {
    execute(conn, sql, bind_all(params))
}

fn run_query(conn: &rusqlite::Connection, sql: &str, params: &Vec<SqlValue>) -> (r: Result<
    Vec<Vec<SqlValue>>,
    StoreError,
>)
    ensures
        r matches Err(e) ==> e is Sqlite,
{
    match query(conn, sql, bind_all(params)) {
        Ok(answer) => {
            let mut rows: Vec<Vec<SqlValue>> = Vec::new();
            let mut i: usize = 0;
            while i < answer.len()
                invariant
                    i <= answer.len(),
                    rows.len() == i,
                decreases answer.len() - i,
            {
                rows.push(read_cells(&answer[i]));
                i += 1;
            }
            Ok(rows)
        },
        Err(e) => Err(StoreError::Sqlite(e)),
    }
}

/// The place of a page among `total_count` matching rows.
pub open spec fn spec_pagination(page: i64, limit: i64, total_count: i64) -> Pagination {
    Pagination {
        current_page: page,
        total_pages: spec_total_pages(total_count as int, limit as int) as i64,
        total_count,
    }
}

/// Puts the fetched rows of a page together with its place among all
/// matching rows.
pub fn assemble_page(data: Vec<Facture>, page: i64, limit: i64, total_count: i64) -> (r:
    PaginatedResponse)
    ensures
        r.data == data,
        r.pagination == spec_pagination(page, limit, total_count),
        r.pagination.total_pages == spec_total_pages(total_count as int, limit as int),
{
    PaginatedResponse {
        data,
        pagination: Pagination {
            current_page: page,
            total_pages: total_pages(total_count, limit),
            total_count,
        },
    }
}

/// `facture` carries every column of `row` but the item list, which is
/// decoded apart.
pub open spec fn carries_row(facture: Facture, row: FactureRow) -> bool {
    &&& facture.id == Some(row.id)
    &&& facture.facture_number == row.facture_number
    &&& facture.client_name == row.client_name
    &&& facture.client_address == row.client_address
    &&& facture.client_ice == row.client_ice
    &&& facture.date == row.date
    &&& facture.kind == row.kind
    &&& facture.show_margin == row.show_margin
    &&& facture.prix_total_hors_frais == row.prix_total_hors_frais
    &&& facture.total_frais_service_ht == row.total_frais_service_ht
    &&& facture.tva == row.tva
    &&& facture.total == row.total
    &&& facture.notes == row.notes
}

/// The invoice that a stored row and its decoded item list make up.
pub fn facture_from_row(row: FactureRow, items: Vec<FactureItem>) -> (r: Facture)
    ensures
        carries_row(r, row),
        r.items == items,
{
    Facture {
        id: Some(row.id),
        facture_number: row.facture_number,
        client_name: row.client_name,
        client_address: row.client_address,
        client_ice: row.client_ice,
        date: row.date,
        items,
        kind: row.kind,
        show_margin: row.show_margin,
        prix_total_hors_frais: row.prix_total_hors_frais,
        total_frais_service_ht: row.total_frais_service_ht,
        tva: row.tva,
        total: row.total,
        notes: row.notes,
    }
}

/// Turns the rows of a page into invoices, in their order. It succeeds
/// exactly where every row is an invoice row; an item column that cannot be
/// decoded gives an invoice without items, never a failure.
pub fn read_factures(rows: &Vec<Vec<SqlValue>>) -> (r: Result<Vec<Facture>, StoreError>)
    ensures
        r is Ok <==> (forall|i: int| 0 <= i < rows.len() ==> is_facture_row(#[trigger] rows[i]@)),
        r matches Ok(v) ==> v.len() == rows.len() && forall|i: int|
            0 <= i < v.len() ==> carries_row(#[trigger] v[i], facture_row_of(rows[i]@)),
        r matches Ok(v) ==> forall|i: int|
            0 <= i < v.len() ==> reads_as(
                json_read(facture_row_of(rows[i]@).items_json@),
                (#[trigger] v[i]).items@,
            ),
        r matches Err(e) ==> e is Sqlite,
{
    let mut out: Vec<Facture> = Vec::new();
    let mut i: usize = 0;
    while i < rows.len()
        invariant
            i <= rows.len(),
            out.len() == i,
            forall|j: int| 0 <= j < i ==> is_facture_row(#[trigger] rows[j]@),
            forall|j: int| 0 <= j < i ==> carries_row(#[trigger] out[j], facture_row_of(rows[j]@)),
            forall|j: int|
                0 <= j < i ==> reads_as(
                    json_read(facture_row_of(rows[j]@).items_json@),
                    (#[trigger] out[j]).items@,
                ),
        decreases rows.len() - i,
    {
        match read_facture_row(&rows[i]) {
            Err(e) => {
                assert(!is_facture_row(rows[i as int]@));
                return Err(e);
            },
            Ok(row) => {
                let items = items_from_json(row.items_json.as_str());
                out.push(facture_from_row(row, items));
            },
        }
        i += 1;
    }
    Ok(out)
}

/// Lists one page of invoices. `page` counts from 1 and `limit` is the page
/// size; a non-empty `search` keeps the rows with that text in the client
/// name, the invoice number or the written total; `sort_by` is `oldest` for
/// oldest first, anything else for newest first.
pub fn get_factures(state: &AppState, page: i64, limit: i64, search: &str, sort_by: &str) -> (r:
    Result<PaginatedResponse, StoreError>)
    ensures
        state.db is None <==> r matches Err(StoreError::DbConnection),
        r matches Ok(p) ==> p.pagination == spec_pagination(page, limit, p.pagination.total_count),
        r matches Ok(p) ==> forall|i: int| 0 <= i < p.data.len() ==> (#[trigger] p.data[i]).id is Some,
        r matches Ok(p) ==> (limit == 0 ==> p.pagination.total_pages == 0),
        r matches Err(e) ==> e is DbConnection || e is Sqlite,
{
    let conn = match &state.db {
        Some(conn) => conn,
        None => {
            return Err(StoreError::DbConnection);
        },
    };
    let searching = search.unicode_len() != 0;
    let counted = run_query(conn, count_sql(searching), &count_params(search))?;
    let total_count = read_single_integer(&counted)?;
    let offset = page_offset(page, limit);
    let fetched = run_query(
        conn,
        list_sql(searching, sort_mode(sort_by)),
        &list_params(search, limit, offset),
    )?;
    let data = read_factures(&fetched)?;
    Ok(assemble_page(data, page, limit, total_count))
}

/// Whether a probed number is free: it is exactly when no stored invoice
/// carries it, `carriers` being the count of those that do.
pub fn number_is_free(carriers: i64) -> (r: bool)
    ensures
        r == (carriers == 0),
{
    carriers == 0
}

/// The running number to try first for an invoice that came without a
/// number: the one after the highest row id that the store ever gave.
pub fn first_candidate(highest: i64) -> (r: u64)
    ensures
        r == if highest < 0 {
            1
        } else {
            highest + 1
        },
{
    if highest < 0 {
        1
    } else {
        highest as u64 + 1
    }
}

/// Picks a number for an invoice that came without one: the assigned
/// numbers are tried in their order, from `first_candidate` of the highest
/// row id on, and the first that no stored invoice carries is taken.
fn assign_number(conn: &rusqlite::Connection) -> (r: Result<String, StoreError>)
    ensures
        r matches Ok(number) ==> exists|n: nat| number@ == spec_assigned_number(n),
        r matches Err(e) ==> e is Sqlite || e is DuplicateNumber,
{
    let none: Vec<SqlValue> = Vec::new();
    let highest = run_query(conn, highest_id_sql(), &none)?;
    let mut n: u64 = first_candidate(read_single_integer(&highest)?);
    let mut tries: u32 = 0;
    while tries < 100000
        invariant
            tries <= 100000,
            n <= i64::MAX + 1 + tries,
        decreases 100000 - tries,
    {
        let candidate = assigned_number(n);
        let counted = run_query(conn, number_count_sql(), &text_params(candidate.clone()))?;
        if number_is_free(read_single_integer(&counted)?) {
            assert(candidate@ == spec_assigned_number(n as nat));
            return Ok(candidate);
        }
        n = n + 1;
        tries = tries + 1;
    }
    Err(StoreError::DuplicateNumber)
}

/// Stores a new invoice and returns it with the id that the store gave it.
/// It keeps the number that `data` brings; without one it assigns a number
/// that no stored invoice carries. A number that is already taken is a
/// duplicate number: with a number of the caller's, a broken UNIQUE
/// constraint never comes back as a plain storage failure.
pub fn create_facture(state: &AppState, data: FactureData) -> (r: Result<Facture, StoreError>)
    ensures
        state.db is None <==> r matches Err(StoreError::DbConnection),
        r matches Ok(f) ==> f.id is Some && f == data.stored_as(f.id->Some_0, f.facture_number),
        r matches Ok(f) ==> (data.facture_number matches Some(number) ==> f.facture_number
            == number),
        r matches Ok(f) ==> (data.facture_number is None ==> exists|n: nat|
            f.facture_number@ == spec_assigned_number(n)),
        r matches Err(e) ==> e is DbConnection || e is Sqlite || e is Json || e is DuplicateNumber,
        r matches Err(e) ==> (e is Json ==> cannot_be_written(data.items@)),
        data.facture_number is Some ==> (r matches Err(e) ==> !(e is Sqlite && is_unique_failure(
            e->Sqlite_0,
        ))),
{
    let conn = match &state.db {
        Some(conn) => conn,
        None => {
            return Err(StoreError::DbConnection);
        },
    };
    let number = match &data.facture_number {
        Some(number) => number.clone(),
        None => assign_number(conn)?,
    };
    let items_json = items_to_json(&data.items)?;
    let params = insert_params(&data, items_json, &number);
    match run_execute(conn, insert_sql(), &params) {
        Err(e) => Err(StoreError::insert_failure(e)),
        Ok(_) => {
            let id = last_insert_rowid(conn);
            Ok(data.into_facture(id, number))
        },
    }
}

/// The stored number in the answer to a query for one invoice's number; a
/// missing row where the answer is empty.
pub fn read_number(rows: &Vec<Vec<SqlValue>>) -> (r: Result<String, StoreError>)
    ensures
        r is Ok <==> rows.len() > 0 && has_text(rows[0]@, 0),
        r matches Ok(number) ==> rows[0]@[0] == SqlValue::Text(number),
        rows.len() == 0 ==> r == Err::<String, StoreError>(StoreError::NotFound),
        rows.len() > 0 && r is Err ==> r->Err_0 is Sqlite,
{
    if rows.len() == 0 {
        return Err(StoreError::NotFound);
    }
    text_at(&rows[0], 0, "facture_number")
}

/// The record to return for an update of invoice `id` with `data`, given the
/// answer to the query for its stored number: the data under `id` and that
/// number; a missing row where the answer is empty.
pub fn updated_facture(data: FactureData, id: i64, stored: &Vec<Vec<SqlValue>>) -> (r: Result<
    Facture,
    StoreError,
>)
    ensures
        r is Ok <==> stored.len() > 0 && has_text(stored[0]@, 0),
        r matches Ok(f) ==> f == data.stored_as(id, f.facture_number) && stored[0]@[0]
            == SqlValue::Text(f.facture_number),
        stored.len() == 0 ==> r == Err::<Facture, StoreError>(StoreError::NotFound),
        stored.len() > 0 && r is Err ==> r->Err_0 is Sqlite,
{
    match read_number(stored) {
        Ok(number) => Ok(data.into_facture(id, number)),
        Err(e) => Err(e),
    }
}

/// Replaces every column of invoice `id` but its number with `data`, and
/// returns the invoice as it now stands, under the number that the store
/// holds for it. An id that no row has is a missing row.
pub fn update_facture(state: &AppState, id: i64, data: FactureData) -> (r: Result<
    Facture,
    StoreError,
>)
    ensures
        state.db is None <==> r matches Err(StoreError::DbConnection),
        r matches Ok(f) ==> f == data.stored_as(id, f.facture_number),
        r matches Err(e) ==> e is DbConnection || e is Sqlite || e is Json || e is NotFound,
        r matches Err(e) ==> (e is Json ==> cannot_be_written(data.items@)),
{
    let conn = match &state.db {
        Some(conn) => conn,
        None => {
            return Err(StoreError::DbConnection);
        },
    };
    let items_json = items_to_json(&data.items)?;
    let params = update_params(&data, items_json, id);
    change_outcome(run_execute(conn, update_sql(), &params), true)?;
    let stored = run_query(conn, number_sql(), &id_params(id))?;
    updated_facture(data, id, &stored)
}

/// Removes invoice `id` if there is one. An id that no row has is no
/// failure.
pub fn delete_facture(state: &AppState, id: i64) -> (r: Result<(), StoreError>)
    ensures
        state.db is None <==> r matches Err(StoreError::DbConnection),
        r matches Err(e) ==> e is DbConnection || e is Sqlite,
{
    let conn = match &state.db {
        Some(conn) => conn,
        None => {
            return Err(StoreError::DbConnection);
        },
    };
    change_outcome(run_execute(conn, delete_sql(), &id_params(id)), false)
}

/// Every row has a key and a value, both text.
pub open spec fn are_setting_rows(rows: Seq<Vec<SqlValue>>) -> bool {
    forall|i: int| 0 <= i < rows.len() ==> has_text(#[trigger] rows[i]@, 0) && has_text(rows[i]@, 1)
}

/// The key of a setting row.
pub open spec fn setting_key(row: Seq<SqlValue>) -> Seq<char> {
    row[0]->Text_0@
}

/// No key occurs twice among the pairs: what a mapping from key to value
/// has by its nature, a list of pairs by this rule.
pub open spec fn distinct_setting_keys(pairs: Seq<(String, String)>) -> bool {
    forall|i: int, j: int| 0 <= i < j < pairs.len() ==> pairs[i].0@ != pairs[j].0@
}

/// `pair` is the key and value of row `at`, and none of the rows after it and
/// before `upto` has the same key.
pub open spec fn is_last_of_key(
    rows: Seq<Vec<SqlValue>>,
    upto: int,
    at: int,
    pair: (String, String),
) -> bool {
    &&& 0 <= at < upto
    &&& rows[at]@[0] == SqlValue::Text(pair.0)
    &&& rows[at]@[1] == SqlValue::Text(pair.1)
    &&& forall|k: int| at < k < upto ==> setting_key(#[trigger] rows[k]@) != pair.0@
}

/// `pair` is what the rows say of its key: the key and value of the last row
/// that has the key.
pub open spec fn is_setting_of(rows: Seq<Vec<SqlValue>>, pair: (String, String)) -> bool {
    exists|at: int| is_last_of_key(rows, rows.len() as int, at, pair)
}

/// Some pair has the key `key`.
pub open spec fn has_setting_key(pairs: Seq<(String, String)>, key: Seq<char>) -> bool {
    exists|j: int| 0 <= j < pairs.len() && (#[trigger] pairs[j]).0@ == key
}

/// Turns the rows of the settings table into the mapping from key to value,
/// kept as a list of pairs in which no key occurs twice. Every key of the
/// rows is in it, with the value of the last row that has the key. It
/// succeeds exactly where every row has a key and a value, both text.
pub fn read_settings(rows: &Vec<Vec<SqlValue>>) -> (r: Result<Vec<(String, String)>, StoreError>)
    ensures
        r is Ok <==> are_setting_rows(rows@),
        r matches Ok(v) ==> distinct_setting_keys(v@),
        r matches Ok(v) ==> forall|j: int| 0 <= j < v.len() ==> is_setting_of(rows@, #[trigger] v[j]),
        r matches Ok(v) ==> forall|i: int|
            0 <= i < rows.len() ==> has_setting_key(v@, setting_key(#[trigger] rows[i]@)),
        r matches Err(e) ==> e is Sqlite,
{
    let mut out: Vec<(String, String)> = Vec::new();
    let ghost mut source: Seq<int> = Seq::empty();
    let ghost mut place: Seq<int> = Seq::empty();
    let mut i: usize = 0;
    while i < rows.len()
        invariant
            i <= rows.len(),
            source.len() == out.len(),
            place.len() == i,
            distinct_setting_keys(out@),
            forall|j: int| 0 <= j < i ==> has_text(#[trigger] rows[j]@, 0) && has_text(rows[j]@, 1),
            forall|j: int|
                0 <= j < out.len() ==> is_last_of_key(rows@, i as int, source[j], #[trigger] out[j]),
            forall|k: int|
                0 <= k < i ==> 0 <= #[trigger] place[k] < out.len() && out[place[k]].0@
                    == setting_key(rows[k]@),
        decreases rows.len() - i,
    {
        let key = match text_at(&rows[i], 0, "key") {
            Ok(key) => key,
            Err(e) => {
                assert(!has_text(rows[i as int]@, 0));
                return Err(e);
            },
        };
        let value = match text_at(&rows[i], 1, "value") {
            Ok(value) => value,
            Err(e) => {
                assert(!has_text(rows[i as int]@, 1));
                return Err(e);
            },
        };
        let mut j: usize = 0;
        while j < out.len() && !(out[j].0 == key)
            invariant
                j <= out.len(),
                forall|m: int| 0 <= m < j ==> (#[trigger] out[m]).0@ != key@,
            decreases out.len() - j,
        {
            j += 1;
        }
        let ghost before = out@;
        if j < out.len() {
            out.set(j, (key, value));
        } else {
            out.push((key, value));
        }
        proof {
            source = if j < before.len() {
                source.update(j as int, i as int)
            } else {
                source.push(i as int)
            };
            place = place.push(j as int);
            assert(setting_key(rows[i as int]@) == key@);
            assert(out[j as int].0@ == key@);
            assert forall|m: int| 0 <= m < out.len() && m != j implies (#[trigger] out[m]).0@
                != key@ by {
                assert(out[m] == before[m]);
                if m > j {
                    assert(before[j as int].0@ == key@);
                }
            }
            assert forall|m: int, n: int| 0 <= m < n < out.len() implies out[m].0@
                != out[n].0@ by {
                if m != j && n != j {
                    assert(out[m] == before[m]);
                    assert(out[n] == before[n]);
                }
            }
            assert forall|m: int| 0 <= m < out.len() implies is_last_of_key(
                rows@,
                i as int + 1,
                source[m],
                #[trigger] out[m],
            ) by {
                if m != j {
                    assert(out[m] == before[m]);
                    assert(is_last_of_key(rows@, i as int, source[m], before[m]));
                }
            }
            assert forall|k: int| 0 <= k < i + 1 implies 0 <= #[trigger] place[k] < out.len()
                && out[place[k]].0@ == setting_key(rows[k]@) by {
                if k < i {
                    if place[k] != j {
                        assert(out[place[k]] == before[place[k]]);
                    } else {
                        assert(before[place[k]].0@ == setting_key(rows[k]@));
                    }
                }
            }
        }
        i += 1;
    }
    proof {
        assert forall|j: int| 0 <= j < out.len() implies is_setting_of(rows@, #[trigger] out[j]) by {
            assert(is_last_of_key(rows@, rows.len() as int, source[j], out[j]));
        }
        assert forall|k: int| 0 <= k < rows.len() implies has_setting_key(
            out@,
            setting_key(#[trigger] rows[k]@),
        ) by {
            assert(out@[place[k]].0@ == setting_key(rows[k]@));
        }
    }
    Ok(out)
}

/// All settings: the mapping from key to value, as a list of pairs in which
/// no key occurs twice.
pub fn get_settings(state: &AppState) -> (r: Result<Vec<(String, String)>, StoreError>)
    ensures
        state.db is None <==> r matches Err(StoreError::DbConnection),
        r matches Ok(v) ==> distinct_setting_keys(v@),
        r matches Err(e) ==> e is DbConnection || e is Sqlite,
{
    let conn = match &state.db {
        Some(conn) => conn,
        None => {
            return Err(StoreError::DbConnection);
        },
    };
    let none: Vec<SqlValue> = Vec::new();
    let rows = run_query(conn, settings_sql(), &none)?;
    read_settings(&rows)
}

fn upsert_settings(conn: &rusqlite::Connection, settings: &Vec<(String, String)>) -> (r: Result<
    (),
    StoreError,
>)
    ensures
        settings.len() == 0 ==> r is Ok,
        r matches Err(e) ==> e is Sqlite,
{
    let mut i: usize = 0;
    while i < settings.len()
        invariant
            i <= settings.len(),
        decreases settings.len() - i,
    {
        let pair = setting_params(&settings[i].0, &settings[i].1);
        change_outcome(run_execute(conn, setting_upsert_sql(), &pair), false)?;
        i += 1;
    }
    Ok(())
}

/// Sets each given key to its value, within one transaction: either every
/// pair is stored or none is. Keys that are not given keep their values.
/// The pairs are stored in their order, so where a key comes twice its last
/// value stays, as in a mapping filled in that order.
pub fn update_settings(state: &AppState, settings: &Vec<(String, String)>) -> (r: Result<
    (),
    StoreError,
>)
    ensures
        state.db is None <==> r matches Err(StoreError::DbConnection),
        r matches Err(e) ==> e is DbConnection || e is Sqlite,
{
    let conn = match &state.db {
        Some(conn) => conn,
        None => {
            return Err(StoreError::DbConnection);
        },
    };
    match run_batch(conn, begin_sql()) {
        Ok(()) => {},
        Err(e) => {
            return Err(StoreError::Sqlite(e));
        },
    }
    match upsert_settings(conn, settings) {
        Ok(()) => match run_batch(conn, commit_sql()) {
            Ok(()) => Ok(()),
            Err(e) => Err(StoreError::Sqlite(e)),
        },
        Err(e) => {
            let _ = run_batch(conn, rollback_sql());
            Err(e)
        },
    }
}

/// The stored theme text in the answer to the theme query, and the empty
/// object where there is none: no row, nothing in the row, or no answer.
pub open spec fn spec_theme_text(answer: Result<Vec<Vec<SqlValue>>, StoreError>) -> Seq<char> {
    match answer {
        Ok(rows) => if rows.len() > 0 && has_text(rows[0]@, 0) {
            rows[0]@[0]->Text_0@
        } else {
            "{}"@
        },
        Err(_) => "{}"@,
    }
}

/// Reads the theme text out of the answer to the theme query.
pub fn theme_text(answer: Result<Vec<Vec<SqlValue>>, StoreError>) -> (r: String)
    ensures
        r@ == spec_theme_text(answer),
{
    match answer {
        Ok(rows) => {
            if rows.len() > 0 {
                match text_at(&rows[0], 0, "styles") {
                    Ok(text) => text,
                    Err(_) => String::from_str("{}"),
                }
            } else {
                String::from_str("{}")
            }
        },
        Err(_) => String::from_str("{}"),
    }
}

/// The theme that a stored theme text stands for: the JSON value that the
/// text reads as, and a JSON failure where it reads as none.
pub fn theme_of_text(text: &str) -> (r: Result<Theme, StoreError>)
    ensures
        r is Ok <==> json_read(text@) is Some,
        r matches Ok(t) ==> json_read(text@) == Some(t.styles),
        r matches Err(e) ==> e is Json,
{
    match json_from_str(text) {
        Ok(styles) => Ok(Theme { styles }),
        Err(e) => Err(StoreError::Json(e)),
    }
}

/// The current theme; the empty object where none was ever stored.
pub fn get_theme(state: &AppState) -> (r: Result<Theme, StoreError>)
    ensures
        state.db is None <==> r matches Err(StoreError::DbConnection),
        r matches Ok(t) ==> exists|text: Seq<char>| json_read(text) == Some(t.styles),
        r matches Err(e) ==> e is DbConnection || e is Json,
{
    let conn = match &state.db {
        Some(conn) => conn,
        None => {
            return Err(StoreError::DbConnection);
        },
    };
    let none: Vec<SqlValue> = Vec::new();
    let text = theme_text(run_query(conn, theme_sql(), &none));
    theme_of_text(text.as_str())
}

/// Replaces the stored theme by `styles` as a whole. It fails with a JSON
/// failure exactly where `styles` has no written form.
pub fn update_theme(state: &AppState, styles: &serde_json::Value) -> (r: Result<(), StoreError>)
    ensures
        state.db is None <==> r matches Err(StoreError::DbConnection),
        r matches Err(e) ==> e is DbConnection || e is Json || e is Sqlite,
        (state.db is Some && json_written(*styles) is None) ==> (r matches Err(e) && e is Json),
        (r matches Err(e) && e is Json) ==> json_written(*styles) is None,
{
    let conn = match &state.db {
        Some(conn) => conn,
        None => {
            return Err(StoreError::DbConnection);
        },
    };
    let text = match json_to_string(styles) {
        Ok(text) => text,
        Err(e) => {
            return Err(StoreError::Json(e));
        },
    };
    change_outcome(run_execute(conn, theme_upsert_sql(), &text_params(text)), false)
}

} // verus!
