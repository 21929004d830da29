//! The statements that the operations run and the values bound to them.
//! Every value that a caller supplies is bound as a parameter; no statement
//! text is ever built from it.

use crate::models::FactureData;
use crate::store::SqlValue;
use vstd::prelude::*;
use vstd::string::StringExecFns;

verus! {

/// The order in which a listing shows the invoices.
#[derive(Debug, Clone, Copy, PartialEq, Eq, Structural)]
pub enum SortMode {
    /// Most recently created first.
    Newest,
    /// Earliest created first.
    Oldest,
}

/// The sort mode that a caller's word selects: `oldest` selects oldest
/// first, every other word newest first.
pub open spec fn spec_sort_mode(sort_by: Seq<char>) -> SortMode {
    if sort_by == "oldest"@ {
        SortMode::Oldest
    } else {
        SortMode::Newest
    }
}

/// Reads the sort mode out of a caller's word.
pub fn sort_mode(sort_by: &str) -> (r: SortMode)
    ensures
        r == spec_sort_mode(sort_by@),
{
    let word = String::from_str(sort_by);
    let oldest = String::from_str("oldest");
    if word == oldest {
        SortMode::Oldest
    } else {
        SortMode::Newest
    }
}

/// The characters that a LIKE pattern does not take literally: the two
/// wildcards and the escape character itself.
pub open spec fn is_wildcard(c: char) -> bool {
    c == '%' || c == '_' || c == '\\'
}

/// `text` with a backslash before every character that a LIKE pattern does
/// not take literally.
pub open spec fn spec_escape(text: Seq<char>) -> Seq<char>
    decreases text.len(),
{
    if text.len() == 0 {
        Seq::empty()
    } else if is_wildcard(text.last()) {
        spec_escape(text.drop_last()).push('\\').push(text.last())
    } else {
        spec_escape(text.drop_last()).push(text.last())
    }
}

/// Escapes `text` for use inside a LIKE pattern, so that the pattern matches
/// its characters and nothing else.
pub fn escape_like(text: &str) -> (r: String)
    ensures
        r@ == spec_escape(text@),
{
    let n = text.unicode_len();
    let mut out = String::new();
    let mut i: usize = 0;
    while i < n
        invariant
            i <= n,
            n == text@.len(),
            out@ == spec_escape(text@.subrange(0, i as int)),
        decreases n - i,
    {
        let c = text.get_char(i);
        if c == '%' || c == '_' || c == '\\' {
            out.append("\\");
        }
        out.append(text.substring_char(i, i + 1));
        proof {
            reveal_strlit("\\");
            let next = text@.subrange(0, i as int + 1);
            assert(next.drop_last() =~= text@.subrange(0, i as int));
            assert(next.last() == c);
            assert(text@.subrange(i as int, i as int + 1) =~= seq![c]);
            assert("\\"@ =~= seq!['\\']);
            assert(out@ =~= spec_escape(next));
        }
        i += 1;
    }
    assert(text@.subrange(0, n as int) =~= text@);
    out
}

/// A text without any wildcard or backslash is its own escaped form.
pub proof fn lemma_plain_text_is_its_own_escape(text: Seq<char>)
    requires
        forall|i: int| 0 <= i < text.len() ==> !is_wildcard(#[trigger] text[i]),
    ensures
        spec_escape(text) == text,
    decreases text.len(),
{
    if text.len() > 0 {
        lemma_plain_text_is_its_own_escape(text.drop_last());
        assert(spec_escape(text) =~= text);
    }
}

/// The LIKE pattern that matches every text with `search` somewhere in it:
/// the escaped search between two `%`.
pub open spec fn spec_search_pattern(search: Seq<char>) -> Seq<char> {
    "%"@ + spec_escape(search) + "%"@
}

/// Builds the pattern bound to a searching statement.
pub fn search_pattern(search: &str) -> (r: String)
    ensures
        r@ == spec_search_pattern(search@),
{
    String::from_str("%").concat(escape_like(search).as_str()).concat("%")
}

/// The columns of an invoice row, in the order in which they are read.
pub open spec fn spec_list_sql(searching: bool, mode: SortMode) -> Seq<char> {
    match (searching, mode) {
        (false, SortMode::Newest) =>
            "SELECT id, facture_number, client_name, client_address, client_ice, date, items, type, show_margin, prix_total_hors_frais, total_frais_service_ht, tva, total, notes FROM factures ORDER BY created_at DESC, id DESC LIMIT ?1 OFFSET ?2"@,
        (false, SortMode::Oldest) =>
            "SELECT id, facture_number, client_name, client_address, client_ice, date, items, type, show_margin, prix_total_hors_frais, total_frais_service_ht, tva, total, notes FROM factures ORDER BY created_at ASC, id ASC LIMIT ?1 OFFSET ?2"@,
        (true, SortMode::Newest) =>
            "SELECT id, facture_number, client_name, client_address, client_ice, date, items, type, show_margin, prix_total_hors_frais, total_frais_service_ht, tva, total, notes FROM factures WHERE client_name LIKE ?3 ESCAPE '\\' OR facture_number LIKE ?3 ESCAPE '\\' OR CAST(total AS TEXT) LIKE ?3 ESCAPE '\\' ORDER BY created_at DESC, id DESC LIMIT ?1 OFFSET ?2"@,
        (true, SortMode::Oldest) =>
            "SELECT id, facture_number, client_name, client_address, client_ice, date, items, type, show_margin, prix_total_hors_frais, total_frais_service_ht, tva, total, notes FROM factures WHERE client_name LIKE ?3 ESCAPE '\\' OR facture_number LIKE ?3 ESCAPE '\\' OR CAST(total AS TEXT) LIKE ?3 ESCAPE '\\' ORDER BY created_at ASC, id ASC LIMIT ?1 OFFSET ?2"@,
    }
}

/// The statement that fetches one page. With a search it filters by one
/// pattern parameter; the order follows `mode`, and rows created in the same
/// second follow their ids.
pub fn list_sql(searching: bool, mode: SortMode) -> (r: &'static str)
    ensures
        r@ == spec_list_sql(searching, mode),
{
    match (searching, mode) {
        (false, SortMode::Newest) =>
            "SELECT id, facture_number, client_name, client_address, client_ice, date, items, type, show_margin, prix_total_hors_frais, total_frais_service_ht, tva, total, notes FROM factures ORDER BY created_at DESC, id DESC LIMIT ?1 OFFSET ?2",
        (false, SortMode::Oldest) =>
            "SELECT id, facture_number, client_name, client_address, client_ice, date, items, type, show_margin, prix_total_hors_frais, total_frais_service_ht, tva, total, notes FROM factures ORDER BY created_at ASC, id ASC LIMIT ?1 OFFSET ?2",
        (true, SortMode::Newest) =>
            "SELECT id, facture_number, client_name, client_address, client_ice, date, items, type, show_margin, prix_total_hors_frais, total_frais_service_ht, tva, total, notes FROM factures WHERE client_name LIKE ?3 ESCAPE '\\' OR facture_number LIKE ?3 ESCAPE '\\' OR CAST(total AS TEXT) LIKE ?3 ESCAPE '\\' ORDER BY created_at DESC, id DESC LIMIT ?1 OFFSET ?2",
        (true, SortMode::Oldest) =>
            "SELECT id, facture_number, client_name, client_address, client_ice, date, items, type, show_margin, prix_total_hors_frais, total_frais_service_ht, tva, total, notes FROM factures WHERE client_name LIKE ?3 ESCAPE '\\' OR facture_number LIKE ?3 ESCAPE '\\' OR CAST(total AS TEXT) LIKE ?3 ESCAPE '\\' ORDER BY created_at ASC, id ASC LIMIT ?1 OFFSET ?2",
    }
}

/// The statement that counts the matching rows.
pub open spec fn spec_count_sql(searching: bool) -> Seq<char> {
    if searching {
        "SELECT COUNT(*) FROM factures WHERE client_name LIKE ?1 ESCAPE '\\' OR facture_number LIKE ?1 ESCAPE '\\' OR CAST(total AS TEXT) LIKE ?1 ESCAPE '\\'"@
    } else {
        "SELECT COUNT(*) FROM factures"@
    }
}

/// The statement that counts the rows a listing would show over all its
/// pages.
pub fn count_sql(searching: bool) -> (r: &'static str)
    ensures
        r@ == spec_count_sql(searching),
{
    if searching {
        "SELECT COUNT(*) FROM factures WHERE client_name LIKE ?1 ESCAPE '\\' OR facture_number LIKE ?1 ESCAPE '\\' OR CAST(total AS TEXT) LIKE ?1 ESCAPE '\\'"
    } else {
        "SELECT COUNT(*) FROM factures"
    }
}

/// `params` is what the counting statement takes for `search`: nothing for
/// an empty search, else the one pattern.
pub open spec fn is_count_params(params: Seq<SqlValue>, search: Seq<char>) -> bool {
    if search.len() == 0 {
        params.len() == 0
    } else {
        params.len() == 1 && params[0] is Text && params[0]->Text_0@ == spec_search_pattern(search)
    }
}

/// The values bound to the counting statement.
pub fn count_params(search: &str) -> (r: Vec<SqlValue>)
    ensures
        is_count_params(r@, search@),
{
    let mut params: Vec<SqlValue> = Vec::new();
    if search.unicode_len() != 0 {
        params.push(SqlValue::Text(search_pattern(search)));
    }
    params
}

/// `params` is what the page statement takes: the page size, the offset and,
/// for a non-empty search, the pattern.
pub open spec fn is_list_params(params: Seq<SqlValue>, search: Seq<char>, limit: i64, offset: i64) -> bool {
    &&& params.len() == (if search.len() == 0 { 2int } else { 3int })
    &&& params[0] == SqlValue::Integer(limit)
    &&& params[1] == SqlValue::Integer(offset)
    &&& search.len() != 0 ==> params[2] is Text && params[2]->Text_0@ == spec_search_pattern(search)
}

/// The values bound to the page statement.
pub fn list_params(search: &str, limit: i64, offset: i64) -> (r: Vec<SqlValue>)
    ensures
        is_list_params(r@, search@, limit, offset),
{
    let mut params: Vec<SqlValue> = Vec::new();
    params.push(SqlValue::Integer(limit));
    params.push(SqlValue::Integer(offset));
    if search.unicode_len() != 0 {
        params.push(SqlValue::Text(search_pattern(search)));
    }
    params
}

/// The value bound for an optional text: the text, or NULL.
pub open spec fn optional_text_value(text: Option<String>) -> SqlValue {
    match text {
        Some(t) => SqlValue::Text(t),
        None => SqlValue::Null,
    }
}

/// Binds an optional text.
pub fn bind_optional_text(text: &Option<String>) -> (r: SqlValue)
    ensures
        r == optional_text_value(*text),
{
    match text {
        Some(t) => SqlValue::Text(t.clone()),
        None => SqlValue::Null,
    }
}

/// The twelve values that an invoice's replaceable columns take from `data`,
/// in the order of the columns: client name, address, tax id, date, items,
/// kind, margin flag, the four amounts, notes.
pub open spec fn spec_data_params(data: FactureData, items_json: String) -> Seq<SqlValue> {
    seq![
        SqlValue::Text(data.client_name),
        optional_text_value(data.client_address),
        optional_text_value(data.client_ice),
        SqlValue::Text(data.date),
        SqlValue::Text(items_json),
        SqlValue::Text(data.kind),
        SqlValue::Integer(if data.show_margin { 1i64 } else { 0i64 }),
        SqlValue::Real(Some(data.prix_total_hors_frais)),
        SqlValue::Real(Some(data.total_frais_service_ht)),
        SqlValue::Real(Some(data.tva)),
        SqlValue::Real(Some(data.total)),
        optional_text_value(data.notes),
    ]
}

/// Binds the replaceable columns of an invoice.
pub fn data_params(data: &FactureData, items_json: String) -> (r: Vec<SqlValue>)
    ensures
        r@ == spec_data_params(*data, items_json),
{
    let mut params: Vec<SqlValue> = Vec::new();
    params.push(SqlValue::Text(data.client_name.clone()));
    params.push(bind_optional_text(&data.client_address));
    params.push(bind_optional_text(&data.client_ice));
    params.push(SqlValue::Text(data.date.clone()));
    params.push(SqlValue::Text(items_json));
    params.push(SqlValue::Text(data.kind.clone()));
    params.push(SqlValue::Integer(if data.show_margin { 1 } else { 0 }));
    params.push(SqlValue::Real(Some(data.prix_total_hors_frais.clone())));
    params.push(SqlValue::Real(Some(data.total_frais_service_ht.clone())));
    params.push(SqlValue::Real(Some(data.tva.clone())));
    params.push(SqlValue::Real(Some(data.total.clone())));
    params.push(bind_optional_text(&data.notes));
    assert(params@ =~= spec_data_params(*data, items_json));
    params
}

/// The statement that stores a new invoice: the twelve replaceable columns
/// as `?1` to `?12` and the invoice number as `?13`.
pub fn insert_sql() -> (r: &'static str)
    ensures
        r@ == "INSERT INTO factures (client_name, client_address, client_ice, date, items, type, show_margin, prix_total_hors_frais, total_frais_service_ht, tva, total, notes, facture_number) VALUES (?1, ?2, ?3, ?4, ?5, ?6, ?7, ?8, ?9, ?10, ?11, ?12, ?13)"@,
{
    "INSERT INTO factures (client_name, client_address, client_ice, date, items, type, show_margin, prix_total_hors_frais, total_frais_service_ht, tva, total, notes, facture_number) VALUES (?1, ?2, ?3, ?4, ?5, ?6, ?7, ?8, ?9, ?10, ?11, ?12, ?13)"
}

/// The statement that replaces an invoice's columns: the twelve replaceable
/// columns as `?1` to `?12` and the row id as `?13`. The invoice number is
/// not among them.
pub fn update_sql() -> (r: &'static str)
    ensures
        r@ == "UPDATE factures SET client_name = ?1, client_address = ?2, client_ice = ?3, date = ?4, items = ?5, type = ?6, show_margin = ?7, prix_total_hors_frais = ?8, total_frais_service_ht = ?9, tva = ?10, total = ?11, notes = ?12 WHERE id = ?13"@,
{
    "UPDATE factures SET client_name = ?1, client_address = ?2, client_ice = ?3, date = ?4, items = ?5, type = ?6, show_margin = ?7, prix_total_hors_frais = ?8, total_frais_service_ht = ?9, tva = ?10, total = ?11, notes = ?12 WHERE id = ?13"
}

/// The text of the statements that set the store up.
pub open spec fn spec_schema_sql() -> Seq<char> {
    "PRAGMA journal_mode = WAL;
    PRAGMA foreign_keys = ON;
    CREATE TABLE IF NOT EXISTS factures (
        id INTEGER PRIMARY KEY AUTOINCREMENT,
        facture_number TEXT UNIQUE NOT NULL,
        client_name TEXT NOT NULL,
        client_address TEXT,
        client_ice TEXT,
        date TEXT NOT NULL,
        items TEXT NOT NULL,
        type TEXT NOT NULL CHECK(type IN ('facture', 'devis')),
        show_margin BOOLEAN NOT NULL DEFAULT TRUE,
        prix_total_hors_frais REAL NOT NULL,
        total_frais_service_ht REAL NOT NULL,
        tva REAL NOT NULL,
        total REAL NOT NULL,
        notes TEXT,
        created_at TIMESTAMP DEFAULT CURRENT_TIMESTAMP
    );
    CREATE TABLE IF NOT EXISTS settings (
        key TEXT PRIMARY KEY,
        value TEXT
    );
    CREATE TABLE IF NOT EXISTS theme (
        id INTEGER PRIMARY KEY DEFAULT 1,
        styles TEXT
    );"@
}

/// The statements that set the store up: write-ahead logging, foreign keys,
/// and the three tables where they are absent.
pub fn schema_sql() -> (r: &'static str)
    ensures
        r@ == spec_schema_sql(),
{
    "PRAGMA journal_mode = WAL;
    PRAGMA foreign_keys = ON;
    CREATE TABLE IF NOT EXISTS factures (
        id INTEGER PRIMARY KEY AUTOINCREMENT,
        facture_number TEXT UNIQUE NOT NULL,
        client_name TEXT NOT NULL,
        client_address TEXT,
        client_ice TEXT,
        date TEXT NOT NULL,
        items TEXT NOT NULL,
        type TEXT NOT NULL CHECK(type IN ('facture', 'devis')),
        show_margin BOOLEAN NOT NULL DEFAULT TRUE,
        prix_total_hors_frais REAL NOT NULL,
        total_frais_service_ht REAL NOT NULL,
        tva REAL NOT NULL,
        total REAL NOT NULL,
        notes TEXT,
        created_at TIMESTAMP DEFAULT CURRENT_TIMESTAMP
    );
    CREATE TABLE IF NOT EXISTS settings (
        key TEXT PRIMARY KEY,
        value TEXT
    );
    CREATE TABLE IF NOT EXISTS theme (
        id INTEGER PRIMARY KEY DEFAULT 1,
        styles TEXT
    );"
}

/// The statement that removes the invoice whose row id is `?1`.
pub fn delete_sql() -> (r: &'static str)
    ensures
        r@ == "DELETE FROM factures WHERE id = ?1"@,
{
    "DELETE FROM factures WHERE id = ?1"
}

/// The query for the stored number of the invoice whose row id is `?1`.
pub fn number_sql() -> (r: &'static str)
    ensures
        r@ == "SELECT facture_number FROM factures WHERE id = ?1"@,
{
    "SELECT facture_number FROM factures WHERE id = ?1"
}

/// The query for the highest row id that the store ever gave to an invoice,
/// 0 where it gave none.
pub fn highest_id_sql() -> (r: &'static str)
    ensures
        r@ == "SELECT COALESCE((SELECT seq FROM sqlite_sequence WHERE name = 'factures'), 0)"@,
{
    "SELECT COALESCE((SELECT seq FROM sqlite_sequence WHERE name = 'factures'), 0)"
}

/// The query that counts the invoices that carry the number `?1`.
pub fn number_count_sql() -> (r: &'static str)
    ensures
        r@ == "SELECT COUNT(*) FROM factures WHERE facture_number = ?1"@,
{
    "SELECT COUNT(*) FROM factures WHERE facture_number = ?1"
}

/// The query for every setting, key and value.
pub fn settings_sql() -> (r: &'static str)
    ensures
        r@ == "SELECT key, value FROM settings"@,
{
    "SELECT key, value FROM settings"
}

/// The statement that sets key `?1` to value `?2`, whether or not the key is
/// there already.
pub fn setting_upsert_sql() -> (r: &'static str)
    ensures
        r@ == "INSERT OR REPLACE INTO settings (key, value) VALUES (?1, ?2)"@,
{
    "INSERT OR REPLACE INTO settings (key, value) VALUES (?1, ?2)"
}

/// The statement that opens a transaction and takes the write lock at once.
pub fn begin_sql() -> (r: &'static str)
    ensures
        r@ == "BEGIN IMMEDIATE"@,
{
    "BEGIN IMMEDIATE"
}

/// The statement that makes the open transaction last.
pub fn commit_sql() -> (r: &'static str)
    ensures
        r@ == "COMMIT"@,
{
    "COMMIT"
}

/// The statement that undoes the open transaction.
pub fn rollback_sql() -> (r: &'static str)
    ensures
        r@ == "ROLLBACK"@,
{
    "ROLLBACK"
}

/// The query for the stored theme text: the one row with id 1.
pub fn theme_sql() -> (r: &'static str)
    ensures
        r@ == "SELECT styles FROM theme WHERE id = 1"@,
{
    "SELECT styles FROM theme WHERE id = 1"
}

/// The statement that stores `?1` as the theme text of the one row, id 1,
/// in place of what it held.
pub fn theme_upsert_sql() -> (r: &'static str)
    ensures
        r@ == "INSERT OR REPLACE INTO theme (id, styles) VALUES (1, ?1)"@,
{
    "INSERT OR REPLACE INTO theme (id, styles) VALUES (1, ?1)"
}

/// The one value bound to a statement that names a row by its id.
pub fn id_params(id: i64) -> (r: Vec<SqlValue>)
    ensures
        r@ == seq![SqlValue::Integer(id)],
{
    let mut params: Vec<SqlValue> = Vec::new();
    params.push(SqlValue::Integer(id));
    assert(params@ =~= seq![SqlValue::Integer(id)]);
    params
}

/// The one value bound to a statement that takes a text.
pub fn text_params(text: String) -> (r: Vec<SqlValue>)
    ensures
        r@ == seq![SqlValue::Text(text)],
{
    let mut params: Vec<SqlValue> = Vec::new();
    params.push(SqlValue::Text(text));
    assert(params@ =~= seq![SqlValue::Text(text)]);
    params
}

/// The two values bound to the statement that sets one setting: the key,
/// then the value.
pub fn setting_params(key: &String, value: &String) -> (r: Vec<SqlValue>)
    ensures
        r@ == seq![SqlValue::Text(*key), SqlValue::Text(*value)],
{
    let mut params: Vec<SqlValue> = Vec::new();
    params.push(SqlValue::Text(key.clone()));
    params.push(SqlValue::Text(value.clone()));
    assert(params@ =~= seq![SqlValue::Text(*key), SqlValue::Text(*value)]);
    params
}

/// The values bound to the statement that stores a new invoice: the twelve
/// replaceable columns, then the invoice number.
pub fn insert_params(data: &FactureData, items_json: String, number: &String) -> (r: Vec<SqlValue>)
    ensures
        r@ == spec_data_params(*data, items_json).push(SqlValue::Text(*number)),
{
    let mut params = data_params(data, items_json);
    params.push(SqlValue::Text(number.clone()));
    params
}

/// The values bound to the statement that replaces an invoice's columns: the
/// twelve replaceable columns, then the row id.
pub fn update_params(data: &FactureData, items_json: String, id: i64) -> (r: Vec<SqlValue>)
    ensures
        r@ == spec_data_params(*data, items_json).push(SqlValue::Integer(id)),
{
    let mut params = data_params(data, items_json);
    params.push(SqlValue::Integer(id));
    params
}

} // verus!
