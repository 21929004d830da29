use facturation::commands::{
    create_facture, delete_facture, get_factures, init_db, update_facture, AppState,
};
use facturation::error::StoreError;
use facturation::models::{FactureData, FactureItem};

fn amount(x: f64) -> serde_json::Number {
    serde_json::Number::from_f64(x).unwrap()
}

fn open_store() -> AppState {
    let conn = rusqlite::Connection::open_in_memory().unwrap();
    init_db(&conn).unwrap();
    AppState { db: Some(conn) }
}

fn item(description: &str, quantity: f64, price: f64) -> FactureItem {
    FactureItem {
        description: description.to_string(),
        quantity: amount(quantity),
        prix_unitaire: amount(price),
        frais_service_unitaire: amount(0.5),
        total: amount(quantity * (price + 0.5)),
    }
}

fn data(number: Option<&str>, client: &str, total: f64) -> FactureData {
    FactureData {
        facture_number: number.map(|n| n.to_string()),
        client_name: client.to_string(),
        client_address: Some("12 rue des Lilas".to_string()),
        client_ice: None,
        date: "2024-03-01".to_string(),
        items: vec![item("Conseil", 2.0, 100.0)],
        kind: "facture".to_string(),
        show_margin: true,
        prix_total_hors_frais: amount(200.0),
        total_frais_service_ht: amount(1.0),
        tva: amount(40.2),
        total: amount(total),
        notes: None,
    }
}

fn same_item(a: &FactureItem, b: &FactureItem) -> bool {
    a.description == b.description
        && a.quantity.as_f64() == b.quantity.as_f64()
        && a.prix_unitaire.as_f64() == b.prix_unitaire.as_f64()
        && a.frais_service_unitaire.as_f64() == b.frais_service_unitaire.as_f64()
        && a.total.as_f64() == b.total.as_f64()
}

#[test]
fn created_ids_are_unique_and_increasing() {
    let state = open_store();
    let mut last = 0;
    for i in 0..20 {
        let number = format!("N-{}", i);
        let f = create_facture(&state, data(Some(&number), "Client", 10.0)).unwrap();
        let id = f.id.unwrap();
        assert!(id > last);
        last = id;
    }
}

#[test]
fn ids_are_not_reused_after_delete() {
    let state = open_store();
    let a = create_facture(&state, data(Some("A"), "Client", 10.0)).unwrap();
    delete_facture(&state, a.id.unwrap()).unwrap();
    let b = create_facture(&state, data(Some("B"), "Client", 10.0)).unwrap();
    assert!(b.id.unwrap() > a.id.unwrap());
}

#[test]
fn create_returns_the_stored_record() {
    let state = open_store();
    let f = create_facture(&state, data(Some("F-2024-001"), "Atelier Nord", 241.2)).unwrap();
    assert_eq!(f.id, Some(1));
    assert_eq!(f.facture_number, "F-2024-001");
    assert_eq!(f.client_name, "Atelier Nord");
    assert_eq!(f.client_address, Some("12 rue des Lilas".to_string()));
    assert_eq!(f.client_ice, None);
    assert_eq!(f.kind, "facture");
    assert_eq!(f.total.as_f64(), Some(241.2));
    assert_eq!(f.items.len(), 1);
}

#[test]
fn set_up_creates_the_three_tables() {
    let conn = rusqlite::Connection::open_in_memory().unwrap();
    let before: i64 = conn
        .query_row("SELECT COUNT(*) FROM sqlite_master WHERE type = 'table'", [], |r| r.get(0))
        .unwrap();
    assert_eq!(before, 0);
    init_db(&conn).unwrap();
    for table in ["factures", "settings", "theme"] {
        let found: i64 = conn
            .query_row(
                "SELECT COUNT(*) FROM sqlite_master WHERE type = 'table' AND name = ?1",
                [table],
                |r| r.get(0),
            )
            .unwrap();
        assert_eq!(found, 1);
    }
}

#[test]
fn duplicate_explicit_number_is_refused() {
    let state = open_store();
    create_facture(&state, data(Some("F-1"), "Premier", 10.0)).unwrap();
    let second = create_facture(&state, data(Some("F-1"), "Second", 20.0));
    assert!(matches!(second, Err(StoreError::DuplicateNumber)));
    let page = get_factures(&state, 1, 10, "", "newest").unwrap();
    assert_eq!(page.pagination.total_count, 1);
    assert_eq!(page.data[0].client_name, "Premier");
}

#[test]
fn assigned_numbers_never_collide() {
    let state = open_store();
    create_facture(&state, data(Some("FN-1"), "Taken", 10.0)).unwrap();
    create_facture(&state, data(Some("FN-3"), "Taken", 10.0)).unwrap();
    let mut seen = vec!["FN-1".to_string(), "FN-3".to_string()];
    for _ in 0..5 {
        let f = create_facture(&state, data(None, "Auto", 10.0)).unwrap();
        assert!(f.facture_number.starts_with("FN-"));
        assert!(!seen.contains(&f.facture_number));
        seen.push(f.facture_number);
    }
    let page = get_factures(&state, 1, 50, "", "oldest").unwrap();
    assert_eq!(page.pagination.total_count, 7);
}

#[test]
fn assigned_numbers_follow_the_ids_and_are_not_reused() {
    let state = open_store();
    let a = create_facture(&state, data(None, "Auto", 10.0)).unwrap();
    let b = create_facture(&state, data(None, "Auto", 10.0)).unwrap();
    assert_eq!(a.facture_number, "FN-1");
    assert_eq!(b.facture_number, "FN-2");
    delete_facture(&state, b.id.unwrap()).unwrap();
    let c = create_facture(&state, data(None, "Auto", 10.0)).unwrap();
    assert_eq!(c.id, Some(3));
    assert_eq!(c.facture_number, "FN-3");
}

#[test]
fn first_assigned_number_on_an_empty_store() {
    let state = open_store();
    let f = create_facture(&state, data(None, "Auto", 10.0)).unwrap();
    assert_eq!(f.facture_number, "FN-1");
}

#[test]
fn unknown_kind_is_a_storage_failure() {
    let state = open_store();
    let mut d = data(Some("K-1"), "Client", 10.0);
    d.kind = "avoir".to_string();
    let r = create_facture(&state, d);
    assert!(matches!(r, Err(StoreError::Sqlite(_))));
}

#[test]
fn second_page_of_twenty_five_rows() {
    let state = open_store();
    for i in 1..=25 {
        let number = format!("N-{:02}", i);
        create_facture(&state, data(Some(&number), "Client", 10.0)).unwrap();
    }
    let page = get_factures(&state, 2, 10, "", "oldest").unwrap();
    assert_eq!(page.pagination.current_page, 2);
    assert_eq!(page.pagination.total_count, 25);
    assert_eq!(page.pagination.total_pages, 3);
    let ids: Vec<i64> = page.data.iter().map(|f| f.id.unwrap()).collect();
    assert_eq!(ids, (11..=20).collect::<Vec<i64>>());
    let newest = get_factures(&state, 2, 10, "", "newest").unwrap();
    let ids: Vec<i64> = newest.data.iter().map(|f| f.id.unwrap()).collect();
    assert_eq!(ids, (6..=15).rev().collect::<Vec<i64>>());
    let unknown = get_factures(&state, 1, 3, "", "by-client").unwrap();
    let ids: Vec<i64> = unknown.data.iter().map(|f| f.id.unwrap()).collect();
    assert_eq!(ids, vec![25, 24, 23]);
}

#[test]
fn last_page_is_short_and_pages_beyond_are_empty() {
    let state = open_store();
    for i in 1..=25 {
        let number = format!("N-{:02}", i);
        create_facture(&state, data(Some(&number), "Client", 10.0)).unwrap();
    }
    let last = get_factures(&state, 3, 10, "", "oldest").unwrap();
    assert_eq!(last.data.len(), 5);
    let beyond = get_factures(&state, 4, 10, "", "oldest").unwrap();
    assert_eq!(beyond.data.len(), 0);
    assert_eq!(beyond.pagination.current_page, 4);
    assert_eq!(beyond.pagination.total_count, 25);
    assert_eq!(beyond.pagination.total_pages, 3);
}

#[test]
fn zero_limit_gives_zero_pages() {
    let state = open_store();
    create_facture(&state, data(Some("Z-1"), "Client", 10.0)).unwrap();
    let page = get_factures(&state, 1, 0, "", "newest").unwrap();
    assert_eq!(page.pagination.total_pages, 0);
    assert_eq!(page.pagination.total_count, 1);
    assert_eq!(page.data.len(), 0);
}

#[test]
fn delete_of_a_missing_id_succeeds() {
    let state = open_store();
    let f = create_facture(&state, data(Some("D-1"), "Client", 10.0)).unwrap();
    assert!(delete_facture(&state, 999).is_ok());
    let page = get_factures(&state, 1, 10, "", "newest").unwrap();
    assert_eq!(page.data.len(), 1);
    assert!(page.data.iter().all(|x| x.id != Some(999)));
    assert!(delete_facture(&state, f.id.unwrap()).is_ok());
    assert!(delete_facture(&state, f.id.unwrap()).is_ok());
    let page = get_factures(&state, 1, 10, "", "newest").unwrap();
    assert_eq!(page.pagination.total_count, 0);
    assert_eq!(page.pagination.total_pages, 0);
}

#[test]
fn update_of_a_missing_id_is_not_found() {
    let state = open_store();
    let r = update_facture(&state, 42, data(None, "Nobody", 1.0));
    assert!(matches!(r, Err(StoreError::NotFound)));
    let page = get_factures(&state, 1, 10, "", "newest").unwrap();
    assert_eq!(page.pagination.total_count, 0);
}

#[test]
fn update_replaces_the_fields_and_keeps_the_number() {
    let state = open_store();
    let f = create_facture(&state, data(Some("U-1"), "Avant", 10.0)).unwrap();
    let id = f.id.unwrap();
    let mut d = data(Some("U-2"), "Apres", 99.5);
    d.kind = "devis".to_string();
    d.show_margin = false;
    d.notes = Some("revu".to_string());
    d.items = vec![];
    let updated = update_facture(&state, id, d).unwrap();
    assert_eq!(updated.id, Some(id));
    assert_eq!(updated.facture_number, "U-1");
    assert_eq!(updated.client_name, "Apres");
    let page = get_factures(&state, 1, 10, "", "newest").unwrap();
    assert_eq!(page.data.len(), 1);
    let stored = &page.data[0];
    assert_eq!(stored.facture_number, "U-1");
    assert_eq!(stored.client_name, "Apres");
    assert_eq!(stored.kind, "devis");
    assert!(!stored.show_margin);
    assert_eq!(stored.notes, Some("revu".to_string()));
    assert_eq!(stored.total.as_f64(), Some(99.5));
    assert_eq!(stored.items.len(), 0);
}

#[test]
fn three_items_round_trip_in_order() {
    let state = open_store();
    let mut d = data(Some("R-1"), "Client", 10.0);
    d.items = vec![
        item("Pose \"carrelage\"", 3.0, 45.25),
        item("Déplacement", 1.0, 30.0),
        item("", 0.0, 0.125),
    ];
    let expected = d.items.clone();
    create_facture(&state, d).unwrap();
    let page = get_factures(&state, 1, 10, "", "newest").unwrap();
    let got = &page.data[0].items;
    assert_eq!(got.len(), 3);
    for i in 0..3 {
        assert!(same_item(&got[i], &expected[i]));
    }
    assert_eq!(got[0].description, "Pose \"carrelage\"");
    assert_eq!(got[0].total.as_f64(), Some(3.0 * 45.75));
}

#[test]
fn listed_record_matches_what_was_created() {
    let state = open_store();
    let mut d = data(Some("L-1"), "Client", 1234.56);
    d.client_ice = Some("001234567000089".to_string());
    d.notes = Some("merci".to_string());
    create_facture(&state, d).unwrap();
    let page = get_factures(&state, 1, 10, "", "newest").unwrap();
    let f = &page.data[0];
    assert_eq!(f.id, Some(1));
    assert_eq!(f.facture_number, "L-1");
    assert_eq!(f.client_address, Some("12 rue des Lilas".to_string()));
    assert_eq!(f.client_ice, Some("001234567000089".to_string()));
    assert_eq!(f.date, "2024-03-01");
    assert_eq!(f.kind, "facture");
    assert!(f.show_margin);
    assert_eq!(f.prix_total_hors_frais.as_f64(), Some(200.0));
    assert_eq!(f.total_frais_service_ht.as_f64(), Some(1.0));
    assert_eq!(f.tva.as_f64(), Some(40.2));
    assert_eq!(f.total.as_f64(), Some(1234.56));
    assert_eq!(f.notes, Some("merci".to_string()));
}

#[test]
fn malformed_item_column_reads_as_no_items() {
    let state = open_store();
    create_facture(&state, data(Some("M-1"), "Client", 10.0)).unwrap();
    create_facture(&state, data(Some("M-2"), "Client", 10.0)).unwrap();
    create_facture(&state, data(Some("M-3"), "Client", 10.0)).unwrap();
    let conn = state.db.as_ref().unwrap();
    conn.execute("UPDATE factures SET items = 'not json' WHERE id = 1", []).unwrap();
    conn.execute("UPDATE factures SET items = '[{\"description\":\"x\"}]' WHERE id = 2", [])
        .unwrap();
    let page = get_factures(&state, 1, 10, "", "oldest").unwrap();
    assert_eq!(page.data.len(), 3);
    assert_eq!(page.data[0].items.len(), 0);
    assert_eq!(page.data[1].items.len(), 0);
    assert_eq!(page.data[2].items.len(), 1);
}

#[test]
fn search_matches_the_client_name_only_where_present() {
    let state = open_store();
    create_facture(&state, data(Some("S-1"), "Boulangerie Martin", 10.0)).unwrap();
    create_facture(&state, data(Some("S-2"), "Garage Dupont", 20.0)).unwrap();
    create_facture(&state, data(Some("S-3"), "Martinez SARL", 30.0)).unwrap();
    let page = get_factures(&state, 1, 10, "Martin", "oldest").unwrap();
    let numbers: Vec<&str> = page.data.iter().map(|f| f.facture_number.as_str()).collect();
    assert_eq!(numbers, vec!["S-1", "S-3"]);
    assert_eq!(page.pagination.total_count, 2);
    assert_eq!(page.pagination.total_pages, 1);
    let none = get_factures(&state, 1, 10, "zzz-absent", "oldest").unwrap();
    assert_eq!(none.data.len(), 0);
    assert_eq!(none.pagination.total_count, 0);
    assert_eq!(none.pagination.total_pages, 0);
}

#[test]
fn search_matches_number_and_total() {
    let state = open_store();
    create_facture(&state, data(Some("ALPHA-1"), "Un", 10.0)).unwrap();
    create_facture(&state, data(Some("BETA-2"), "Deux", 777.25)).unwrap();
    let by_number = get_factures(&state, 1, 10, "BETA", "oldest").unwrap();
    assert_eq!(by_number.data.len(), 1);
    assert_eq!(by_number.data[0].client_name, "Deux");
    let by_total = get_factures(&state, 1, 10, "777.2", "oldest").unwrap();
    assert_eq!(by_total.data.len(), 1);
    assert_eq!(by_total.data[0].facture_number, "BETA-2");
}

#[test]
fn wildcards_in_a_search_are_taken_literally() {
    let state = open_store();
    create_facture(&state, data(Some("W-1"), "100% Bio", 10.0)).unwrap();
    create_facture(&state, data(Some("W-2"), "1000 Fleurs", 20.0)).unwrap();
    create_facture(&state, data(Some("W-3"), "abc", 30.0)).unwrap();
    create_facture(&state, data(Some("W-4"), "a_c", 30.0)).unwrap();
    create_facture(&state, data(Some("W-5"), "dos\\rep", 30.0)).unwrap();
    let percent = get_factures(&state, 1, 10, "100%", "oldest").unwrap();
    let numbers: Vec<&str> = percent.data.iter().map(|f| f.facture_number.as_str()).collect();
    assert_eq!(numbers, vec!["W-1"]);
    let underscore = get_factures(&state, 1, 10, "a_c", "oldest").unwrap();
    let numbers: Vec<&str> = underscore.data.iter().map(|f| f.facture_number.as_str()).collect();
    assert_eq!(numbers, vec!["W-4"]);
    assert_eq!(underscore.pagination.total_count, 1);
    let backslash = get_factures(&state, 1, 10, "s\\r", "oldest").unwrap();
    assert_eq!(backslash.data.len(), 1);
    assert_eq!(backslash.data[0].facture_number, "W-5");
}

#[test]
fn search_text_is_bound_and_never_run() {
    let state = open_store();
    create_facture(&state, data(Some("Q-1"), "O'Brien", 10.0)).unwrap();
    let quoted = get_factures(&state, 1, 10, "O'Br", "oldest").unwrap();
    assert_eq!(quoted.data.len(), 1);
    let attack = get_factures(&state, 1, 10, "x'; DROP TABLE factures; --", "oldest").unwrap();
    assert_eq!(attack.data.len(), 0);
    let all = get_factures(&state, 1, 10, "", "oldest").unwrap();
    assert_eq!(all.pagination.total_count, 1);
}

#[test]
fn operations_without_a_connection_are_refused() {
    let state = AppState { db: None };
    assert!(matches!(get_factures(&state, 1, 10, "", "newest"), Err(StoreError::DbConnection)));
    assert!(matches!(
        create_facture(&state, data(None, "Client", 1.0)),
        Err(StoreError::DbConnection)
    ));
    assert!(matches!(
        update_facture(&state, 1, data(None, "Client", 1.0)),
        Err(StoreError::DbConnection)
    ));
    assert!(matches!(delete_facture(&state, 1), Err(StoreError::DbConnection)));
}

#[test]
fn schema_setup_is_idempotent() {
    let state = open_store();
    create_facture(&state, data(Some("P-1"), "Client", 10.0)).unwrap();
    init_db(state.db.as_ref().unwrap()).unwrap();
    init_db(state.db.as_ref().unwrap()).unwrap();
    let page = get_factures(&state, 1, 10, "", "newest").unwrap();
    assert_eq!(page.pagination.total_count, 1);
    let foreign_keys: i64 = state
        .db
        .as_ref()
        .unwrap()
        .query_row("PRAGMA foreign_keys", [], |row| row.get(0))
        .unwrap();
    assert_eq!(foreign_keys, 1);
}
