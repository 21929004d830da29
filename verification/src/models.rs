//! The records that the operations take and return.

use vstd::prelude::*;

verus! {

/// One line of an invoice. The four amounts are carried as JSON numbers.
#[derive(Debug, Clone)]
pub struct FactureItem {
    pub description: String,
    pub quantity: serde_json::Number,
    pub prix_unitaire: serde_json::Number,
    pub frais_service_unitaire: serde_json::Number,
    pub total: serde_json::Number,
}

/// An invoice or a quote as the store holds it.
#[derive(Debug, Clone)]
pub struct Facture {
    /// The row id; always present on a record that comes from the store.
    pub id: Option<i64>,
    pub facture_number: String,
    pub client_name: String,
    pub client_address: Option<String>,
    pub client_ice: Option<String>,
    pub date: String,
    pub items: Vec<FactureItem>,
    /// The document kind: `facture` or `devis`.
    pub kind: String,
    pub show_margin: bool,
    pub prix_total_hors_frais: serde_json::Number,
    pub total_frais_service_ht: serde_json::Number,
    pub tva: serde_json::Number,
    pub total: serde_json::Number,
    pub notes: Option<String>,
}

/// What a caller supplies to create or replace an invoice.
#[derive(Debug, Clone)]
pub struct FactureData {
    /// The number to give a new invoice; the store assigns one where it is
    /// absent. An update never changes the stored number.
    pub facture_number: Option<String>,
    pub client_name: String,
    pub client_address: Option<String>,
    pub client_ice: Option<String>,
    pub date: String,
    pub items: Vec<FactureItem>,
    pub kind: String,
    pub show_margin: bool,
    pub prix_total_hors_frais: serde_json::Number,
    pub total_frais_service_ht: serde_json::Number,
    pub tva: serde_json::Number,
    pub total: serde_json::Number,
    pub notes: Option<String>,
}

impl FactureData {
    /// The record that stands for this data once it is stored under `id` and
    /// `number`.
    pub open spec fn stored_as(self, id: i64, number: String) -> Facture {
        Facture {
            id: Some(id),
            facture_number: number,
            client_name: self.client_name,
            client_address: self.client_address,
            client_ice: self.client_ice,
            date: self.date,
            items: self.items,
            kind: self.kind,
            show_margin: self.show_margin,
            prix_total_hors_frais: self.prix_total_hors_frais,
            total_frais_service_ht: self.total_frais_service_ht,
            tva: self.tva,
            total: self.total,
            notes: self.notes,
        }
    }

    /// Turns the data into the record stored under `id` and `number`.
    pub fn into_facture(self, id: i64, number: String) -> (r: Facture)
        ensures
            r == self.stored_as(id, number),
    {
        Facture {
            id: Some(id),
            facture_number: number,
            client_name: self.client_name,
            client_address: self.client_address,
            client_ice: self.client_ice,
            date: self.date,
            items: self.items,
            kind: self.kind,
            show_margin: self.show_margin,
            prix_total_hors_frais: self.prix_total_hors_frais,
            total_frais_service_ht: self.total_frais_service_ht,
            tva: self.tva,
            total: self.total,
            notes: self.notes,
        }
    }
}

/// Where a page stands among all matching rows.
#[derive(Debug, Clone, Copy, PartialEq, Eq, Structural)]
pub struct Pagination {
    pub current_page: i64,
    pub total_pages: i64,
    pub total_count: i64,
}

/// One page of invoices with its place among all matching rows.
#[derive(Debug, Clone)]
pub struct PaginatedResponse {
    pub data: Vec<Facture>,
    pub pagination: Pagination,
}

/// The style value of the user interface.
#[derive(Debug)]
pub struct Theme {
    pub styles: serde_json::Value,
}

} // verus!
