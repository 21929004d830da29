//! Persistence and query layer of a local invoicing manager: invoices and
//! quotes in one table, a key-value settings table and a single theme value,
//! all kept in an embedded SQLite store.

pub mod commands;
pub mod error;
pub mod items;
pub mod models;
pub mod numbering;
pub mod paging;
pub mod query;
pub mod rows;
pub mod store;
