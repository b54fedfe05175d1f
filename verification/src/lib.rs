//! Query and mutation core for a graph-backed inventory service.
//!
//! The crate compiles client-supplied filter, sort and page requests into
//! parameterized graph queries, and applies batches of quantity adjustments
//! to an inventory's holdings with all-or-nothing semantics.  Everything
//! that computes or decides lives here with a verified contract; the
//! surrounding transport and the asynchronous store driver live outside.

pub mod coins;
pub mod errors;
pub mod filter;
pub mod inventories;
pub mod inventory_items;
pub mod item_write;
pub mod items;
pub mod ledger;
pub mod pagination;
pub mod query_plan;
pub mod sale;
pub mod store;
pub mod text;
