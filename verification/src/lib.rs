//! A verified paginated-query core for browsing columnar data files.
//!
//! The crate plans the three SQL statements of one page fetch (page data,
//! schema sample, row count), renders every engine-native cell value as a
//! stable display string, and assembles one page of results. Opening the
//! engine session and driving its cursors is the caller's part; every
//! decision and every formatting rule lives here, with a contract.

pub mod fetch;
pub mod format;
pub mod laws;
pub mod model;
pub mod numtext;
pub mod page;
pub mod query;
pub mod temporal;
pub mod textutil;
