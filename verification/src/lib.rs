//! Core logic of a terminal client for the Everything file-indexing service.
//!
//! The library holds the pieces of the client that are pure state and
//! decision logic, each with a verified contract:
//!
//! - the data model of a search: [`query::Query`], [`entry::QueryEntry`] and
//!   [`results::QueryResults`];
//! - the dispatcher that serializes query requests towards the indexing
//!   service and hands batches back in submission order ([`dispatch`]);
//! - the selection and pagination state machine of the result list
//!   ([`ui::UI`]).
//!
//! Terminal I/O, key decoding, screen painting and the IPC calls into the
//! indexing service itself live outside the library; they hand plain values
//! in and take plain values back.

pub mod dispatch;
pub mod entry;
pub mod query;
pub mod results;
pub mod status;
pub mod ui;
