//! A message-queue RPC responder for a country resource table.
//!
//! The library decodes request envelopes, dispatches them by command name to
//! CRUD handlers over an in-memory resource table, and produces a correlated
//! reply for a caller-named destination. The broker connection itself lives
//! outside the library; the decisions taken for each delivery live here.

pub mod json;
pub mod laws;
pub mod models;
pub mod payload;
pub mod render;
pub mod rpc;
pub mod service;
pub mod store;
pub mod text;
