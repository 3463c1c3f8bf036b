//! Verified core of a receipt repository: the single-writer mutation pipeline.
//!
//! A receipt is an aggregate of a currency, a store and a list of inventory
//! lines. Every state-changing operation is a workflow that talks to a storage
//! gateway one request at a time; the decisions of each workflow are pure
//! functions from the workflow's state and the gateway's last reply to the
//! next state and the next request. [`memory_store::MemoryStore`] is a
//! reference gateway, and the laws in [`laws`] are stated over its model.

pub mod commands;
pub mod configuration;
pub mod converters;
pub mod create_receipt;
pub mod database;
pub mod delete_receipt;
pub mod decimal;
pub mod entities;
pub mod errors;
pub mod filters;
pub mod gateway;
pub mod laws;
pub mod memory_store;
pub mod pagination;
pub mod patch;
pub mod payloads;
pub mod responses;
pub mod tables;
pub mod temporal;
pub mod text;
pub mod validators;
