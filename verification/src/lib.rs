//! Verified core of a small person registry web service: configuration
//! endpoints, payload validation, request flows, and bulk-load encoding.

pub mod text;
pub mod config;
pub mod controller;
pub mod data_access;
pub mod dates;
pub mod ids;
pub mod queue;
