//! A small bank-account service: account records, the decoding of a creation
//! request, and the decisions that a request handler takes between its calls to
//! the database.
pub mod models;
pub mod handler;
pub mod laws;
