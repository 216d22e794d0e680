//! The web service that lists Exact accounts and contacts: configuration,
//! conversion of Exact records to the wire model, error answers and the
//! decisions of its routes.

pub mod config;
pub mod conversion;
pub mod error;
pub mod routes;
