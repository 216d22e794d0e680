//! Verified core of an Exact Online bridge: the request paths and paging of
//! the Exact API, the conversion of Exact records into the wire model, the
//! error-to-status rules of the web service and the client library's
//! decoding of that wire model.

pub mod text;
pub mod client;
pub mod http;
pub mod proto;
pub mod requests;
pub mod server;
