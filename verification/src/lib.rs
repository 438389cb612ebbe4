//! A typed request and response core for a document search service.
//!
//! Requests are described as plain values, resolved against shared connection
//! parameters, and handed to a transport. Responses come back as a status and
//! a buffered body, and are classified into a typed value, an error reported
//! by the service, or a client error.
pub mod client;
pub mod error;
pub mod json;
pub mod params;
pub mod parse;
pub mod request;
pub mod response;
pub mod responses;
pub mod status;
pub mod text;
