//! Data model and output logic of a command-line client for Apple CMS
//! video APIs: the response records, the checks made on a response, the
//! choice of what to print for an action, the tab-separated and JSON
//! renderings, and the request URL.

pub mod handler;
pub mod laws;
pub mod models;
pub mod query;
pub mod text;
