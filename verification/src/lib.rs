//! A small notes service core: the note record, the request and response
//! shapes, the data-access layer over a collection with a unique title, the
//! error taxonomy, and the mapping of outcomes to HTTP replies.

pub mod db;
pub mod error;
pub mod flow;
pub mod handler;
pub mod laws;
pub mod model;
pub mod oid;
pub mod response;
pub mod schema;
pub mod text;
