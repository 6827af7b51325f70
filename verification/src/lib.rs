//! Compile-time description of SQL queries: parsing of the macro input,
//! selection of a data source and backend, adaptation of a backend's
//! description into a portable query descriptor, and the offline cache.

pub mod cache;
pub mod describe;
pub mod dispatch;
pub mod error;
pub mod input;
pub mod json;
pub mod laws;
pub mod mysql;
pub mod select;
pub mod source;
pub mod text;
pub mod token;
