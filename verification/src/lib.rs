//! Typed request/response pipeline for an upstream movie-metadata API:
//! query-parameter builders, response models with a path-tracking JSON
//! decoder, and deterministic mapping into frontend DTOs.

pub mod strings;
pub mod json;
pub mod date;
pub mod decode;
pub mod models_common;
pub mod models_movie;
pub mod models_person;
pub mod frontend;
pub mod params;
pub mod queries;
pub mod error;
pub mod client;
pub mod requests;
pub mod laws;
