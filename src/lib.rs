//! Daily song recommendations: genre preferences, the session token store,
//! and the per-genre recommendation workflow that turns provider candidates
//! into persisted song records.
pub mod genre;
pub mod song;
pub mod token;
pub mod catalog;
pub mod metadata;
pub mod batch;
pub mod playlist;
pub mod api;
