//! A single-entity to-do list core: an in-memory task relation with four
//! operations (list-all, insert, toggle-by-id, delete-by-id) and the
//! request orchestration that validates input, applies one operation, and
//! produces a success or failure outcome for the caller to render.

pub mod laws;
pub mod routes;
pub mod store;
pub mod task;
