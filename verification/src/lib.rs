//! Locate the best-matching cover artwork for local audio tracks.
//!
//! The heart of the crate is the candidate disambiguation algorithm: given
//! the (title, artists, album) triple read from a local file and a noisy
//! list of catalog search results, rank the candidates by a string-distance
//! score and pick a single winner, with an exact-album-match tie-break.
//! Around it stand the string distance measures the score is built from,
//! the query builders for the catalog endpoints, and the decision rules of
//! the file-walk orchestrator (idempotent skips, per-entry failure
//! isolation). All I/O — tag reading, HTTP, directory walking, file
//! writing — lives outside this crate and hands in plain values.

pub mod distance;
pub mod model;
pub mod score;
pub mod pipeline;
pub mod select;
pub mod tags;
pub mod walk;
