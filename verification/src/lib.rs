//! Remote-image fetch-and-cache subsystem with per-user quota enforcement.
//!
//! The library is organised leaf-first:
//!
//! - [`clock`] — the one trusted boundary to the system clock.
//! - [`quota`] — per-user usage counters with a rolling reset window.
//! - [`cache`] — a key→bytes store keyed by URL string.
//! - [`fetch`] — validation of a fetched HTTP response.
//! - [`manager`] — the orchestrator tying the above together.
//! - [`errors`] — the service-level error taxonomy of the surrounding backend.
//! - [`models`] — plain data carried by the surrounding backend.
//!
//! Network retrieval itself is left to the caller: the manager exposes the
//! request pipeline as two verified phases, a lookup phase that decides
//! whether a fetch is needed and a completion phase that validates, stores
//! and charges a fetched response. A thin asynchronous driver performs the
//! HTTP transfer between the two phases.

pub mod cache;
pub mod clock;
pub mod errors;
pub mod fetch;
pub mod manager;
pub mod models;
pub mod quota;
