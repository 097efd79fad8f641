//! Verified core of a block-relay status dashboard.
//!
//! The library keeps a small set of pre-rendered dashboard views synchronized
//! with chain-progress events: a single-writer, many-reader template cache
//! that is replaced wholesale on each successful refresh cycle, a tracker for
//! the most recently observed chain slot, a stable sort of delivered-payload
//! records by value, and a deterministic renderer.  Database access, the HTTP
//! surface and the chain-event feed are unverified collaborators that hand
//! the library plain values.

use vstd::prelude::*;

pub mod config;
pub mod fmt;
pub mod handlers;
pub mod models;
pub mod sort;
pub mod state;
pub mod templates;
pub mod traces;
pub mod website_service;

verus! {

/// The number of payload records a refresh cycle fetches at most.
pub const RECENT_PAYLOAD_LIMIT: u64 = 30;

} // verus!
