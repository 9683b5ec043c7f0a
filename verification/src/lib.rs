//! Core of a translation service: deterministic request fingerprinting for a
//! cache-aside layer, the dispatcher state machine of a translate call (cache
//! hit, miss, provider call, best-effort population, fail-open on cache
//! outage), provider response extraction with HTML-entity decoding, language
//! catalog normalization, and the mapping of provider failures to transport
//! classes. The surrounding I/O — the HTTP endpoints, the cache backend and
//! the provider connection — lives outside and only performs the actions
//! decided here.

pub mod catalog;
pub mod dispatch;
pub mod fingerprint;
pub mod model;
pub mod provider;
