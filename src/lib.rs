//! Text-to-speech audio caching: request fingerprints, the cacheability
//! policy, the cache of encoded audio, and the per-request decisions of the
//! repository that ties them together.

pub mod cache;
pub mod error;
pub mod fingerprint;
pub mod policy;
pub mod laws;
pub mod repository;
