//! Ingestion orchestration for realtime transit feeds.
//!
//! The library covers the decision logic of a feed-ingestion service:
//! credential rotation, per-cycle URL resolution, the plan of one poll
//! cycle (which endpoints to fetch, what to persist, what to forward),
//! the fixed-cadence batch scheduler, the dynamic worker registry, and
//! the membership-registration skeleton. Network and store I/O stay
//! outside; the library computes every decision from plain values.

pub mod agency;
pub mod control;
pub mod credential;
pub mod cycle;
pub mod membership;
pub mod scheduler;
pub mod text;
pub mod urls;
