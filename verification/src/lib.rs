//! A small real-time ingestion-and-fan-out pipeline: two producers pull
//! upstream social-network streams (posts and notifications), normalize every
//! item into one canonical event shape, and a single publisher republishes
//! each event onto a named pub/sub topic, preserving per-producer order.
//!
//! This crate holds the verified core: the data model, the normalizer, the
//! wire encoding of the topic message, a model of the bounded fan-in channel,
//! and the decision logic of the producer and publisher loops. The
//! surrounding daemon (authentication, the actual stream subscriptions, the
//! pub/sub transport, task spawning) is unverified glue that drives these
//! functions.

pub mod channel;
pub mod event;
pub mod producer;
pub mod publisher;
pub mod supervisor;
pub mod wire;
