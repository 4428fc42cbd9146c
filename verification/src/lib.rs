//! Transactional execution core: a bounded optimistic-concurrency retry engine
//! and the deterministic sandbox environment that each attempt runs in.

pub mod rng;
pub mod resolvers;
pub mod timers;
pub mod environment;
pub mod store;
pub mod retry;
pub mod attempt;
