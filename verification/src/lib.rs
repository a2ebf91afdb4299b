//! Core of a peer-to-peer SMS dispatch service: short text-message delivery
//! jobs are matched to intermittently available provider devices by carrier
//! affinity and capacity, tracked through their lifecycle, and retried with
//! exponential backoff until a fixed budget is exhausted.
//!
//! The verified library holds the dispatch engine itself — the priority
//! queueing discipline, the provider-matching algorithm, the job and message
//! state machines, the retry/backoff policy, and the expiry sweep — while
//! transport, storage and HTTP plumbing stay outside and hand the engine
//! plain values.

pub mod auth;
pub mod config;
pub mod engine;
pub mod errors;
pub mod fcm;
pub mod job;
pub mod matching;
pub mod message;
pub mod provider;
pub mod queue;
pub mod retry;
pub mod text;
pub mod types;
pub mod user;
pub mod util;
