//! A durable, concurrency-bounded queue of download jobs, as verified logic.
//!
//! The queue itself:
//! - [`status`], [`item`]: the lifecycle of a queue item and the writes that
//!   move it along;
//! - [`retry`], [`backoff`]: one job from its turn to its end, with retries;
//! - [`pool`]: which job runs next, within the permits;
//! - [`recovery`]: what start-up and the scheduler submit;
//! - [`event`]: what is published, and what a subscriber does with it;
//! - [`retry_laws`], [`recovery_laws`]: what holds of every run.
//!
//! Around it: the downloader program ([`download`], [`iplayer`], [`search`],
//! [`episodes`]), the broadcaster's pages ([`programmes`], [`websearch`],
//! [`search_flow`]), accounts ([`auth`]), and what each request handler
//! decides ([`routes`]).
//!
//! Apart from fresh ids and salts, every function here is a function of its
//! arguments; clocks, stores, sockets and processes belong to the caller, who
//! hands in what they answered. Calls into other crates stand in [`pattern`], [`crypto`],
//! [`json`], [`ids`] and at the end of [`text`], each behind a contract that
//! is believed, not proved.

pub mod auth;
pub mod backoff;
pub mod config;
pub mod crypto;
pub mod download;
pub mod episodes;
pub mod error;
pub mod event;
pub mod ids;
pub mod iplayer;
pub mod item;
pub mod json;
pub mod models;
pub mod number;
pub mod pattern;
pub mod pool;
pub mod programmes;
pub mod progress;
pub mod recovery;
pub mod recovery_laws;
pub mod retry;
pub mod retry_laws;
pub mod routes;
pub mod search;
pub mod search_flow;
pub mod status;
pub mod text;
pub mod websearch;
