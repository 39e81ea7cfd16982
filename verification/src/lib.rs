//! Core library of a command-line client for a remote design-file service.
//!
//! The heart of the crate is the request orchestration layer that sits
//! between command handlers and the remote HTTP API: a two-tier
//! (in-process + on-disk) response cache with per-resource TTL policy,
//! and a rate-limit-aware request executor with proactive throttling and
//! exponential-backoff retry.  Everything here is verified; the thin
//! shell that performs network and file I/O lives outside the library
//! and drives these functions with plain values.

pub mod assets;
pub mod auth;
pub mod cache;
pub mod cli;
pub mod config;
pub mod doctree;
pub mod entry;
pub mod executor;
pub mod key;
pub mod rate_limit;
pub mod text;
pub mod types;
pub mod url;
