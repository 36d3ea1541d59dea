//! The decision core of a keyword lookup tool for GitLab issues and merge
//! requests: an on-disk freshness cache that serves a stored answer while a
//! detached refresh runs, and the rules that turn the answers into rows.
//!
//! Nothing here reads or writes: the surrounding program performs the reads,
//! the writes, the locking and the clock readings, and reports each outcome
//! as an event to the step functions of this crate.
//!
//! - [`cache`]: what is stored for a key, when it is fresh, how it is read and
//!   refreshed, and what the two protocols guarantee together.
//! - [`fingerprint`]: what identifies a request.
//! - [`gitlab`]: the two queries, their pages and their nodes.
//! - [`json`]: lookups in a JSON value.
//! - [`config`], [`command`], [`items`]: commands, queries and rows.
//! - [`human`], [`text`], [`time`]: words for ages, texts, and times.

pub mod cache;
pub mod command;
pub mod config;
pub mod fingerprint;
pub mod gitlab;
pub mod human;
pub mod items;
pub mod json;
pub mod text;
pub mod time;
