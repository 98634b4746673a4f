//! Verified core of a manga download engine: on-disk naming, chapter
//! disambiguation, the task state machine and its permit accounting, the
//! disposable-account pool and the decisions of the remote client.

pub mod account_pool;
pub mod client;
pub mod comic;
pub mod config;
pub mod engine;
pub mod library;
pub mod naming;
pub mod retry;
pub mod search;
pub mod text;
