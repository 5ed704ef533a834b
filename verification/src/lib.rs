//! Core logic of a periodic wallpaper fetcher: retry/backoff policy,
//! failure classification, the fetch engine's state machine, an atomic
//! publish model, and the persisted completion tracker.

pub mod backoff;
pub mod classify;
pub mod engine;
pub mod logger;
pub mod paths;
pub mod tracker;
pub mod writer;
