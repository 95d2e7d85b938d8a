//! An event-sourced URL shortener: commands append facts to a log, and the
//! queryable state is a fold of that log.
//!
//! - [`domain`]: slugs, URLs, links, statistics, events, errors, and their
//!   views.
//! - [`state`]: the mathematical model of projected state and of replay.
//! - [`laws`]: what holds of every state and every log, with proofs.
//! - [`url`]: which target URLs are well-formed.
//! - [`clock`] and [`allocator`]: where slugs come from.
//! - [`event_log`] and [`projection`]: the write side's log and the read
//!   side's tables.
//! - [`commands`], [`queries`] and [`service`]: the handlers and the service
//!   that implements them.

pub mod allocator;
pub mod clock;
pub mod commands;
pub mod domain;
pub mod event_log;
pub mod laws;
pub mod projection;
pub mod queries;
pub mod service;
pub mod state;
pub mod url;

pub use commands::CommandHandler;
pub use domain::{
    Event, EventView, LinkView, ShortLink, ShortenerError, Slug, Stats, StatsView, Url,
};
pub use event_log::EventLog;
pub use projection::Projection;
pub use queries::QueryHandler;
pub use service::UrlShortenerService;
pub use state::{Inconsistency, Projected, State};
