//! A verified HTTP load-testing engine.
//!
//! The engine schedules a stream of HTTP GET requests against a target URL
//! under one of two policies (rate-paced for a fixed duration, or a fixed
//! number of workers each issuing a fixed number of requests), classifies
//! every attempt into exactly one [`outcome::Outcome`], folds the outcomes
//! into running [`stats::Stats`], and derives a [`snapshot::Snapshot`] of
//! summary metrics at any point in time.
//!
//! The HTTP transport, threads, channels and rendering are left to the
//! host program; this crate holds the decisions and the accounting, with
//! their contracts proved.

pub mod config;
pub mod dispatch;
pub mod outcome;
pub mod snapshot;
pub mod stats;
