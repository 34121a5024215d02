//! Core logic of a reactive dev-server project session.
//!
//! A long-lived project holds a mutable build configuration and recomputes
//! derived views (route tables, hot-reload updates, progress statistics) as
//! inputs change. Subscribers are kept up to date through a cycle of
//! recompute, classify, deliver, wait. This crate verifies the session
//! bookkeeping: configuration replacement, per-session version tracking,
//! update classification, the subscription state machine, progress
//! aggregation decisions, and the port-allocation retry rule. The
//! incremental computation engine, the bundler, and all transports are
//! external collaborators; the host drives them and feeds their results in
//! as plain values.

pub mod builder;
pub mod client;
pub mod container;
pub mod envelope;
pub mod decimal;
pub mod envmap;
pub mod error;
pub mod hmr;
pub mod options;
pub mod paths;
pub mod port;
pub mod progress;
pub mod route;
pub mod session;
pub mod startup;
pub mod subscription;
