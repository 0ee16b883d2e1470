//! Core of a policy-enforced launcher service: policy evaluation, the
//! session state machine, usage and cooldown bookkeeping, and the decision
//! logic behind the service's command protocol. The process around the
//! library performs the I/O — sockets, child processes, clocks, durable
//! storage — and routes every decision through here.

pub mod api;
pub mod engine;
pub mod error;
pub mod host;
pub mod ids;
pub mod ipc;
pub mod metrics;
pub mod policy;
pub mod rate_limit;
pub mod schema;
pub mod service;
pub mod session;
pub mod store;
pub mod text;
pub mod time;
pub mod validation;
pub mod volume;
