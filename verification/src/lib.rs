//! A telemetry client session for a distributed service daemon.
//!
//! A session connects to the daemon, resolves a service, and then either
//! receives the service's data or publishes a sensor reading once per
//! period. The session here is a state machine: it is told what happened and
//! answers with what to do next. It performs no input or output; the program
//! around it does, and reports back.
//!
//! - [`config`]: the settings of a session.
//! - [`measurement`]: the application record.
//! - [`envelope`]: the daemon's messages and the filter that finds the
//!   payloads in them.
//! - [`protocol`]: the events a session is told and the actions it asks for.
//! - [`model`]: the transitions of a session, as mathematics.
//! - [`session`]: the session itself.
//! - [`laws`]: what holds of every session.

pub mod config;
pub mod envelope;
pub mod laws;
pub mod measurement;
pub mod model;
pub mod protocol;
pub mod session;
