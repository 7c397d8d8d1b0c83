//! Command and response correlation for driving an embedded browser engine
//! from a host application.
//!
//! The host numbers its requests and sends them as control events
//! ([`host`]). The engine's loop hands every event to [`engine::Engine`],
//! which keeps the deadlines of the requests in flight ([`pending`]), phrases
//! commands as scripts for the page and reads the envelopes that the page
//! posts back ([`protocol`]), paces frame captures ([`capture`]), and says
//! what the loop is to do next. [`trace`] states what holds of every run of
//! the engine. [`json`] holds the calls into `serde_json`, and [`decimal`]
//! the decimal text of identifiers and timeouts.

pub mod capture;
pub mod decimal;
pub mod engine;
pub mod host;
pub mod json;
pub mod pending;
pub mod protocol;
pub mod trace;
