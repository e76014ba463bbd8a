//! Control core of a service that presents remote TCP services as local
//! ones.
//!
//! A registry keeps the listening proxies by local port. It is driven one
//! request at a time and answers each request with what its driver has to
//! carry out: replies to deliver, listeners to start or drop. The driver
//! owns the queue, the sockets and the tasks; every decision is made here.
//!
//! - [`types`]: the requests, their replies and the errors.
//! - [`registry`]: the registry and the handling of each request.
//! - [`manager`]: what a caller is told once the wait for a reply is over,
//!   and when a wait for readiness ends.
//! - [`proxy`]: the course of one listener task.
//! - [`address`]: addresses in the form `host:port`.
//! - [`laws`]: what holds of registry and listener over whole histories.
//! - [`model`], [`input`], [`dto`], [`porter`], [`db`]: the records of
//!   services and gates and what is decided on their way to the store.

pub mod address;
pub mod db;
pub mod dto;
pub mod input;
pub mod laws;
pub mod manager;
pub mod model;
pub mod porter;
pub mod proxy;
pub mod registry;
pub mod types;
