//! An in-memory floor-plan layout service: the geometry it stores, the
//! append-only store that holds it, and the HTTP decisions made around both.
//!
//! Everything here is a function from plain values to plain values. A server
//! built on this crate reads a request off the wire, hands it to
//! [`service::handle`] together with the store it guards, and writes the
//! returned response back.

pub mod cors;
pub mod geometry;
pub mod http;
pub mod laws;
pub mod service;
pub mod store;
