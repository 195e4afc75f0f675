//! A credential registry: a single trusted admin issues student-identity
//! records with monotonically numbered ids, and anyone may check whether a
//! record is currently valid against a caller-supplied clock reading.
//!
//! The registry itself is a pure state machine over plain values. Durable
//! storage, the clock, and caller authentication are host concerns that live
//! outside this crate; callers read the clock and hand the timestamp in.

pub mod contract;
pub mod data;
pub mod laws;
pub mod state;
