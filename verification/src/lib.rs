//! A tool-calling server over a photography-business graph: families keyed
//! by a deterministic id, skaters, shoots, competitions, and the edges that
//! carry gallery-delivery state and purchases. The store models the
//! database's tables; every operation's effect on it, and every response,
//! is stated in its contract. Process edges — the wire transports, the
//! environment, file reading, and the database connection itself — live
//! outside this crate.
use vstd::prelude::*;

pub mod args;
pub mod auth;
pub mod catalog;
pub mod config;
pub mod laws;
pub mod listings;
pub mod models;
pub mod responses;
pub mod router;
pub mod seqtools;
pub mod server;
pub mod stats;
pub mod store;
pub mod sync;
pub mod text;

verus! {

/// Decides whether a liveness probe succeeded: the probe statement returns a
/// scalar, and the service is healthy exactly when that scalar came back as 1.
pub fn healthcheck_verdict(val: Option<i64>) -> (r: bool)
    ensures
        r == (val == Some(1i64)),
{
    match val {
        Some(v) => v == 1,
        None => false,
    }
}

} // verus!
