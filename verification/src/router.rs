//! The router: it keeps the index of available drivers, the queue of waiting
//! jobs and the readiness probes in flight, picks a driver for each job and
//! relays results to clients.

pub mod laws;
pub mod model;
pub mod state;
