//! The driver: the gateway between the clients of a node and the router,
//! and, where the node serves a model, the place where jobs are run.

pub mod model;
pub mod state;
