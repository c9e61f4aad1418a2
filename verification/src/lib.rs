//! A federated inference dispatcher: the router and driver state machines
//! that match inference jobs against a fleet of driver nodes, and the
//! sidecars through which a driver reaches a model provider.

pub mod address;
pub mod api;
pub mod chance;
pub mod cli;
pub mod driver;
pub mod envelope;
pub mod llm;
pub mod node_map;
pub mod router;
pub mod sidecar;
pub mod tester;
