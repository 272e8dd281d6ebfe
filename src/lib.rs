//! Lifecycle engine of a node agent that runs game servers in containers:
//! per-server storage, the power state machine, and the registry that
//! grants one lifecycle operation at a time per server.

pub mod bind_mount;
pub mod error;
pub mod pool;
pub mod server;
pub mod state;
