//! Bridges a local, connection-oriented IPC endpoint to a TCP endpoint.
//!
//! The transports and the event loop live outside this library; what is here
//! are the decisions they are driven by: the bidirectional relay (`relay`),
//! the accept cycle of the IPC listener (`listener`) and the connection
//! supervisor (`supervisor`), each a state machine with a verified contract.
pub mod listener;
pub mod relay;
pub mod supervisor;
