//! A dual-protocol file server: the FTP session state machine, the registry of connections in
//! flight that bounds a graceful shutdown, the accept-loop decisions, and the helpers of a
//! static-file HTTP service. The library decides; the program around it does the I/O.
pub mod access;
pub mod config;
pub mod dirs;
pub mod http;
pub mod port;
pub mod server;
pub mod session;
pub mod shutdown;
pub mod status;
pub mod text;
pub mod transfer;
