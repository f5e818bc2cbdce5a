//! Core of a line-oriented request/response tool over a secure, multiplexed
//! transport: framing of messages on ordered byte channels, resolution of the
//! cryptographic identity that secures the transport, the fan-out shutdown
//! signal, and the state machines that drive a connection's channels under
//! that signal. All I/O stays outside; these modules hold the decisions and
//! the wire logic, each function with a proved contract.

pub mod channel;
pub mod client;
pub mod endpoint;
pub mod errors;
pub mod frame;
pub mod identity;
pub mod session;
pub mod shutdown;
