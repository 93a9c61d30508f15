//! Request-orchestration core of a streaming text-generation gateway.
//!
//! The crate sits between client-facing protocols and a single streaming
//! inference backend. It provides admission control bounded by a configured
//! capacity, per-request pipelines that turn backend events into client
//! responses, best-of-N candidate selection, multiplexing of several prompt
//! streams into one ordered output stream, a restart state machine for
//! tool-call-aware chat completions, and aggregation of per-branch usage and
//! timing data. The backend itself, the wire protocol and all I/O live
//! outside this crate; the functions here work on plain values and state
//! exactly how each decision is made.

pub mod admission;
pub mod aggregate;
pub mod best_of;
pub mod branch;
pub mod chat;
pub mod compat;
pub mod completions;
pub mod errors;
pub mod events;
pub mod multiplex;
pub mod request;
pub mod response;
pub mod stream;
pub mod timing;
pub mod tokenize;

pub use errors::InferError;
pub use errors::ValidationError;
