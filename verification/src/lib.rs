//! A bridge between a persistent client connection and an upstream service that
//! can only be polled.
//!
//! A client opens a connection and submits one request. The bridge then polls
//! the upstream service on the client's behalf, every five seconds for at most
//! three minutes, and pings the client once per poll to keep the connection
//! alive. A poll that reports success is relayed to the client; a timeout or
//! a lost connection ends the session without a payload.
//!
//! This library is the protocol of one connection, free of any I/O:
//!
//! - [`session`] is the session of a connection as a state machine, and
//!   [`poll`] the polling loop of one request within it. Each takes the
//!   events that its driver reports and hands out the actions to perform.
//! - [`request`], [`response`] and [`upstream`] are the messages of the
//!   protocol: how a request is read, a response written, and the reply of
//!   the upstream service judged.
//! - [`budget`] is the time budget of a polling loop.
//! - [`poll_runs`] and [`session_runs`] state and prove what holds of every
//!   run of the two machines.
//! - [`json`] holds the calls into `serde_json`.

pub mod budget;
pub mod json;
pub mod poll;
pub mod poll_runs;
pub mod request;
pub mod response;
pub mod session;
pub mod session_runs;
pub mod upstream;
