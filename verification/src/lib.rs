//! An HTTP gateway in front of a key-value cache service.
//!
//! The gateway holds no state. Each HTTP request is turned into at most one
//! call of the cache service, and the outcome of that call into one HTTP
//! reply. Everything here works on plain values: the program around this
//! library owns the sockets, performs the remote call and writes the log.
//!
//! * [`client`]: the requests sent to the cache service and the reading of
//!   what comes back.
//! * [`ttl`]: the text of a time-to-live as a signed integer.
//! * [`form`]: the fields of a form body, decoded against a fixed schema.
//! * [`route`]: the gateway's paths and methods.
//! * [`reply`]: the status and body of every answer the gateway gives.
//! * [`gateway`]: one request from arrival to reply: what it is, the call
//!   it asks for, and the answer to what came back.
//! * [`contract`]: what the gateway relies on from the cache service, and what
//!   HTTP clients can therefore rely on from the gateway.

pub mod client;
pub mod contract;
pub mod form;
pub mod gateway;
pub mod reply;
pub mod route;
pub mod ttl;
