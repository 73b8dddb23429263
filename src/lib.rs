//! Decision core of a purchase forwarder: an inbound purchase is passed to one
//! backend (a remote procedure or an HTTP relay), and whatever the backend does
//! is turned into exactly one status result for the caller.
pub mod laws;
pub mod relay;
pub mod rpc;
pub mod status;
