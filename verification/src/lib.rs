//! The decision core of a reverse tunnel: a relay pairs an authenticated
//! tunnel connection with a consumer connection, a client pairs the relay
//! with a local service, and both shuttle bytes until either side ends.
//!
//! Nothing here touches a socket. Each component is a state machine that is
//! told what happened on the wire and answers with the next thing to do, so
//! that every rule on ordering, rejection and termination is proved.

pub mod client;
pub mod config;
pub mod forward;
pub mod handshake;
pub mod port;
pub mod relay;
