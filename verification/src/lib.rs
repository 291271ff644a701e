//! A packet-routing core for cross-chain messaging.
//!
//! The transport, authentication and ordering engine (`tao`) sequences
//! packets per connection, records commitments, lets inbound traffic in on
//! light-client verdicts and queues one handler invocation per payload for
//! the applications at either end.

pub mod application;
pub mod encoding;
pub mod encoding_laws;
pub mod error;
pub mod funds;
pub mod laws;
pub mod lightclient;
pub mod lightclient_dummy;
pub mod model;
pub mod packet;
pub mod pingpong;
pub mod registry;
pub mod step;
pub mod store;
pub mod tao;
pub mod text;
pub mod transfer;
pub mod types;
