//! A stateless request/response protocol for driving chess engines.
//!
//! The library holds the wire codec for positions and moves, the engine
//! contract, the protocol's request, response and error types, and the
//! exchange that drives one engine through a single request.

pub mod chess_serde;
pub mod engine;
pub mod exchange;
pub mod server_types;

pub use shakmaty;
