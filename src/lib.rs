//! Single-flight command serialization for a wireless adapter control service.
//!
//! The library holds the admission slot, the per-endpoint request protocol
//! and the response mapping; the program around it performs the commands.
pub mod gate;
pub mod handler;
pub mod laws;
pub mod parse;
pub mod response;
