//! Verified decision logic of an asynchronous linker for Asyncify-transformed
//! WebAssembly guests: the suspension state machine, the parking discipline of
//! host futures, and the configuration of the load-time transform.

pub mod admin;
pub mod binary;
pub mod call;
pub mod error;
pub mod import;
pub mod laws;
pub mod parked;
pub mod prepare;
pub mod state;
pub mod value;
