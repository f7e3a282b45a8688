//! Safe, verified core of a binding layer over a native factor-computation engine.
//!
//! The engine itself is reached through raw, handle-based calls that live outside
//! this crate. What this crate holds is the discipline around those calls: turning
//! null handles and sentinel integers into typed errors, validating and encoding
//! names as NUL-terminated strings, keeping the owned name copies of a buffer map,
//! caching the integer buffer handles of a streaming session, and checking the size
//! of every pushed tick.

pub mod batch;
pub mod buffer;
pub mod c_str;
pub mod error;
pub mod executor;
pub mod library;
pub mod stream;

pub use batch::BatchParams;
pub use buffer::BufferNameMap;
pub use error::KunQuantError;
pub use executor::{Executor, ThreadMode};
pub use library::{Library, Module};
pub use stream::{HandleLookup, StreamContext, HANDLE_NOT_FOUND};
