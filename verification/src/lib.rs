//! Client-side core of a key-value store's HTTP namespace.
//!
//! The crate shapes the request of each operation (get, put, delete and the
//! two lock operations acquire and release) and reads the store's answer
//! back into typed entries. It performs no I/O: an operation takes the
//! function that carries one request to the store as an argument.

pub mod entry;
pub mod laws;
pub mod ops;
pub mod payload;
pub mod request;
pub mod wire;

pub use entry::{KVPair, KVPairView};
pub use ops::{
    acquire, delete, first_entry, get, put, release, session_required_message, GetError,
    LockError,
};
pub use payload::PayloadError;
pub use request::{
    decimal_string, delete_request, get_request, lock_request, put_request, LockAction, Method,
    Request, WriteRequest,
};
pub use wire::{KVResult, KVResultView};
