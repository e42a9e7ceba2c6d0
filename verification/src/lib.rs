//! Authentication of requests by API key.
//!
//! A request proves who sent it in one of two ways: by a token that is on
//! the allow-list, or by identifier, timestamp, nonce and a signature made
//! with the identifier's secret. Signed requests are accepted once; a
//! nonce store remembers their nonces until they expire.
//!
//! Nothing here reads a clock, a socket or a file. Whoever calls hands in
//! the present moment and the plain parts of the request, and gets a
//! verdict back.

pub mod authenticator;
pub mod clock;
pub mod endpoint;
pub mod laws;
pub mod memory_store;
pub mod nonce;
pub mod outcome;
pub mod registry;
pub mod request;
pub mod routes;
pub mod shared_cache;
pub mod signature;
pub mod startup;
pub mod storage;
pub mod text;
pub mod validator;
