//! Client-side logic for resolving and retrieving versioned game content
//! from the GOG content-delivery network: the authorization-token lifecycle,
//! URL resolution for chunks and metadata (templated and redistributable
//! strategies), depot manifest bookkeeping, and the multi-candidate chunk
//! retrieval procedure with zlib decompression.
//!
//! Network transport itself (HTTP, streaming, JSON decoding) lives outside
//! this crate; every decision this library makes about what to request and
//! what a response means is stated in contracts and verified.

pub mod auth;
pub mod cdn;
pub mod games;
pub mod retrieval;
pub mod session;
pub mod strings;
pub mod urls;
pub mod user;

pub use auth::Auth;
