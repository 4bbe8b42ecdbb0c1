//! A client-side session manager for secure group messaging.
//!
//! The crate keeps, for every group a client takes part in, the epoch that is
//! current, and routes group creation, membership commits, welcomes and
//! application messages through one registry. The cryptography is the work of
//! a protocol engine; what is proved here is the bookkeeping around it: which
//! groups are registered, how their epochs move, which failure class each
//! fault falls into, and how wire bytes and text correspond.
pub mod client;
pub mod codec;
pub mod engine;
pub mod error;
pub mod persist;
pub mod registry;
pub mod session;
pub mod text;
