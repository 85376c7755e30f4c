//! Zero-knowledge membership proofs for a committed reward catalog.
//!
//! A server commits a catalog of `(secret_key, item_id)` reward leaves into a
//! Merkle root; a client later proves, without revealing which leaf it holds
//! or its secret key, that its pair is one of the committed leaves.  This
//! crate holds the core of that flow: the hex boundary codec for field
//! elements, witness-bundle decoding and validation, the native
//! Merkle-membership check, the membership circuit description, and the proof
//! service with its one-time key initialization.

pub mod circuit;
pub mod config;
pub mod error;
pub mod field;
pub mod merkle;
pub mod service;
pub mod types;
