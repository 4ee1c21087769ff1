//! Query translation layer for a decentralized-exchange query protocol.
//!
//! The crate exposes a caller-facing request/response vocabulary and
//! translates it, in both directions, to and from the external wire schema:
//! request builders, response normalizers, an order-type codec, a pagination
//! codec, and a decoder for the protocol's sentinel expiration timestamps.

pub mod error;
pub mod expiration;
pub mod marketmap;
pub mod normalize;
pub mod order_type;
pub mod pagination;
pub mod requests;
pub mod responses;
pub mod types;
pub mod wire;
