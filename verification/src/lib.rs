//! Open Assets addresses.
//!
//! An asset address commits to the same 160-bit hash as an address of the
//! base payment network, but is encoded under a namespace of its own, so that
//! tokens and native currency cannot be sent to one another by mistake.
//!
//! - [`network`], [`payload`] and [`base`] hold what an asset address takes
//!   from the base network: the network, the payload and the base address
//!   made of the two.
//! - [`address`] holds the asset address, its conversion from and to a base
//!   address, and the bytes that its text encodes.
//! - [`error`] holds the one way in which a conversion fails.
//! - [`bytes`] and [`order`] hold what equality and order of addresses are
//!   made of.
//!
//! The text of an asset address is the Base58Check encoding of
//! [`address::Address::to_bytes`]. The codec itself is not part of this
//! library.

pub mod address;
pub mod base;
pub mod bytes;
pub mod error;
pub mod network;
pub mod order;
pub mod payload;
