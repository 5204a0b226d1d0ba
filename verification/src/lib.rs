//! A deterministic, address-derived storage record ("vault") bound to a
//! cryptographic owner identity.
//!
//! The library has two parts, consumed in this order:
//! - the address deriver ([`addr`]): computes a reproducible, off-curve
//!   storage address from a fixed label and an owner's 32-byte identity;
//! - the vault initializer ([`init`], [`ledger`]): performs the one-time
//!   creation transition that binds a [`record::VaultData`] to that address.
//!
//! The record's fixed 56-byte persisted layout lives in [`record`].

pub mod addr;
pub mod error;
pub mod init;
pub mod ledger;
pub mod record;
