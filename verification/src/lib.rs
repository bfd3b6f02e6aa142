//! Ship and profile-picture token contracts for a token-gated game.
//!
//! The contracts run on a host that keeps their state and on two libraries
//! that keep the token books and the owner. [`host`], [`tokens`] and
//! [`access`] say what those do; [`attributes`], [`ship`] and [`pfp`] hold
//! the contracts' own logic, proved against that.

pub mod access;
pub mod attributes;
pub mod host;
pub mod pfp;
pub mod ship;
pub mod tokens;

pub use attributes::AttributeKey;
pub use pfp::{MintError, SpaceStellarPFP};
pub use ship::SpaceStellarNFT;
