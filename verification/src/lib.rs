//! Compliance-check primitives for financial instruments: range, membership,
//! non-membership, consistency and uniqueness checks over hashed data, with
//! SHA-256 snapshots of the sets that were checked.

pub mod digest;

pub mod range;
pub mod membership;
pub mod nonmembership;
pub mod consistency;
pub mod hexfmt;
pub mod uniqueness;
