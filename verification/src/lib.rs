//! Protocol-version registry for an account-based ledger's execution rules.
//!
//! [`spec_id`] holds the ordered set of hardfork identifiers, their numeric
//! encoding and name lookup; [`activation`] decides, for a fixed current
//! version, whether the rules of another version are active.

pub mod activation;
pub mod spec_id;
