//! A minimal authenticated record store: each identity key owns at most one
//! fixed-size record, kept at a deterministically derived address, created
//! once and updated under signature and ownership checks.

use vstd::prelude::*;

pub mod codec;
pub mod error;
pub mod instruction;
pub mod pda;
pub mod processor;
pub mod state;

verus! {

/// Capacity in bytes of one storage slot; a serialized record never exceeds it.
pub const RECORD_CAPACITY: usize = 1000;

} // verus!
