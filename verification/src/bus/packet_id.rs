//! Special packet IDs.
use vstd::prelude::*;

verus! {

/// The broadcast address.
pub const BROADCAST: u8 = 0xFE;

} // verus!
