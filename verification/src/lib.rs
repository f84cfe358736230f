pub mod authority;
pub mod custody;
pub mod errors;
pub mod instruction;
pub mod processor;

use vstd::prelude::*;

verus! {

/// Number of receipt-token base units minted or burned per pool-token unit:
/// the receipt token keeps finer decimal precision than the pool token, and
/// this multiplier reconciles the two denominations.
pub const RECEIPT_SCALE: u64 = 10000000;

} // verus!
