//! Storage layout of the contract: the keys under which its state is kept and
//! the time-to-live policy of its entries.

use vstd::prelude::*;

verus! {

/// Number of ledgers (~6 days) below which an entry's time-to-live is
/// extended.
pub const BUMP_THRESHOLD: u32 = 100_000;

/// Number of ledgers (~30 days) an entry's time-to-live is extended to.
pub const BUMP_EXTEND: u32 = 518_400;

/// Keys used to address values in contract storage.
#[derive(Clone, Copy, Debug, PartialEq, Eq, Structural)]
pub enum DataKey {
    /// The admin address (instance).
    Admin,
    /// The streamed token address (instance).
    Token,
    /// The monotonically increasing stream counter (instance).
    Counter,
    /// A stream stored by its id (persistent).
    Stream(u64),
    /// The account of a scheduled admin transfer (instance).
    PendingAdmin,
    /// When the scheduled admin transfer may execute (instance).
    AdminActionExecuteAfter,
    /// The cap on the total amount held in escrow (instance).
    SupplyCap,
    /// The total amount currently held in escrow (instance).
    TotalSupply,
}

} // verus!
