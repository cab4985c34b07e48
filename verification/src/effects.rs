//! What a successful entrypoint asks of its environment: authorizations to
//! demand, token movements, time-to-live extensions, code updates and events
//! to publish, in the order in which they are to be carried out.

use vstd::prelude::*;
use crate::storage::DataKey;
use crate::types::Account;

verus! {

/// A contract event, with the payload that indexers receive.
#[derive(Debug, PartialEq, Eq)]
pub enum Event {
    /// `("admin_scheduled",)`: an admin transfer was queued.
    AdminScheduled { current_admin: Account, pending_admin: Account, execute_after: u64 },
    /// `("admin_transfer",)`: a timelocked admin transfer executed.
    AdminTransfer { previous_admin: Account, new_admin: Account },
    /// `("admin_cancelled",)`: a scheduled admin transfer was cancelled.
    AdminCancelled { admin: Account },
    /// `("created", id)`: a stream was opened.
    Created { id: u64, sender: Account, recipient: Account, total: i128 },
    /// `("withdrawn", id)`: the recipient pulled vested funds.
    Withdrawn { id: u64, recipient: Account, amount: i128 },
    /// `("toppedup", id)`: the sender escrowed more funds.
    ToppedUp { id: u64, sender: Account, amount: i128, new_total: i128 },
    /// `("extended", id)`: the end of a stream was pushed back.
    Extended { id: u64, sender: Account, old_end: u64, new_end: u64 },
    /// `("cancelled", id)`: a stream was cancelled and its funds split.
    Cancelled { id: u64, caller: Account, sender_refund: i128, recipient_paid: i128 },
    /// `("capadmin",)`: the admin changed the supply cap.
    SupplyCapUpdated { admin: Account, old_cap: i128, new_cap: i128 },
    /// `("admin_set",)`: the admin role was handed over directly.
    AdminChanged { old_admin: Account, new_admin: Account },
    /// `("upgraded",)`: the contract's code was replaced.
    Upgraded { wasm_hash: [u8; 32] },
}

/// One step that the environment must carry out for a successful call.
#[derive(Debug, PartialEq, Eq)]
pub enum Effect {
    /// The call must be authorized by this account.
    RequireAuth(Account),
    /// Move `amount` of the streamed token from `from` into the contract.
    Escrow { from: Account, amount: i128 },
    /// Move `amount` of the streamed token from the contract to `to`.
    Payout { to: Account, amount: i128 },
    /// Extend the time-to-live of the contract's instance storage to
    /// `extend_to` ledgers, if it has fallen below `threshold` ledgers.
    ExtendInstance { threshold: u32, extend_to: u32 },
    /// Extend the time-to-live of the persistent storage entry `key` to
    /// `extend_to` ledgers, if it has fallen below `threshold` ledgers.
    ExtendPersistent { key: DataKey, threshold: u32, extend_to: u32 },
    /// Replace the contract's code by the code with this hash.
    UpdateCode([u8; 32]),
    /// Publish this event.
    Publish(Event),
}

} // verus!
