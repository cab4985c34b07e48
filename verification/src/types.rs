//! Core data types of the contract.

use vstd::prelude::*;

verus! {

/// A party known to the contract: a sender, a recipient, an administrator or
/// the streamed token, identified by its textual address.
#[derive(Debug, PartialEq, Eq, Hash)]
pub struct Account(pub String);

impl Account {
    /// The text that identifies this account.
    pub open spec fn key(self) -> Seq<char> {
        self.0@
    }

    /// Whether `self` and `other` name the same account.
    pub fn same_as(&self, other: &Account) -> (r: bool)
        ensures
            r == (self.key() == other.key()),
    {
        self.0 == other.0
    }
}

impl Clone for Account {
    fn clone(&self) -> (r: Self)
        ensures
            r == *self,
    {
        Account(self.0.clone())
    }
}

/// Lifecycle status of a payment stream.
#[derive(Clone, Copy, Debug, PartialEq, Eq, Structural)]
pub enum Status {
    /// The stream is active and vesting over time.
    Active,
    /// The stream was cancelled before its end time.
    Cancelled,
    /// The stream has been fully withdrawn.
    Completed,
}

/// A payment stream: `total` escrowed tokens vesting linearly from `start` to
/// `end`, of which `withdrawn` have already been paid to the recipient.
#[derive(Debug, PartialEq, Eq)]
pub struct Stream {
    pub sender: Account,
    pub recipient: Account,
    pub total: i128,
    pub withdrawn: i128,
    pub start: u64,
    pub end: u64,
    pub status: Status,
}

impl Clone for Stream {
    fn clone(&self) -> (r: Self)
        ensures
            r == *self,
    {
        Stream {
            sender: self.sender.clone(),
            recipient: self.recipient.clone(),
            total: self.total,
            withdrawn: self.withdrawn,
            start: self.start,
            end: self.end,
            status: self.status,
        }
    }
}

/// The headline figures of a stream at one moment.
#[derive(Clone, Copy, Debug, PartialEq, Eq)]
pub struct StreamSummary {
    pub total: i128,
    pub vested: i128,
    pub withdrawn: i128,
    pub withdrawable: i128,
    pub progress_bps: u32,
    pub status: Status,
}

/// One stream to open in a batch: everything `create_stream` takes but the
/// sender, who is shared by the whole batch.
#[derive(Debug, PartialEq, Eq)]
pub struct StreamRequest {
    pub recipient: Account,
    pub total_amount: i128,
    pub start_time: u64,
    pub end_time: u64,
}

impl Clone for StreamRequest {
    fn clone(&self) -> (r: Self)
        ensures
            r == *self,
    {
        StreamRequest {
            recipient: self.recipient.clone(),
            total_amount: self.total_amount,
            start_time: self.start_time,
            end_time: self.end_time,
        }
    }
}

} // verus!
