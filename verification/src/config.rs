//! The contract's singleton state and the rules of every entrypoint.
//!
//! Each entrypoint is a step from the current [`Config`] (and, for calls on a
//! stream, the stored stream if there is one) to either an error, which
//! changes nothing, or a new state together with the [`Effect`]s that the
//! environment must carry out. The `*_step` spec functions state each rule;
//! the executable methods are proved to follow them.

use vstd::prelude::*;
use crate::constants::{ADMIN_TIMELOCK_DELAY, MIN_STREAM_AMOUNT, is_valid_amount, valid_amount};
use crate::effects::{Effect, Event};
use crate::error::Error;
use crate::normalize::{normalize_start_time, normalized_start};
use crate::storage::{DataKey, BUMP_EXTEND, BUMP_THRESHOLD};
use crate::types::{Account, Status, Stream, StreamRequest};
use crate::vesting::{fits_i128, vested, vested_amount, withdrawable, withdrawable_at};

verus! {

/// The contract's singleton configuration, kept in instance storage.
#[derive(Debug, PartialEq, Eq)]
pub struct Config {
    /// The administrator; `None` until the contract is initialized.
    pub admin: Option<Account>,
    /// The streamed token.
    pub token: Option<Account>,
    /// The account of a scheduled admin transfer.
    pub pending_admin: Option<Account>,
    /// When the scheduled admin transfer may execute.
    pub execute_after: Option<u64>,
    /// The number of streams created so far; the id of the next stream.
    pub counter: u64,
    /// The cap on the total amount held in escrow.
    pub supply_cap: i128,
    /// The total amount currently held in escrow.
    pub total_supply: i128,
}

/// A copy of an optional account.
pub fn clone_account_opt(a: &Option<Account>) -> (r: Option<Account>)
    ensures
        r == *a,
{
    match a {
        Some(x) => Some(x.clone()),
        None => None,
    }
}

/// The configuration of a contract that has not been initialized.
pub open spec fn blank_config() -> Config {
    Config {
        admin: None,
        token: None,
        pending_admin: None,
        execute_after: None,
        counter: 0,
        supply_cap: i128::MAX,
        total_supply: 0,
    }
}

/// The authorization demanded of `who`, if of anyone.
pub open spec fn demand(who: Option<Account>) -> Seq<Effect> {
    match who {
        Some(a) => seq![Effect::RequireAuth(a)],
        None => Seq::empty(),
    }
}

/// The authorization of `who`, demanded once the contract is initialized
/// and before any other check.
pub open spec fn caller_demand(c: Config, who: Account) -> Seq<Effect> {
    if c.admin is Some {
        seq![Effect::RequireAuth(who)]
    } else {
        Seq::empty()
    }
}

/// `initialize(admin, token)`: one-time setup.
pub open spec fn initialize_step(c: Config, admin: Account, token: Account) -> Result<(Config, Seq<Effect>), Error> {
    if c.admin is Some {
        Err(Error::AlreadyInitialized)
    } else {
        Ok((
            Config {
                admin: Some(admin),
                token: Some(token),
                counter: 0,
                supply_cap: i128::MAX,
                total_supply: 0,
                ..c
            },
            seq![Effect::ExtendInstance { threshold: BUMP_THRESHOLD, extend_to: BUMP_EXTEND }],
        ))
    }
}

/// `schedule_admin_transfer(admin, new_admin)` at ledger time `now`; the
/// value is the time from which the transfer may execute.
pub open spec fn schedule_step(c: Config, now: u64, admin: Account, new_admin: Account) -> Result<(Config, Seq<Effect>, u64), Error> {
    if c.admin is None {
        Err(Error::NotInitialized)
    } else if admin.key() != c.admin->0.key() {
        Err(Error::Unauthorized)
    } else if new_admin.key() == admin.key() {
        Err(Error::InvalidAdminAction)
    } else if now + ADMIN_TIMELOCK_DELAY > u64::MAX {
        Err(Error::Overflow)
    } else {
        let t = (now + ADMIN_TIMELOCK_DELAY) as u64;
        Ok((
            Config { pending_admin: Some(new_admin), execute_after: Some(t), ..c },
            seq![
                Effect::RequireAuth(admin),
                Effect::ExtendInstance { threshold: BUMP_THRESHOLD, extend_to: BUMP_EXTEND },
                Effect::Publish(Event::AdminScheduled { current_admin: admin, pending_admin: new_admin, execute_after: t }),
            ],
            t,
        ))
    }
}

/// `execute_admin_transfer()` at ledger time `now`.
pub open spec fn execute_step(c: Config, now: u64) -> Result<(Config, Seq<Effect>), Error> {
    if c.admin is None {
        Err(Error::NotInitialized)
    } else if c.pending_admin is None || c.execute_after is None {
        Err(Error::NoPendingAdminAction)
    } else if now < c.execute_after->0 {
        Err(Error::TimelockNotExpired)
    } else {
        Ok((
            Config { admin: c.pending_admin, pending_admin: None, execute_after: None, ..c },
            seq![
                Effect::ExtendInstance { threshold: BUMP_THRESHOLD, extend_to: BUMP_EXTEND },
                Effect::Publish(Event::AdminTransfer { previous_admin: c.admin->0, new_admin: c.pending_admin->0 }),
            ],
        ))
    }
}

/// `cancel_admin_transfer(admin)`.
pub open spec fn cancel_admin_step(c: Config, admin: Account) -> Result<(Config, Seq<Effect>), Error> {
    if c.admin is None {
        Err(Error::NotInitialized)
    } else if admin.key() != c.admin->0.key() {
        Err(Error::Unauthorized)
    } else if c.pending_admin is None {
        Err(Error::NoPendingAdminAction)
    } else {
        Ok((
            Config { pending_admin: None, execute_after: None, ..c },
            seq![
                Effect::RequireAuth(admin),
                Effect::ExtendInstance { threshold: BUMP_THRESHOLD, extend_to: BUMP_EXTEND },
                Effect::Publish(Event::AdminCancelled { admin }),
            ],
        ))
    }
}

/// `set_admin(new_admin)`: the current admin hands the role over at once.
pub open spec fn set_admin_step(c: Config, new_admin: Account) -> Result<(Config, Seq<Effect>), Error> {
    if c.admin is None {
        Err(Error::NotInitialized)
    } else {
        Ok((
            Config { admin: Some(new_admin), ..c },
            seq![
                Effect::RequireAuth(c.admin->0),
                Effect::ExtendInstance { threshold: BUMP_THRESHOLD, extend_to: BUMP_EXTEND },
                Effect::Publish(Event::AdminChanged { old_admin: c.admin->0, new_admin }),
            ],
        ))
    }
}

/// `set_supply_cap(new_cap)`: the admin changes the escrow cap.
pub open spec fn set_supply_cap_step(c: Config, new_cap: i128) -> Result<(Config, Seq<Effect>), Error> {
    if c.admin is None {
        Err(Error::NotInitialized)
    } else if new_cap <= 0 {
        Err(Error::InvalidAmount)
    } else {
        Ok((
            Config { supply_cap: new_cap, ..c },
            seq![
                Effect::RequireAuth(c.admin->0),
                Effect::ExtendInstance { threshold: BUMP_THRESHOLD, extend_to: BUMP_EXTEND },
                Effect::Publish(Event::SupplyCapUpdated { admin: c.admin->0, old_cap: c.supply_cap, new_cap }),
            ],
        ))
    }
}

/// `upgrade(wasm_hash)`: the admin replaces the contract's code.
pub open spec fn upgrade_step(c: Config, wasm_hash: [u8; 32]) -> Result<(Config, Seq<Effect>), Error> {
    if c.admin is None {
        Err(Error::NotInitialized)
    } else {
        Ok((
            c,
            seq![
                Effect::RequireAuth(c.admin->0),
                Effect::UpdateCode(wasm_hash),
                Effect::Publish(Event::Upgraded { wasm_hash }),
            ],
        ))
    }
}


/// Why a requested stream (amount and times, at ledger time `now`) is
/// refused, checked in this order; `None` when it is acceptable.
pub open spec fn request_error(now: u64, amount: i128, start_time: u64, end_time: u64) -> Option<Error> {
    let start = normalized_start(now, start_time);
    if !valid_amount(amount as int) {
        Some(Error::InvalidAmount)
    } else if amount < MIN_STREAM_AMOUNT {
        Some(Error::AmountBelowMinimum)
    } else if end_time <= start {
        Some(Error::InvalidTimeRange)
    } else if end_time <= now {
        Some(Error::EndTimeInPast)
    } else {
        None
    }
}

/// The stream that a valid request opens: nothing withdrawn yet, active.
pub open spec fn new_stream(sender: Account, recipient: Account, amount: i128, start: u64, end: u64) -> Stream {
    Stream { sender, recipient, total: amount, withdrawn: 0, start, end, status: Status::Active }
}

/// `create_stream(sender, recipient, amount, start_time, end_time)` at
/// ledger time `now`; the new stream's id is `c.counter`.
pub open spec fn create_step(
    c: Config,
    now: u64,
    sender: Account,
    recipient: Account,
    amount: i128,
    start_time: u64,
    end_time: u64,
) -> Result<(Config, Stream, Seq<Effect>), Error> {
    if c.admin is None {
        Err(Error::NotInitialized)
    } else if request_error(now, amount, start_time, end_time) is Some {
        Err(request_error(now, amount, start_time, end_time)->0)
    } else if !fits_i128(c.total_supply + amount) {
        Err(Error::Overflow)
    } else if c.total_supply + amount > c.supply_cap {
        Err(Error::SupplyCapExceeded)
    } else if c.counter + 1 > u64::MAX {
        Err(Error::Overflow)
    } else {
        Ok((
            Config { counter: (c.counter + 1) as u64, total_supply: (c.total_supply + amount) as i128, ..c },
            new_stream(sender, recipient, amount, normalized_start(now, start_time), end_time),
            seq![
                Effect::RequireAuth(sender),
                Effect::Escrow { from: sender, amount },
                Effect::ExtendPersistent { key: DataKey::Stream(c.counter), threshold: BUMP_THRESHOLD, extend_to: BUMP_EXTEND },
                Effect::ExtendInstance { threshold: BUMP_THRESHOLD, extend_to: BUMP_EXTEND },
                Effect::Publish(Event::Created { id: c.counter, sender, recipient, total: amount }),
            ],
        ))
    }
}

/// `top_up(id, sender, amount)` on `found`, the stream stored under `id`.
pub open spec fn top_up_step(c: Config, found: Option<Stream>, id: u64, sender: Account, amount: i128) -> Result<(Config, Stream, Seq<Effect>, i128), Error> {
    if !valid_amount(amount as int) {
        Err(Error::InvalidAmount)
    } else if found is None {
        Err(Error::StreamNotFound)
    } else {
        let s = found->0;
        if sender.key() != s.sender.key() {
            Err(Error::Unauthorized)
        } else if s.status != Status::Active {
            Err(Error::StreamNotActive)
        } else if !fits_i128(s.total + amount) {
            Err(Error::Overflow)
        } else if !fits_i128(c.total_supply + amount) {
            Err(Error::Overflow)
        } else if c.total_supply + amount > c.supply_cap {
            Err(Error::SupplyCapExceeded)
        } else {
            let new_total = (s.total + amount) as i128;
            Ok((
                Config { total_supply: (c.total_supply + amount) as i128, ..c },
                Stream { total: new_total, ..s },
                seq![
                    Effect::RequireAuth(sender),
                    Effect::Escrow { from: sender, amount },
                    Effect::ExtendPersistent { key: DataKey::Stream(id), threshold: BUMP_THRESHOLD, extend_to: BUMP_EXTEND },
                    Effect::ExtendInstance { threshold: BUMP_THRESHOLD, extend_to: BUMP_EXTEND },
                    Effect::Publish(Event::ToppedUp { id, sender, amount, new_total }),
                ],
                new_total,
            ))
        }
    }
}

/// `extend_stream(id, sender, new_end)` on `found`, the stream stored under
/// `id`.
pub open spec fn extend_step(c: Config, found: Option<Stream>, id: u64, sender: Account, new_end: u64) -> Result<(Config, Stream, Seq<Effect>), Error> {
    if found is None {
        Err(Error::StreamNotFound)
    } else {
        let s = found->0;
        if sender.key() != s.sender.key() {
            Err(Error::Unauthorized)
        } else if s.status != Status::Active {
            Err(Error::StreamNotActive)
        } else if new_end <= s.end {
            Err(Error::InvalidTimeRange)
        } else {
            Ok((
                c,
                Stream { end: new_end, ..s },
                seq![
                    Effect::RequireAuth(sender),
                    Effect::ExtendPersistent { key: DataKey::Stream(id), threshold: BUMP_THRESHOLD, extend_to: BUMP_EXTEND },
                    Effect::ExtendInstance { threshold: BUMP_THRESHOLD, extend_to: BUMP_EXTEND },
                    Effect::Publish(Event::Extended { id, sender, old_end: s.end, new_end }),
                ],
            ))
        }
    }
}

/// `withdraw(id, recipient)` at ledger time `now` on `found`, the stream
/// stored under `id`; the value is the amount paid out.
pub open spec fn withdraw_step(c: Config, found: Option<Stream>, id: u64, recipient: Account, now: u64) -> Result<(Config, Stream, Seq<Effect>, i128), Error> {
    if found is None {
        Err(Error::StreamNotFound)
    } else {
        let s = found->0;
        if s.recipient.key() != recipient.key() {
            Err(Error::Unauthorized)
        } else if s.status == Status::Cancelled {
            Err(Error::AlreadyCancelled)
        } else if s.status == Status::Completed {
            Err(Error::AlreadyCompleted)
        } else if withdrawable_at(s, now) is Err {
            Err(withdrawable_at(s, now)->Err_0)
        } else {
            let a = withdrawable_at(s, now)->Ok_0;
            if a <= 0 {
                Err(Error::NothingToWithdraw)
            } else if !fits_i128(s.withdrawn + a) {
                Err(Error::Overflow)
            } else if !fits_i128(c.total_supply - a) {
                Err(Error::Overflow)
            } else {
                let w = (s.withdrawn + a) as i128;
                Ok((
                    Config { total_supply: (c.total_supply - a) as i128, ..c },
                    Stream { withdrawn: w, status: if w >= s.total { Status::Completed } else { s.status }, ..s },
                    seq![
                        Effect::RequireAuth(recipient),
                        Effect::ExtendPersistent { key: DataKey::Stream(id), threshold: BUMP_THRESHOLD, extend_to: BUMP_EXTEND },
                        Effect::Payout { to: recipient, amount: a },
                        Effect::Publish(Event::Withdrawn { id, recipient, amount: a }),
                    ],
                    a,
                ))
            }
        }
    }
}

/// The payouts of a cancellation: the recipient's share, then the sender's
/// refund, each only when positive.
pub open spec fn cancel_payouts(s: Stream, recipient_paid: i128, sender_refund: i128) -> Seq<Effect> {
    (if recipient_paid > 0 { seq![Effect::Payout { to: s.recipient, amount: recipient_paid }] } else { Seq::empty() })
        + (if sender_refund > 0 { seq![Effect::Payout { to: s.sender, amount: sender_refund }] } else { Seq::empty() })
}

/// What a cancellation at `now` keeps as withdrawn: the vested amount, or
/// what was already withdrawn if that is more.
pub open spec fn cancel_kept(s: Stream, v: i128) -> i128 {
    if v > s.withdrawn {
        v
    } else {
        s.withdrawn
    }
}

/// `cancel(id, caller)` at ledger time `now` on `found`, the active stream
/// stored under `id`: the recipient is paid `max(0, vested - withdrawn)`,
/// the sender gets back `total - max(vested, withdrawn)`, and the stream
/// ends cancelled with `max(vested, withdrawn)` withdrawn.
pub open spec fn cancel_step(c: Config, found: Option<Stream>, id: u64, caller: Account, now: u64) -> Result<(Config, Stream, Seq<Effect>), Error> {
    if found is None {
        Err(Error::StreamNotFound)
    } else {
        let s = found->0;
        if caller.key() != s.sender.key() && caller.key() != s.recipient.key() {
            Err(Error::Unauthorized)
        } else if s.status == Status::Cancelled {
            Err(Error::AlreadyCancelled)
        } else if s.status == Status::Completed {
            Err(Error::AlreadyCompleted)
        } else if vested_amount(s, now) is Err {
            Err(vested_amount(s, now)->Err_0)
        } else {
            let v = vested_amount(s, now)->Ok_0;
            let kept = cancel_kept(s, v);
            let paid: int = if v > s.withdrawn { v - s.withdrawn } else { 0 };
            if !fits_i128(paid) {
                Err(Error::Overflow)
            } else if !fits_i128(s.total - kept) {
                Err(Error::Overflow)
            } else {
                let refund = (s.total - kept) as i128;
                let paid = paid as i128;
                if !fits_i128(paid + refund) {
                    Err(Error::Overflow)
                } else if !fits_i128(c.total_supply - (paid + refund)) {
                    Err(Error::Overflow)
                } else {
                    Ok((
                        Config { total_supply: (c.total_supply - (paid + refund)) as i128, ..c },
                        Stream { withdrawn: kept, status: Status::Cancelled, ..s },
                        seq![Effect::RequireAuth(caller), Effect::ExtendPersistent { key: DataKey::Stream(id), threshold: BUMP_THRESHOLD, extend_to: BUMP_EXTEND }]
                            + cancel_payouts(s, paid, refund)
                            + seq![Effect::Publish(Event::Cancelled { id, caller, sender_refund: refund, recipient_paid: paid })],
                    ))
                }
            }
        }
    }
}

/// The first refusal among `reqs`, checking them in order; `None` when all
/// are acceptable.
pub open spec fn batch_error(now: u64, reqs: Seq<StreamRequest>) -> Option<Error>
    decreases reqs.len(),
{
    if reqs.len() == 0 {
        None
    } else if batch_error(now, reqs.drop_last()) is Some {
        batch_error(now, reqs.drop_last())
    } else {
        request_error(now, reqs.last().total_amount, reqs.last().start_time, reqs.last().end_time)
    }
}

/// The sum of the amounts of `reqs`.
pub open spec fn batch_total(reqs: Seq<StreamRequest>) -> int
    decreases reqs.len(),
{
    if reqs.len() == 0 {
        0
    } else {
        batch_total(reqs.drop_last()) + reqs.last().total_amount
    }
}

/// The streams that the requests `reqs` of `sender` open at `now`, in order.
pub open spec fn batch_streams(sender: Account, now: u64, reqs: Seq<StreamRequest>) -> Seq<Stream> {
    Seq::new(
        reqs.len(),
        |i: int| new_stream(sender, reqs[i].recipient, reqs[i].total_amount, normalized_start(now, reqs[i].start_time), reqs[i].end_time),
    )
}

/// The effects of a batch whose first stream gets the id `first`: one
/// authorization, one escrow of the whole amount, a time-to-live extension
/// per stream and for the instance, then one `created` event per stream.
pub open spec fn batch_effects(first: u64, sender: Account, reqs: Seq<StreamRequest>) -> Seq<Effect> {
    seq![Effect::RequireAuth(sender), Effect::Escrow { from: sender, amount: batch_total(reqs) as i128 }]
        + Seq::new(reqs.len(), |i: int| Effect::ExtendPersistent { key: DataKey::Stream((first + i) as u64), threshold: BUMP_THRESHOLD, extend_to: BUMP_EXTEND })
        + seq![Effect::ExtendInstance { threshold: BUMP_THRESHOLD, extend_to: BUMP_EXTEND }]
        + Seq::new(
            reqs.len(),
            |i: int| Effect::Publish(Event::Created {
                id: (first + i) as u64,
                sender,
                recipient: reqs[i].recipient,
                total: reqs[i].total_amount,
            }),
        )
}

/// `create_stream_batch(sender, requests)` at ledger time `now`: all the
/// requests are checked before anything happens; the streams get the ids
/// `c.counter ..`, in order.
pub open spec fn batch_step(c: Config, now: u64, sender: Account, reqs: Seq<StreamRequest>) -> Result<(Config, Seq<Stream>, Seq<Effect>), Error> {
    if c.admin is None {
        Err(Error::NotInitialized)
    } else if reqs.len() == 0 {
        Err(Error::EmptyBatch)
    } else if batch_error(now, reqs) is Some {
        Err(batch_error(now, reqs)->0)
    } else if !fits_i128(batch_total(reqs)) {
        Err(Error::Overflow)
    } else if !fits_i128(c.total_supply + batch_total(reqs)) {
        Err(Error::Overflow)
    } else if c.total_supply + batch_total(reqs) > c.supply_cap {
        Err(Error::SupplyCapExceeded)
    } else if c.counter + reqs.len() > u64::MAX {
        Err(Error::Overflow)
    } else {
        Ok((
            Config {
                counter: (c.counter + reqs.len()) as u64,
                total_supply: (c.total_supply + batch_total(reqs)) as i128,
                ..c
            },
            batch_streams(sender, now, reqs),
            batch_effects(c.counter, sender, reqs),
        ))
    }
}

/// Every request of a batch that passes its checks is acceptable on its own.
pub proof fn lemma_batch_requests_valid(now: u64, reqs: Seq<StreamRequest>)
    requires
        batch_error(now, reqs) is None,
    ensures
        forall|i: int| 0 <= i < reqs.len() ==> (#[trigger] request_error(now, reqs[i].total_amount, reqs[i].start_time, reqs[i].end_time)) is None,
        forall|i: int| 0 <= i < reqs.len() ==> #[trigger] reqs[i].total_amount >= 1,
    decreases reqs.len(),
{
    if reqs.len() > 0 {
        lemma_batch_requests_valid(now, reqs.drop_last());
        assert forall|i: int| 0 <= i < reqs.len() implies (#[trigger] request_error(now, reqs[i].total_amount, reqs[i].start_time, reqs[i].end_time)) is None by {
            if i < reqs.len() - 1 {
                assert(reqs[i] == reqs.drop_last()[i]);
            }
        }
        assert forall|i: int| 0 <= i < reqs.len() implies #[trigger] reqs[i].total_amount >= 1 by {
            assert(request_error(now, reqs[i].total_amount, reqs[i].start_time, reqs[i].end_time) is None);
        }
    }
}

/// With non-negative amounts, the sum of a prefix of a batch is at most the
/// sum of the whole batch, and not negative.
pub proof fn lemma_batch_total_prefix(reqs: Seq<StreamRequest>, k: int)
    requires
        0 <= k <= reqs.len(),
        forall|i: int| 0 <= i < reqs.len() ==> #[trigger] reqs[i].total_amount >= 0,
    ensures
        0 <= batch_total(reqs.take(k)) <= batch_total(reqs),
    decreases reqs.len(),
{
    if k == reqs.len() {
        assert(reqs.take(k) =~= reqs);
        if reqs.len() > 0 {
            lemma_batch_total_prefix(reqs.drop_last(), k - 1);
            assert(reqs.drop_last().take(k - 1) =~= reqs.drop_last());
        }
    } else {
        let d = reqs.drop_last();
        assert forall|i: int| 0 <= i < d.len() implies #[trigger] d[i].total_amount >= 0 by {
            assert(d[i] == reqs[i]);
        }
        lemma_batch_total_prefix(d, k);
        assert(d.take(k) =~= reqs.take(k));
        if d.len() > 0 {
            lemma_batch_total_prefix(d.drop_last(), 0);
        }
        assert(reqs.last().total_amount >= 0);
    }
}

/// A refusal found in a prefix of a batch is the refusal of every batch that
/// extends it.
pub proof fn lemma_batch_error_keeps_first(now: u64, prefix: Seq<StreamRequest>, rest: Seq<StreamRequest>)
    requires
        batch_error(now, prefix) is Some,
    ensures
        batch_error(now, prefix + rest) == batch_error(now, prefix),
    decreases rest.len(),
{
    if rest.len() > 0 {
        lemma_batch_error_keeps_first(now, prefix, rest.drop_last());
        assert((prefix + rest).drop_last() =~= prefix + rest.drop_last());
    } else {
        assert(prefix + rest =~= prefix);
    }
}

impl Config {
    /// The configuration of a contract that has not been initialized.
    pub fn new() -> (r: Config)
        ensures
            r == blank_config(),
    {
        Config {
            admin: None,
            token: None,
            pending_admin: None,
            execute_after: None,
            counter: 0,
            supply_cap: i128::MAX,
            total_supply: 0,
        }
    }

    /// Whether the contract has been initialized.
    pub fn is_initialized(&self) -> (r: bool)
        ensures
            r == (self.admin is Some),
    {
        self.admin.is_some()
    }

    /// Records the admin and the streamed token; fails with
    /// `AlreadyInitialized` once the contract has an admin.
    pub fn initialize(&mut self, admin: Account, token: Account, fx: &mut Vec<Effect>) -> (r: Result<(), Error>)
        ensures
            match initialize_step(*old(self), admin, token) {
                Ok((c, e)) => r is Ok && *final(self) == c && final(fx)@ == old(fx)@ + e,
                Err(err) => r == Err::<(), Error>(err) && *final(self) == *old(self) && final(fx)@ == old(fx)@,
            },
    {
        if self.admin.is_some() {
            return Err(Error::AlreadyInitialized);
        }
        self.admin = Some(admin);
        self.token = Some(token);
        self.counter = 0;
        self.supply_cap = i128::MAX;
        self.total_supply = 0;
        fx.push(Effect::ExtendInstance { threshold: BUMP_THRESHOLD, extend_to: BUMP_EXTEND });
        Ok(())
    }

    /// Returns the admin, or `NotInitialized`.
    pub fn get_admin(&self) -> (r: Result<Account, Error>)
        ensures
            r == (match self.admin {
                Some(a) => Ok(a),
                None => Err(Error::NotInitialized),
            }),
    {
        match &self.admin {
            Some(a) => Ok(a.clone()),
            None => Err(Error::NotInitialized),
        }
    }

    /// Returns the streamed token, or `NotInitialized`.
    pub fn get_token(&self) -> (r: Result<Account, Error>)
        ensures
            r == (match self.admin {
                Some(_) => match self.token {
                    Some(t) => Ok(t),
                    None => Err(Error::NotInitialized),
                },
                None => Err(Error::NotInitialized),
            }),
    {
        if self.admin.is_none() {
            return Err(Error::NotInitialized);
        }
        match &self.token {
            Some(t) => Ok(t.clone()),
            None => Err(Error::NotInitialized),
        }
    }

    /// Returns the account of the scheduled admin transfer, if any, or
    /// `NotInitialized`.
    pub fn get_pending_admin(&self) -> (r: Result<Option<Account>, Error>)
        ensures
            r == (if self.admin is Some {
                Ok(self.pending_admin)
            } else {
                Err::<Option<Account>, Error>(Error::NotInitialized)
            }),
    {
        if self.admin.is_none() {
            return Err(Error::NotInitialized);
        }
        Ok(clone_account_opt(&self.pending_admin))
    }

    /// Returns when the scheduled admin transfer may execute, if any, or
    /// `NotInitialized`.
    pub fn get_admin_action_execute_after(&self) -> (r: Result<Option<u64>, Error>)
        ensures
            r == (if self.admin is Some {
                Ok(self.execute_after)
            } else {
                Err::<Option<u64>, Error>(Error::NotInitialized)
            }),
    {
        if self.admin.is_none() {
            return Err(Error::NotInitialized);
        }
        Ok(self.execute_after)
    }

    /// Queues a transfer of the admin role to `new_admin`, executable from
    /// `now + ADMIN_TIMELOCK_DELAY` on; replaces any earlier scheduled one.
    pub fn schedule_admin_transfer(&mut self, now: u64, admin: Account, new_admin: Account, fx: &mut Vec<Effect>) -> (r: Result<u64, Error>)
        ensures
            match schedule_step(*old(self), now, admin, new_admin) {
                Ok((c, e, t)) => r == Ok::<u64, Error>(t) && *final(self) == c && final(fx)@ == old(fx)@ + e,
                Err(err) => r == Err::<u64, Error>(err) && *final(self) == *old(self) && final(fx)@ == old(fx)@ + caller_demand(*old(self), admin),
            },
    {
        let current = match &self.admin {
            Some(a) => a,
            None => return Err(Error::NotInitialized),
        };
        fx.push(Effect::RequireAuth(admin.clone()));
        if !admin.same_as(current) {
            return Err(Error::Unauthorized);
        }
        if new_admin.same_as(&admin) {
            return Err(Error::InvalidAdminAction);
        }
        let execute_after = match now.checked_add(ADMIN_TIMELOCK_DELAY) {
            Some(t) => t,
            None => return Err(Error::Overflow),
        };
        self.pending_admin = Some(new_admin.clone());
        self.execute_after = Some(execute_after);
        fx.push(Effect::ExtendInstance { threshold: BUMP_THRESHOLD, extend_to: BUMP_EXTEND });
        fx.push(Effect::Publish(Event::AdminScheduled { current_admin: admin, pending_admin: new_admin, execute_after }));
        Ok(execute_after)
    }

    /// Promotes the scheduled admin once its timelock has expired; anyone may
    /// call it.
    pub fn execute_admin_transfer(&mut self, now: u64, fx: &mut Vec<Effect>) -> (r: Result<(), Error>)
        ensures
            match execute_step(*old(self), now) {
                Ok((c, e)) => r is Ok && *final(self) == c && final(fx)@ == old(fx)@ + e,
                Err(err) => r == Err::<(), Error>(err) && *final(self) == *old(self) && final(fx)@ == old(fx)@,
            },
    {
        let previous = match &self.admin {
            Some(a) => a.clone(),
            None => return Err(Error::NotInitialized),
        };
        let pending = match &self.pending_admin {
            Some(p) => p.clone(),
            None => return Err(Error::NoPendingAdminAction),
        };
        let execute_after = match self.execute_after {
            Some(t) => t,
            None => return Err(Error::NoPendingAdminAction),
        };
        if now < execute_after {
            return Err(Error::TimelockNotExpired);
        }
        self.admin = Some(pending.clone());
        self.pending_admin = None;
        self.execute_after = None;
        fx.push(Effect::ExtendInstance { threshold: BUMP_THRESHOLD, extend_to: BUMP_EXTEND });
        fx.push(Effect::Publish(Event::AdminTransfer { previous_admin: previous, new_admin: pending }));
        Ok(())
    }

    /// Drops the scheduled admin transfer; only the current admin may.
    pub fn cancel_admin_transfer(&mut self, admin: Account, fx: &mut Vec<Effect>) -> (r: Result<(), Error>)
        ensures
            match cancel_admin_step(*old(self), admin) {
                Ok((c, e)) => r is Ok && *final(self) == c && final(fx)@ == old(fx)@ + e,
                Err(err) => r == Err::<(), Error>(err) && *final(self) == *old(self) && final(fx)@ == old(fx)@ + caller_demand(*old(self), admin),
            },
    {
        let current = match &self.admin {
            Some(a) => a,
            None => return Err(Error::NotInitialized),
        };
        fx.push(Effect::RequireAuth(admin.clone()));
        if !admin.same_as(current) {
            return Err(Error::Unauthorized);
        }
        if self.pending_admin.is_none() {
            return Err(Error::NoPendingAdminAction);
        }
        self.pending_admin = None;
        self.execute_after = None;
        fx.push(Effect::ExtendInstance { threshold: BUMP_THRESHOLD, extend_to: BUMP_EXTEND });
        fx.push(Effect::Publish(Event::AdminCancelled { admin }));
        Ok(())
    }

    /// Hands the admin role to `new_admin` at once, with the current admin's
    /// authorization.
    pub fn set_admin(&mut self, new_admin: Account, fx: &mut Vec<Effect>) -> (r: Result<(), Error>)
        ensures
            match set_admin_step(*old(self), new_admin) {
                Ok((c, e)) => r is Ok && *final(self) == c && final(fx)@ == old(fx)@ + e,
                Err(err) => r == Err::<(), Error>(err) && *final(self) == *old(self) && final(fx)@ == old(fx)@ + demand(old(self).admin),
            },
    {
        let current = match &self.admin {
            Some(a) => a.clone(),
            None => return Err(Error::NotInitialized),
        };
        fx.push(Effect::RequireAuth(current.clone()));
        self.admin = Some(new_admin.clone());
        fx.push(Effect::ExtendInstance { threshold: BUMP_THRESHOLD, extend_to: BUMP_EXTEND });
        fx.push(Effect::Publish(Event::AdminChanged { old_admin: current, new_admin }));
        Ok(())
    }

    /// Sets the cap on the total escrowed amount; the cap must be positive.
    pub fn set_supply_cap(&mut self, new_cap: i128, fx: &mut Vec<Effect>) -> (r: Result<(), Error>)
        ensures
            match set_supply_cap_step(*old(self), new_cap) {
                Ok((c, e)) => r is Ok && *final(self) == c && final(fx)@ == old(fx)@ + e,
                Err(err) => r == Err::<(), Error>(err) && *final(self) == *old(self) && final(fx)@ == old(fx)@ + demand(old(self).admin),
            },
    {
        let current = match &self.admin {
            Some(a) => a.clone(),
            None => return Err(Error::NotInitialized),
        };
        fx.push(Effect::RequireAuth(current.clone()));
        if new_cap <= 0 {
            return Err(Error::InvalidAmount);
        }
        let old_cap = self.supply_cap;
        self.supply_cap = new_cap;
        fx.push(Effect::ExtendInstance { threshold: BUMP_THRESHOLD, extend_to: BUMP_EXTEND });
        fx.push(Effect::Publish(Event::SupplyCapUpdated { admin: current, old_cap, new_cap }));
        Ok(())
    }

    /// Replaces the contract's code, with the admin's authorization.
    pub fn upgrade(&self, wasm_hash: [u8; 32], fx: &mut Vec<Effect>) -> (r: Result<(), Error>)
        ensures
            match upgrade_step(*self, wasm_hash) {
                Ok((c, e)) => r is Ok && c == *self && final(fx)@ == old(fx)@ + e,
                Err(err) => r == Err::<(), Error>(err) && final(fx)@ == old(fx)@ + demand(self.admin),
            },
    {
        let current = match &self.admin {
            Some(a) => a.clone(),
            None => return Err(Error::NotInitialized),
        };
        fx.push(Effect::RequireAuth(current));
        fx.push(Effect::UpdateCode(wasm_hash));
        fx.push(Effect::Publish(Event::Upgraded { wasm_hash }));
        Ok(())
    }

    /// Why the request `(amount, start_time, end_time)` at `now` is refused,
    /// if it is.
    pub fn check_request(now: u64, amount: i128, start_time: u64, end_time: u64) -> (r: Option<Error>)
        ensures
            r == request_error(now, amount, start_time, end_time),
    {
        let start = normalize_start_time(now, start_time);
        if !is_valid_amount(amount) {
            return Some(Error::InvalidAmount);
        }
        if amount < MIN_STREAM_AMOUNT {
            return Some(Error::AmountBelowMinimum);
        }
        if end_time <= start {
            return Some(Error::InvalidTimeRange);
        }
        if end_time <= now {
            return Some(Error::EndTimeInPast);
        }
        None
    }

    /// Opens a stream of `amount` from `sender` to `recipient`, vesting from
    /// `start_time` (`0` meaning `now`) to `end_time`; returns its id and the
    /// stream to store under it.
    pub fn create_stream(
        &mut self,
        now: u64,
        sender: Account,
        recipient: Account,
        amount: i128,
        start_time: u64,
        end_time: u64,
        fx: &mut Vec<Effect>,
    ) -> (r: Result<(u64, Stream), Error>)
        ensures
            match create_step(*old(self), now, sender, recipient, amount, start_time, end_time) {
                Ok((c, st, e)) => r == Ok::<(u64, Stream), Error>((old(self).counter, st)) && *final(self) == c
                    && final(fx)@ == old(fx)@ + e,
                Err(err) => r == Err::<(u64, Stream), Error>(err) && *final(self) == *old(self) && final(fx)@ == old(fx)@ + caller_demand(*old(self), sender),
            },
    {
        if self.admin.is_none() {
            return Err(Error::NotInitialized);
        }
        fx.push(Effect::RequireAuth(sender.clone()));
        if let Some(e) = Config::check_request(now, amount, start_time, end_time) {
            return Err(e);
        }
        let new_supply = match self.total_supply.checked_add(amount) {
            Some(t) => t,
            None => return Err(Error::Overflow),
        };
        if new_supply > self.supply_cap {
            return Err(Error::SupplyCapExceeded);
        }
        let id = self.counter;
        let next = match id.checked_add(1) {
            Some(n) => n,
            None => return Err(Error::Overflow),
        };
        let stream = Stream {
            sender: sender.clone(),
            recipient: recipient.clone(),
            total: amount,
            withdrawn: 0,
            start: normalize_start_time(now, start_time),
            end: end_time,
            status: Status::Active,
        };
        self.counter = next;
        self.total_supply = new_supply;
        fx.push(Effect::Escrow { from: sender.clone(), amount });
        fx.push(Effect::ExtendPersistent { key: DataKey::Stream(id), threshold: BUMP_THRESHOLD, extend_to: BUMP_EXTEND });
        fx.push(Effect::ExtendInstance { threshold: BUMP_THRESHOLD, extend_to: BUMP_EXTEND });
        fx.push(Effect::Publish(Event::Created { id, sender, recipient, total: amount }));
        Ok((id, stream))
    }

    /// Adds `amount` to the escrow of the active stream `found` (stored under
    /// `id`); returns the new total and the updated stream.
    pub fn top_up(&mut self, found: Option<&Stream>, id: u64, sender: Account, amount: i128, fx: &mut Vec<Effect>) -> (r: Result<(i128, Stream), Error>)
        ensures
            match top_up_step(*old(self), match found { Some(s) => Some(*s), None => None }, id, sender, amount) {
                Ok((c, st, e, t)) => r == Ok::<(i128, Stream), Error>((t, st)) && *final(self) == c
                    && final(fx)@ == old(fx)@ + e,
                Err(err) => r == Err::<(i128, Stream), Error>(err) && *final(self) == *old(self) && final(fx)@ == old(fx)@ + seq![Effect::RequireAuth(sender)],
            },
    {
        fx.push(Effect::RequireAuth(sender.clone()));
        if !is_valid_amount(amount) {
            return Err(Error::InvalidAmount);
        }
        let s = match found {
            Some(s) => s,
            None => return Err(Error::StreamNotFound),
        };
        if !sender.same_as(&s.sender) {
            return Err(Error::Unauthorized);
        }
        if s.status != Status::Active {
            return Err(Error::StreamNotActive);
        }
        let new_total = match s.total.checked_add(amount) {
            Some(t) => t,
            None => return Err(Error::Overflow),
        };
        let new_supply = match self.total_supply.checked_add(amount) {
            Some(t) => t,
            None => return Err(Error::Overflow),
        };
        if new_supply > self.supply_cap {
            return Err(Error::SupplyCapExceeded);
        }
        let mut updated = s.clone();
        updated.total = new_total;
        self.total_supply = new_supply;
        fx.push(Effect::Escrow { from: sender.clone(), amount });
        fx.push(Effect::ExtendPersistent { key: DataKey::Stream(id), threshold: BUMP_THRESHOLD, extend_to: BUMP_EXTEND });
        fx.push(Effect::ExtendInstance { threshold: BUMP_THRESHOLD, extend_to: BUMP_EXTEND });
        fx.push(Effect::Publish(Event::ToppedUp { id, sender, amount, new_total }));
        Ok((new_total, updated))
    }

    /// Pushes the end of the active stream `found` (stored under `id`) back
    /// to `new_end`; returns the updated stream.
    pub fn extend_stream(&self, found: Option<&Stream>, id: u64, sender: Account, new_end: u64, fx: &mut Vec<Effect>) -> (r: Result<Stream, Error>)
        ensures
            match extend_step(*self, match found { Some(s) => Some(*s), None => None }, id, sender, new_end) {
                Ok((c, st, e)) => r == Ok::<Stream, Error>(st) && c == *self && final(fx)@ == old(fx)@ + e,
                Err(err) => r == Err::<Stream, Error>(err) && final(fx)@ == old(fx)@ + seq![Effect::RequireAuth(sender)],
            },
    {
        fx.push(Effect::RequireAuth(sender.clone()));
        let s = match found {
            Some(s) => s,
            None => return Err(Error::StreamNotFound),
        };
        if !sender.same_as(&s.sender) {
            return Err(Error::Unauthorized);
        }
        if s.status != Status::Active {
            return Err(Error::StreamNotActive);
        }
        if new_end <= s.end {
            return Err(Error::InvalidTimeRange);
        }
        let old_end = s.end;
        let mut updated = s.clone();
        updated.end = new_end;
        fx.push(Effect::ExtendPersistent { key: DataKey::Stream(id), threshold: BUMP_THRESHOLD, extend_to: BUMP_EXTEND });
        fx.push(Effect::ExtendInstance { threshold: BUMP_THRESHOLD, extend_to: BUMP_EXTEND });
        fx.push(Effect::Publish(Event::Extended { id, sender, old_end, new_end }));
        Ok(updated)
    }

    /// Pays the recipient of `found` (stored under `id`) what has vested and
    /// not been withdrawn at `now`; returns the amount and the updated stream.
    pub fn withdraw(&mut self, found: Option<&Stream>, id: u64, recipient: Account, now: u64, fx: &mut Vec<Effect>) -> (r: Result<(i128, Stream), Error>)
        ensures
            match withdraw_step(*old(self), match found { Some(s) => Some(*s), None => None }, id, recipient, now) {
                Ok((c, st, e, a)) => r == Ok::<(i128, Stream), Error>((a, st)) && *final(self) == c
                    && final(fx)@ == old(fx)@ + e,
                Err(err) => r == Err::<(i128, Stream), Error>(err) && *final(self) == *old(self) && final(fx)@ == old(fx)@ + seq![Effect::RequireAuth(recipient)],
            },
    {
        fx.push(Effect::RequireAuth(recipient.clone()));
        let s = match found {
            Some(s) => s,
            None => return Err(Error::StreamNotFound),
        };
        if !s.recipient.same_as(&recipient) {
            return Err(Error::Unauthorized);
        }
        if s.status == Status::Cancelled {
            return Err(Error::AlreadyCancelled);
        }
        if s.status == Status::Completed {
            return Err(Error::AlreadyCompleted);
        }
        let available = withdrawable(s, now)?;
        if available <= 0 {
            return Err(Error::NothingToWithdraw);
        }
        let new_withdrawn = match s.withdrawn.checked_add(available) {
            Some(w) => w,
            None => return Err(Error::Overflow),
        };
        let new_supply = match self.total_supply.checked_sub(available) {
            Some(t) => t,
            None => return Err(Error::Overflow),
        };
        let mut updated = s.clone();
        updated.withdrawn = new_withdrawn;
        if new_withdrawn >= s.total {
            updated.status = Status::Completed;
        }
        self.total_supply = new_supply;
        fx.push(Effect::ExtendPersistent { key: DataKey::Stream(id), threshold: BUMP_THRESHOLD, extend_to: BUMP_EXTEND });
        fx.push(Effect::Payout { to: recipient.clone(), amount: available });
        fx.push(Effect::Publish(Event::Withdrawn { id, recipient, amount: available }));
        Ok((available, updated))
    }

    /// Cancels the active stream `found` (stored under `id`) at `now`: the
    /// recipient is paid what vested beyond what was withdrawn, the sender is
    /// refunded the rest of the stream's escrow; returns the updated stream.
    pub fn cancel(&mut self, found: Option<&Stream>, id: u64, caller: Account, now: u64, fx: &mut Vec<Effect>) -> (r: Result<Stream, Error>)
        ensures
            match cancel_step(*old(self), match found { Some(s) => Some(*s), None => None }, id, caller, now) {
                Ok((c, st, e)) => r == Ok::<Stream, Error>(st) && *final(self) == c && final(fx)@ == old(fx)@ + e,
                Err(err) => r == Err::<Stream, Error>(err) && *final(self) == *old(self) && final(fx)@ == old(fx)@ + seq![Effect::RequireAuth(caller)],
            },
    {
        fx.push(Effect::RequireAuth(caller.clone()));
        let s = match found {
            Some(s) => s,
            None => return Err(Error::StreamNotFound),
        };
        if !caller.same_as(&s.sender) && !caller.same_as(&s.recipient) {
            return Err(Error::Unauthorized);
        }
        if s.status == Status::Cancelled {
            return Err(Error::AlreadyCancelled);
        }
        if s.status == Status::Completed {
            return Err(Error::AlreadyCompleted);
        }
        let v = vested(s, now)?;
        let (recipient_paid, kept) = if v > s.withdrawn {
            match v.checked_sub(s.withdrawn) {
                Some(p) => (p, v),
                None => return Err(Error::Overflow),
            }
        } else {
            (0, s.withdrawn)
        };
        let sender_refund = match s.total.checked_sub(kept) {
            Some(r) => r,
            None => return Err(Error::Overflow),
        };
        let released = match recipient_paid.checked_add(sender_refund) {
            Some(x) => x,
            None => return Err(Error::Overflow),
        };
        let new_supply = match self.total_supply.checked_sub(released) {
            Some(t) => t,
            None => return Err(Error::Overflow),
        };
        let mut updated = s.clone();
        updated.withdrawn = kept;
        updated.status = Status::Cancelled;
        self.total_supply = new_supply;
        fx.push(Effect::ExtendPersistent { key: DataKey::Stream(id), threshold: BUMP_THRESHOLD, extend_to: BUMP_EXTEND });
        let ghost mid = fx@;
        if recipient_paid > 0 {
            fx.push(Effect::Payout { to: s.recipient.clone(), amount: recipient_paid });
        }
        if sender_refund > 0 {
            fx.push(Effect::Payout { to: s.sender.clone(), amount: sender_refund });
        }
        assert(fx@ == mid + cancel_payouts(*s, recipient_paid, sender_refund));
        fx.push(Effect::Publish(Event::Cancelled { id, caller, sender_refund, recipient_paid }));
        Ok(updated)
    }

    /// Opens one stream per request of `sender`, all or none: every request
    /// is checked first, then the whole amount is escrowed at once; returns
    /// the new ids `counter ..` and the streams to store under them, in
    /// order.
    pub fn create_stream_batch(&mut self, now: u64, sender: Account, requests: &Vec<StreamRequest>, fx: &mut Vec<Effect>) -> (r: Result<(Vec<u64>, Vec<Stream>), Error>)
        ensures
            match batch_step(*old(self), now, sender, requests@) {
                Ok((c, sts, e)) => r is Ok && r->Ok_0.0@ == Seq::new(requests@.len(), |i: int| (old(self).counter + i) as u64)
                    && r->Ok_0.1@ == sts && *final(self) == c && final(fx)@ == old(fx)@ + e,
                Err(err) => r is Err && r->Err_0 == err && *final(self) == *old(self) && final(fx)@ == old(fx)@ + caller_demand(*old(self), sender),
            },
    {
        if self.admin.is_none() {
            return Err(Error::NotInitialized);
        }
        let ghost before = fx@;
        fx.push(Effect::RequireAuth(sender.clone()));
        let n = requests.len();
        if n == 0 {
            return Err(Error::EmptyBatch);
        }
        let mut i: usize = 0;
        while i < n
            invariant
                n == requests@.len(),
                0 <= i <= n,
                batch_error(now, requests@.take(i as int)) is None,
                old(self).admin is Some,
                *self == *old(self),
                fx@ == old(fx)@ + seq![Effect::RequireAuth(sender)],
            decreases n - i,
        {
            let req = &requests[i];
            proof {
                assert(requests@.take(i + 1).drop_last() =~= requests@.take(i as int));
                assert(requests@.take(i + 1).last() == requests@[i as int]);
            }
            if let Some(e) = Config::check_request(now, req.total_amount, req.start_time, req.end_time) {
                proof {
                    let p = requests@.take(i as int);
                    let rest = requests@.skip(i + 1);
                    assert(requests@.take(i + 1) + rest =~= requests@);
                    lemma_batch_error_keeps_first(now, requests@.take(i + 1), rest);
                }
                return Err(e);
            }
            i = i + 1;
        }
        proof {
            assert(requests@.take(n as int) =~= requests@);
            lemma_batch_requests_valid(now, requests@);
        }
        let mut total: i128 = 0;
        let mut j: usize = 0;
        while j < n
            invariant
                n == requests@.len(),
                0 <= j <= n,
                total == batch_total(requests@.take(j as int)),
                forall|k: int| 0 <= k < requests@.len() ==> #[trigger] requests@[k].total_amount >= 1,
                old(self).admin is Some,
                batch_error(now, requests@) is None,
                *self == *old(self),
                fx@ == old(fx)@ + seq![Effect::RequireAuth(sender)],
            decreases n - j,
        {
            proof {
                assert(requests@.take(j + 1).drop_last() =~= requests@.take(j as int));
                assert(requests@.take(j + 1).last() == requests@[j as int]);
                lemma_batch_total_prefix(requests@, j + 1);
                assert(batch_total(requests@.take(j + 1)) == total + requests@[j as int].total_amount);
            }
            total = match total.checked_add(requests[j].total_amount) {
                Some(t) => t,
                None => return Err(Error::Overflow),
            };
            j = j + 1;
        }
        proof {
            assert(requests@.take(n as int) =~= requests@);
        }
        let new_supply = match self.total_supply.checked_add(total) {
            Some(t) => t,
            None => return Err(Error::Overflow),
        };
        if new_supply > self.supply_cap {
            return Err(Error::SupplyCapExceeded);
        }
        let first = self.counter;
        let next = match first.checked_add(n as u64) {
            Some(x) => x,
            None => return Err(Error::Overflow),
        };
        let ghost reqs = requests@;
        fx.push(Effect::Escrow { from: sender.clone(), amount: total });
        let mut streams: Vec<Stream> = Vec::new();
        let mut ids: Vec<u64> = Vec::new();
        let mut k: usize = 0;
        while k < n
            invariant
                n == reqs.len(),
                reqs == requests@,
                0 <= k <= n,
                first + n <= u64::MAX,
                total == batch_total(reqs),
                streams@ =~= batch_streams(sender, now, reqs).take(k as int),
                ids@ =~= Seq::new(k as nat, |x: int| (first + x) as u64),
                fx@ =~= before + seq![Effect::RequireAuth(sender), Effect::Escrow { from: sender, amount: total }]
                    + Seq::new(k as nat, |x: int| Effect::ExtendPersistent { key: DataKey::Stream((first + x) as u64), threshold: BUMP_THRESHOLD, extend_to: BUMP_EXTEND }),
            decreases n - k,
        {
            let req = &requests[k];
            streams.push(Stream {
                sender: sender.clone(),
                recipient: req.recipient.clone(),
                total: req.total_amount,
                withdrawn: 0,
                start: normalize_start_time(now, req.start_time),
                end: req.end_time,
                status: Status::Active,
            });
            ids.push(first + k as u64);
            fx.push(Effect::ExtendPersistent { key: DataKey::Stream(first + k as u64), threshold: BUMP_THRESHOLD, extend_to: BUMP_EXTEND });
            k = k + 1;
        }
        fx.push(Effect::ExtendInstance { threshold: BUMP_THRESHOLD, extend_to: BUMP_EXTEND });
        let ghost mid = fx@;
        let mut m: usize = 0;
        while m < n
            invariant
                n == reqs.len(),
                reqs == requests@,
                0 <= m <= n,
                first + n <= u64::MAX,
                fx@ =~= mid + Seq::new(
                    m as nat,
                    |x: int| Effect::Publish(Event::Created {
                        id: (first + x) as u64,
                        sender,
                        recipient: reqs[x].recipient,
                        total: reqs[x].total_amount,
                    }),
                ),
            decreases n - m,
        {
            let req = &requests[m];
            fx.push(Effect::Publish(Event::Created {
                id: first + m as u64,
                sender: sender.clone(),
                recipient: req.recipient.clone(),
                total: req.total_amount,
            }));
            m = m + 1;
        }
        self.counter = next;
        self.total_supply = new_supply;
        proof {
            assert(streams@ =~= batch_streams(sender, now, reqs));
            assert(fx@ =~= before + batch_effects(first, sender, reqs));
        }
        Ok((ids, streams))
    }
}

} // verus!
