//! The whole contract as one value: its configuration, every stream it has
//! opened (the stream with id `i` at index `i`), and the effects its calls
//! have asked of the environment and that have not been collected yet.
//!
//! Every entrypoint keeps the contract's invariant: the escrow that the
//! contract accounts for equals the unpaid balance of its active streams.

use vstd::prelude::*;
use crate::config::{
    batch_step, batch_streams, caller_demand, demand, batch_total, blank_config, cancel_admin_step, cancel_step, create_step, execute_step,
    extend_step, initialize_step, lemma_batch_requests_valid, request_error, schedule_step, set_admin_step,
    set_supply_cap_step, top_up_step, upgrade_step, withdraw_step, Config,
};
use crate::effects::Effect;
use crate::error::Error;
use crate::types::{Account, Status, Stream, StreamRequest, StreamSummary};
use crate::views;
use crate::vesting::{lemma_vested_bounds, vested_amount, withdrawable_at};

verus! {

/// The abstract state of the contract.
pub struct ContractState {
    pub config: Config,
    pub streams: Seq<Stream>,
    pub outbox: Seq<Effect>,
}

/// What `s` still holds in escrow: its unpaid balance while it is active,
/// nothing once it is cancelled or completed.
pub open spec fn escrow_of(s: Stream) -> int {
    if s.status == Status::Active {
        s.total - s.withdrawn
    } else {
        0
    }
}

/// The escrow held for all of `streams`.
pub open spec fn escrow_balance(streams: Seq<Stream>) -> int
    decreases streams.len(),
{
    if streams.len() == 0 {
        0
    } else {
        escrow_balance(streams.drop_last()) + escrow_of(streams.last())
    }
}

/// A stored stream is well formed: a non-empty window, a positive total, a
/// withdrawn amount between zero and the total, equal to it once completed.
pub open spec fn stream_ok(s: Stream) -> bool {
    &&& s.start < s.end
    &&& s.total >= 1
    &&& 0 <= s.withdrawn <= s.total
    &&& s.status == Status::Completed ==> s.withdrawn == s.total
}

/// The invariant of the contract.
pub open spec fn state_ok(st: ContractState) -> bool {
    &&& st.config.counter == st.streams.len()
    &&& forall|i: int| 0 <= i < st.streams.len() ==> stream_ok(#[trigger] st.streams[i])
    &&& st.config.total_supply == escrow_balance(st.streams)
    &&& st.config.supply_cap > 0
    &&& st.config.admin is None ==> st.streams.len() == 0
    &&& (st.config.admin is Some) == (st.config.token is Some)
    &&& (st.config.pending_admin is Some) == (st.config.execute_after is Some)
}

/// The stream stored under `id`, if any.
pub open spec fn stream_at(st: ContractState, id: u64) -> Option<Stream> {
    if id < st.streams.len() {
        Some(st.streams[id as int])
    } else {
        None
    }
}

/// The state after a refused call that demanded the authorizations `fx`:
/// nothing else changes.
pub open spec fn with_demand(st: ContractState, fx: Seq<Effect>) -> ContractState {
    ContractState { outbox: st.outbox + fx, ..st }
}

/// The state after a successful step that changed the configuration and
/// asked for the effects `fx`.
pub open spec fn with_config(st: ContractState, c: Config, fx: Seq<Effect>) -> ContractState {
    ContractState { config: c, streams: st.streams, outbox: st.outbox + fx }
}

/// The state after a successful step that also replaced the stream `id`.
pub open spec fn with_stream(st: ContractState, c: Config, id: u64, s: Stream, fx: Seq<Effect>) -> ContractState {
    ContractState { config: c, streams: st.streams.update(id as int, s), outbox: st.outbox + fx }
}

/// Escrow adds up over concatenation.
pub proof fn lemma_escrow_concat(a: Seq<Stream>, b: Seq<Stream>)
    ensures
        escrow_balance(a + b) == escrow_balance(a) + escrow_balance(b),
    decreases b.len(),
{
    if b.len() == 0 {
        assert(a + b =~= a);
    } else {
        lemma_escrow_concat(a, b.drop_last());
        assert((a + b).drop_last() =~= a + b.drop_last());
    }
}

/// Replacing one stream changes the escrow by the difference of the two
/// streams' escrow.
pub proof fn lemma_escrow_update(streams: Seq<Stream>, i: int, s: Stream)
    requires
        0 <= i < streams.len(),
    ensures
        escrow_balance(streams.update(i, s)) == escrow_balance(streams) - escrow_of(streams[i]) + escrow_of(s),
    decreases streams.len(),
{
    let u = streams.update(i, s);
    if i == streams.len() - 1 {
        assert(u.drop_last() =~= streams.drop_last());
    } else {
        lemma_escrow_update(streams.drop_last(), i, s);
        assert(u.drop_last() =~= streams.drop_last().update(i, s));
    }
}

/// The escrow of a batch of fresh streams is the batch's total.
pub proof fn lemma_escrow_batch(sender: Account, now: u64, reqs: Seq<StreamRequest>)
    ensures
        escrow_balance(batch_streams(sender, now, reqs)) == batch_total(reqs),
    decreases reqs.len(),
{
    if reqs.len() > 0 {
        lemma_escrow_batch(sender, now, reqs.drop_last());
        assert(batch_streams(sender, now, reqs).drop_last() =~= batch_streams(sender, now, reqs.drop_last()));
    }
}

/// The escrow of well-formed streams is never negative.
pub proof fn lemma_escrow_nonnegative(streams: Seq<Stream>)
    requires
        forall|i: int| 0 <= i < streams.len() ==> stream_ok(#[trigger] streams[i]),
    ensures
        escrow_balance(streams) >= 0,
    decreases streams.len(),
{
    if streams.len() > 0 {
        let d = streams.drop_last();
        assert forall|i: int| 0 <= i < d.len() implies stream_ok(#[trigger] d[i]) by {
            assert(d[i] == streams[i]);
        }
        lemma_escrow_nonnegative(d);
        assert(stream_ok(streams[streams.len() - 1]));
    }
}

/// The contract: configuration, streams by id, and the effects awaiting the
/// environment.
pub struct StreamPayContract {
    config: Config,
    streams: Vec<Stream>,
    effects: Vec<Effect>,
}

impl View for StreamPayContract {
    type V = ContractState;

    closed spec fn view(&self) -> ContractState {
        ContractState { config: self.config, streams: self.streams@, outbox: self.effects@ }
    }
}

impl StreamPayContract {
    /// The contract's invariant holds.
    pub open spec fn wf(&self) -> bool {
        state_ok(self@)
    }

    /// A freshly deployed contract: not initialized, no streams.
    pub fn new() -> (r: StreamPayContract)
        ensures
            r.wf(),
            r@ == (ContractState { config: blank_config(), streams: Seq::empty(), outbox: Seq::empty() }),
    {
        let r = StreamPayContract { config: Config::new(), streams: Vec::new(), effects: Vec::new() };
        assert(r@.streams =~= Seq::<Stream>::empty());
        r
    }

    /// Hands over, and forgets, the effects asked for so far.
    pub fn take_effects(&mut self) -> (r: Vec<Effect>)
        ensures
            r@ == old(self)@.outbox,
            final(self)@ == (ContractState { outbox: Seq::empty(), ..old(self)@ }),
            old(self).wf() ==> final(self).wf(),
    {
        let mut out: Vec<Effect> = Vec::new();
        std::mem::swap(&mut out, &mut self.effects);
        assert(self@.outbox =~= Seq::<Effect>::empty());
        out
    }

    /// The configuration.
    pub fn config(&self) -> (r: &Config)
        ensures
            *r == self@.config,
    {
        &self.config
    }

    /// Initializes the contract with `admin` and the streamed `token`; only
    /// once.
    pub fn initialize(&mut self, admin: Account, token: Account) -> (r: Result<(), Error>)
        requires
            old(self).wf(),
        ensures
            final(self).wf(),
            match initialize_step(old(self)@.config, admin, token) {
                Ok((c, e)) => r is Ok && final(self)@ == with_config(old(self)@, c, e),
                Err(err) => r == Err::<(), Error>(err) && final(self)@ == old(self)@,
            },
    {
        let r = self.config.initialize(admin, token, &mut self.effects);
        proof {
            if r is Ok {
                assert(old(self)@.streams.len() == 0);
                assert(self@.streams =~= Seq::<Stream>::empty());
            }
        }
        r
    }

    /// Returns the admin, or `NotInitialized`.
    pub fn get_admin(&self) -> (r: Result<Account, Error>)
        ensures
            r == (match self@.config.admin {
                Some(a) => Ok(a),
                None => Err(Error::NotInitialized),
            }),
    {
        self.config.get_admin()
    }

    /// Returns the account of the scheduled admin transfer, if any.
    pub fn get_pending_admin(&self) -> (r: Result<Option<Account>, Error>)
        ensures
            r == (if self@.config.admin is Some {
                Ok(self@.config.pending_admin)
            } else {
                Err::<Option<Account>, Error>(Error::NotInitialized)
            }),
    {
        self.config.get_pending_admin()
    }

    /// Returns when the scheduled admin transfer may execute, if any.
    pub fn get_admin_action_execute_after(&self) -> (r: Result<Option<u64>, Error>)
        ensures
            r == (if self@.config.admin is Some {
                Ok(self@.config.execute_after)
            } else {
                Err::<Option<u64>, Error>(Error::NotInitialized)
            }),
    {
        self.config.get_admin_action_execute_after()
    }

    /// Returns the streamed token, or `NotInitialized`.
    pub fn get_token(&self) -> (r: Result<Account, Error>)
        requires
            self.wf(),
        ensures
            r == (match self@.config.admin {
                Some(_) => Ok(self@.config.token->0),
                None => Err(Error::NotInitialized),
            }),
    {
        self.config.get_token()
    }

    /// Returns the number of streams created so far.
    pub fn stream_counter(&self) -> (r: u64)
        ensures
            r == self@.config.counter,
    {
        self.config.counter
    }

    /// Returns the total amount currently held in escrow.
    pub fn get_total_supply(&self) -> (r: i128)
        ensures
            r == self@.config.total_supply,
    {
        self.config.total_supply
    }

    /// Returns the cap on the total amount held in escrow.
    pub fn get_supply_cap(&self) -> (r: i128)
        ensures
            r == self@.config.supply_cap,
    {
        self.config.supply_cap
    }

    /// Queues a transfer of the admin role, executable
    /// `ADMIN_TIMELOCK_DELAY` seconds after `now`; returns that time.
    pub fn schedule_admin_transfer(&mut self, admin: Account, new_admin: Account, now: u64) -> (r: Result<u64, Error>)
        requires
            old(self).wf(),
        ensures
            final(self).wf(),
            match schedule_step(old(self)@.config, now, admin, new_admin) {
                Ok((c, e, t)) => r == Ok::<u64, Error>(t) && final(self)@ == with_config(old(self)@, c, e),
                Err(err) => r == Err::<u64, Error>(err) && final(self)@ == with_demand(old(self)@, caller_demand(old(self)@.config, admin)),
            },
    {
        self.config.schedule_admin_transfer(now, admin, new_admin, &mut self.effects)
    }

    /// Executes the scheduled admin transfer once its timelock has expired.
    pub fn execute_admin_transfer(&mut self, now: u64) -> (r: Result<(), Error>)
        requires
            old(self).wf(),
        ensures
            final(self).wf(),
            match execute_step(old(self)@.config, now) {
                Ok((c, e)) => r is Ok && final(self)@ == with_config(old(self)@, c, e),
                Err(err) => r == Err::<(), Error>(err) && final(self)@ == old(self)@,
            },
    {
        self.config.execute_admin_transfer(now, &mut self.effects)
    }

    /// Cancels the scheduled admin transfer.
    pub fn cancel_admin_transfer(&mut self, admin: Account) -> (r: Result<(), Error>)
        requires
            old(self).wf(),
        ensures
            final(self).wf(),
            match cancel_admin_step(old(self)@.config, admin) {
                Ok((c, e)) => r is Ok && final(self)@ == with_config(old(self)@, c, e),
                Err(err) => r == Err::<(), Error>(err) && final(self)@ == with_demand(old(self)@, caller_demand(old(self)@.config, admin)),
            },
    {
        self.config.cancel_admin_transfer(admin, &mut self.effects)
    }

    /// Hands the admin role to `new_admin` at once, with the current admin's
    /// authorization.
    pub fn set_admin(&mut self, new_admin: Account) -> (r: Result<(), Error>)
        requires
            old(self).wf(),
        ensures
            final(self).wf(),
            match set_admin_step(old(self)@.config, new_admin) {
                Ok((c, e)) => r is Ok && final(self)@ == with_config(old(self)@, c, e),
                Err(err) => r == Err::<(), Error>(err) && final(self)@ == with_demand(old(self)@, demand(old(self)@.config.admin)),
            },
    {
        self.config.set_admin(new_admin, &mut self.effects)
    }

    /// Sets the cap on the total escrowed amount.
    pub fn set_supply_cap(&mut self, new_cap: i128) -> (r: Result<(), Error>)
        requires
            old(self).wf(),
        ensures
            final(self).wf(),
            match set_supply_cap_step(old(self)@.config, new_cap) {
                Ok((c, e)) => r is Ok && final(self)@ == with_config(old(self)@, c, e),
                Err(err) => r == Err::<(), Error>(err) && final(self)@ == with_demand(old(self)@, demand(old(self)@.config.admin)),
            },
    {
        self.config.set_supply_cap(new_cap, &mut self.effects)
    }

    /// Replaces the contract's code, with the admin's authorization.
    pub fn upgrade(&mut self, wasm_hash: [u8; 32]) -> (r: Result<(), Error>)
        requires
            old(self).wf(),
        ensures
            final(self).wf(),
            match upgrade_step(old(self)@.config, wasm_hash) {
                Ok((c, e)) => r is Ok && final(self)@ == with_config(old(self)@, c, e),
                Err(err) => r == Err::<(), Error>(err) && final(self)@ == with_demand(old(self)@, demand(old(self)@.config.admin)),
            },
    {
        self.config.upgrade(wasm_hash, &mut self.effects)
    }

    /// Creates a stream of `total_amount` from `sender` to `recipient`,
    /// vesting from `start_time` (`0` meaning `now`) to `end_time`, and
    /// escrows the amount; returns the new stream's id.
    pub fn create_stream(
        &mut self,
        sender: Account,
        recipient: Account,
        total_amount: i128,
        start_time: u64,
        end_time: u64,
        now: u64,
    ) -> (r: Result<u64, Error>)
        requires
            old(self).wf(),
        ensures
            final(self).wf(),
            match create_step(old(self)@.config, now, sender, recipient, total_amount, start_time, end_time) {
                Ok((c, s, e)) => r == Ok::<u64, Error>(old(self)@.config.counter) && final(self)@ == (ContractState {
                    config: c,
                    streams: old(self)@.streams.push(s),
                    outbox: old(self)@.outbox + e,
                }),
                Err(err) => r == Err::<u64, Error>(err) && final(self)@ == with_demand(old(self)@, caller_demand(old(self)@.config, sender)),
            },
    {
        let r = self.config.create_stream(now, sender, recipient, total_amount, start_time, end_time, &mut self.effects);
        match r {
            Ok((id, s)) => {
                let ghost old_streams = self.streams@;
                self.streams.push(s);
                proof {
                    assert(self.streams@.drop_last() =~= old_streams);
                    assert forall|i: int| 0 <= i < self.streams@.len() implies stream_ok(#[trigger] self.streams@[i]) by {
                        if i < old_streams.len() {
                            assert(self.streams@[i] == old_streams[i]);
                        }
                    }
                }
                Ok(id)
            },
            Err(e) => Err(e),
        }
    }

    /// Opens one stream per request of `sender`, all or none; returns the
    /// new ids, consecutive and in request order.
    pub fn create_stream_batch(&mut self, sender: Account, requests: Vec<StreamRequest>, now: u64) -> (r: Result<Vec<u64>, Error>)
        requires
            old(self).wf(),
        ensures
            final(self).wf(),
            match batch_step(old(self)@.config, now, sender, requests@) {
                Ok((c, sts, e)) => r is Ok
                    && r->Ok_0@ == Seq::new(requests@.len(), |i: int| (old(self)@.config.counter + i) as u64)
                    && final(self)@ == (ContractState {
                        config: c,
                        streams: old(self)@.streams + sts,
                        outbox: old(self)@.outbox + e,
                    }),
                Err(err) => r is Err && r->Err_0 == err && final(self)@ == with_demand(old(self)@, caller_demand(old(self)@.config, sender)),
            },
    {
        let r = self.config.create_stream_batch(now, sender, &requests, &mut self.effects);
        match r {
            Ok((ids, new_streams)) => {
                let ghost old_streams = self.streams@;
                let ghost added = new_streams@;
                let mut moved = new_streams;
                self.streams.append(&mut moved);
                proof {
                    assert(self.streams@ =~= old_streams + added);
                    lemma_escrow_concat(old_streams, added);
                    lemma_escrow_batch(sender, now, requests@);
                    lemma_batch_requests_valid(now, requests@);
                    assert forall|i: int| 0 <= i < self.streams@.len() implies stream_ok(#[trigger] self.streams@[i]) by {
                        if i < old_streams.len() {
                            assert(self.streams@[i] == old_streams[i]);
                        } else {
                            let j = i - old_streams.len();
                            assert(self.streams@[i] == added[j]);
                            assert(request_error(now, requests@[j].total_amount, requests@[j].start_time, requests@[j].end_time) is None);
                        }
                    }
                }
                Ok(ids)
            },
            Err(e) => Err(e),
        }
    }

    /// Adds `amount` to the escrow of the active stream `id` of `sender`;
    /// returns the new total.
    pub fn top_up(&mut self, id: u64, sender: Account, amount: i128) -> (r: Result<i128, Error>)
        requires
            old(self).wf(),
        ensures
            final(self).wf(),
            match top_up_step(old(self)@.config, stream_at(old(self)@, id), id, sender, amount) {
                Ok((c, s, e, t)) => r == Ok::<i128, Error>(t) && final(self)@ == with_stream(old(self)@, c, id, s, e),
                Err(err) => r == Err::<i128, Error>(err) && final(self)@ == with_demand(old(self)@, seq![Effect::RequireAuth(sender)]),
            },
    {
        let len = self.streams.len();
        let found: Option<&Stream> = if id < len as u64 { Some(&self.streams[id as usize]) } else { None };
        let r = self.config.top_up(found, id, sender, amount, &mut self.effects);
        match r {
            Ok((t, s)) => {
                proof { self.lemma_replace_keeps_invariant(old(self)@, id as int, s); }
                self.streams.set(id as usize, s);
                Ok(t)
            },
            Err(e) => Err(e),
        }
    }

    /// Pushes the end of the active stream `id` of `sender` back to
    /// `new_end`.
    pub fn extend_stream(&mut self, id: u64, sender: Account, new_end: u64) -> (r: Result<(), Error>)
        requires
            old(self).wf(),
        ensures
            final(self).wf(),
            match extend_step(old(self)@.config, stream_at(old(self)@, id), id, sender, new_end) {
                Ok((c, s, e)) => r is Ok && final(self)@ == with_stream(old(self)@, c, id, s, e),
                Err(err) => r == Err::<(), Error>(err) && final(self)@ == with_demand(old(self)@, seq![Effect::RequireAuth(sender)]),
            },
    {
        let len = self.streams.len();
        let found: Option<&Stream> = if id < len as u64 { Some(&self.streams[id as usize]) } else { None };
        let r = self.config.extend_stream(found, id, sender, new_end, &mut self.effects);
        match r {
            Ok(s) => {
                proof { self.lemma_replace_keeps_invariant(old(self)@, id as int, s); }
                self.streams.set(id as usize, s);
                Ok(())
            },
            Err(e) => Err(e),
        }
    }

    /// Pays the recipient of stream `id` what has vested and not been
    /// withdrawn at `now`; returns the amount paid.
    pub fn withdraw(&mut self, id: u64, recipient: Account, now: u64) -> (r: Result<i128, Error>)
        requires
            old(self).wf(),
        ensures
            final(self).wf(),
            match withdraw_step(old(self)@.config, stream_at(old(self)@, id), id, recipient, now) {
                Ok((c, s, e, a)) => r == Ok::<i128, Error>(a) && final(self)@ == with_stream(old(self)@, c, id, s, e),
                Err(err) => r == Err::<i128, Error>(err) && final(self)@ == with_demand(old(self)@, seq![Effect::RequireAuth(recipient)]),
            },
    {
        let len = self.streams.len();
        let found: Option<&Stream> = if id < len as u64 { Some(&self.streams[id as usize]) } else { None };
        let r = self.config.withdraw(found, id, recipient, now, &mut self.effects);
        match r {
            Ok((a, s)) => {
                proof {
                    lemma_vested_bounds(old(self)@.streams[id as int], now);
                    self.lemma_replace_keeps_invariant(old(self)@, id as int, s);
                }
                self.streams.set(id as usize, s);
                Ok(a)
            },
            Err(e) => Err(e),
        }
    }

    /// Cancels the active stream `id` at `now` on behalf of its sender or
    /// recipient: the recipient is paid what vested beyond what was
    /// withdrawn, the sender is refunded the rest of the stream's escrow.
    pub fn cancel(&mut self, id: u64, caller: Account, now: u64) -> (r: Result<(), Error>)
        requires
            old(self).wf(),
        ensures
            final(self).wf(),
            match cancel_step(old(self)@.config, stream_at(old(self)@, id), id, caller, now) {
                Ok((c, s, e)) => r is Ok && final(self)@ == with_stream(old(self)@, c, id, s, e),
                Err(err) => r == Err::<(), Error>(err) && final(self)@ == with_demand(old(self)@, seq![Effect::RequireAuth(caller)]),
            },
    {
        let len = self.streams.len();
        let found: Option<&Stream> = if id < len as u64 { Some(&self.streams[id as usize]) } else { None };
        let r = self.config.cancel(found, id, caller, now, &mut self.effects);
        match r {
            Ok(s) => {
                proof {
                    lemma_vested_bounds(old(self)@.streams[id as int], now);
                    self.lemma_replace_keeps_invariant(old(self)@, id as int, s);
                }
                self.streams.set(id as usize, s);
                Ok(())
            },
            Err(e) => Err(e),
        }
    }

    /// Replacing stream `i` of `before` by `s` under the configuration now
    /// held keeps the invariant, when `s` is well formed and the escrow
    /// accounted for moved by the change in `s`'s escrow.
    proof fn lemma_replace_keeps_invariant(&self, before: ContractState, i: int, s: Stream)
        requires
            state_ok(before),
            0 <= i < before.streams.len(),
            stream_ok(s),
            self@.streams == before.streams,
            self@.config.counter == before.config.counter,
            self@.config.total_supply == before.config.total_supply - escrow_of(before.streams[i]) + escrow_of(s),
            self@.config.supply_cap == before.config.supply_cap,
            self@.config.admin == before.config.admin,
            self@.config.token == before.config.token,
            self@.config.pending_admin == before.config.pending_admin,
            self@.config.execute_after == before.config.execute_after,
        ensures
            state_ok(ContractState { streams: before.streams.update(i, s), ..self@ }),
    {
        lemma_escrow_update(before.streams, i, s);
        let u = before.streams.update(i, s);
        assert forall|j: int| 0 <= j < u.len() implies stream_ok(#[trigger] u[j]) by {
            if j != i {
                assert(u[j] == before.streams[j]);
            }
        }
    }

    /// Returns the stream `id`, or `StreamNotFound`.
    pub fn get_stream(&self, id: u64) -> (r: Result<Stream, Error>)
        ensures
            r == (match stream_at(self@, id) {
                Some(s) => Ok(s),
                None => Err(Error::StreamNotFound),
            }),
    {
        views::get_stream(self.lookup(id))
    }

    /// The stream `id` if there is one.
    fn lookup(&self, id: u64) -> (r: Option<&Stream>)
        ensures
            views::found_view(r) == stream_at(self@, id),
    {
        if id < self.streams.len() as u64 {
            Some(&self.streams[id as usize])
        } else {
            None
        }
    }

    /// Returns the lifecycle status of stream `id`.
    pub fn get_status(&self, id: u64) -> (r: Result<Status, Error>)
        ensures
            r == (match stream_at(self@, id) {
                Some(s) => Ok(s.status),
                None => Err(Error::StreamNotFound),
            }),
    {
        views::get_status(self.lookup(id))
    }

    /// Returns whether stream `id` is still active.
    pub fn is_active(&self, id: u64) -> (r: Result<bool, Error>)
        ensures
            r == (match stream_at(self@, id) {
                Some(s) => Ok(s.status == Status::Active),
                None => Err(Error::StreamNotFound),
            }),
    {
        views::is_active(self.lookup(id))
    }

    /// Returns the length of the window of stream `id` in seconds; always
    /// positive.
    pub fn duration(&self, id: u64) -> (r: Result<u64, Error>)
        requires
            self.wf(),
        ensures
            r == (match stream_at(self@, id) {
                Some(s) => Ok((s.end - s.start) as u64),
                None => Err(Error::StreamNotFound),
            }),
            r matches Ok(d) ==> d > 0,
    {
        let found = self.lookup(id);
        proof {
            if id < self@.streams.len() {
                assert(stream_ok(self@.streams[id as int]));
            }
        }
        views::duration(found)
    }

    /// Returns the seconds of the window of stream `id` elapsed at `now`,
    /// clamped to the window.
    pub fn elapsed(&self, id: u64, now: u64) -> (r: Result<u64, Error>)
        ensures
            r == (match stream_at(self@, id) {
                Some(s) => Ok(crate::vesting::elapsed_secs(s, now)),
                None => Err(Error::StreamNotFound),
            }),
    {
        views::elapsed_at(self.lookup(id), now)
    }

    /// Returns the amount of stream `id` vested at `now`.
    pub fn streamed_amount(&self, id: u64, now: u64) -> (r: Result<i128, Error>)
        ensures
            r == (match stream_at(self@, id) {
                Some(s) => vested_amount(s, now),
                None => Err(Error::StreamNotFound),
            }),
    {
        views::streamed_amount(self.lookup(id), now)
    }

    /// Returns the time progress of stream `id` at `now` in basis points.
    pub fn progress_bps(&self, id: u64, now: u64) -> (r: Result<u32, Error>)
        ensures
            r == (match stream_at(self@, id) {
                Some(s) => Ok(crate::vesting::progress_at(s, now)),
                None => Err(Error::StreamNotFound),
            }),
    {
        views::progress_bps(self.lookup(id), now)
    }

    /// Returns the share of the total of stream `id` already withdrawn, in
    /// basis points (`0..=10_000`).
    pub fn percent_withdrawn(&self, id: u64) -> (r: Result<u32, Error>)
        requires
            self.wf(),
        ensures
            r == (match stream_at(self@, id) {
                Some(s) => views::withdrawn_bps(s),
                None => Err(Error::StreamNotFound),
            }),
            r matches Ok(b) ==> b <= 10_000,
    {
        let found = self.lookup(id);
        proof {
            if id < self@.streams.len() {
                let s = self@.streams[id as int];
                assert(stream_ok(s));
                let x = s.withdrawn * 10_000;
                let d = s.total as int;
                assert(0 <= x / d <= 10_000) by (nonlinear_arith)
                    requires x == s.withdrawn * 10_000, 0 <= s.withdrawn <= d, d >= 1;
            }
        }
        views::percent_withdrawn(found)
    }

    /// Returns the amount of stream `id` not yet vested at `now`: what the
    /// sender would get back on cancellation.
    pub fn remaining_amount(&self, id: u64, now: u64) -> (r: Result<i128, Error>)
        ensures
            r == (match stream_at(self@, id) {
                Some(s) => crate::vesting::unvested_amount(s, now),
                None => Err(Error::StreamNotFound),
            }),
    {
        views::remaining_amount(self.lookup(id), now)
    }

    /// Returns what a withdrawal from stream `id` would pay at `now`.
    pub fn withdrawable_amount(&self, id: u64, now: u64) -> (r: Result<i128, Error>)
        ensures
            r == (match stream_at(self@, id) {
                Some(s) => withdrawable_at(s, now),
                None => Err(Error::StreamNotFound),
            }),
    {
        views::withdrawable_amount(self.lookup(id), now)
    }

    /// Returns the summary of stream `id` at `now`.
    pub fn get_summary(&self, id: u64, now: u64) -> (r: Result<StreamSummary, Error>)
        ensures
            r == (match stream_at(self@, id) {
                Some(s) => views::summary_at(s, now),
                None => Err(Error::StreamNotFound),
            }),
    {
        views::get_summary(self.lookup(id), now)
    }
}

} // verus!
