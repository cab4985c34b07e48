//! Properties that span several entrypoints or several calls.

use vstd::prelude::*;
use crate::config::{
    batch_effects, batch_step, batch_total, caller_demand, cancel_admin_step, cancel_kept, cancel_payouts, cancel_step,
    create_step, demand, execute_step, extend_step, initialize_step, schedule_step, set_admin_step, set_supply_cap_step,
    top_up_step, upgrade_step, withdraw_step, batch_error, request_error, Config,
};
use crate::constants::ADMIN_TIMELOCK_DELAY;
use crate::contract::{
    escrow_balance, escrow_of, lemma_escrow_nonnegative, state_ok, stream_at, stream_ok, with_config, with_demand,
    with_stream, ContractState,
};
use crate::effects::Effect;
use crate::storage::{BUMP_EXTEND, BUMP_THRESHOLD};
use crate::types::{Account, Status, Stream, StreamRequest};
use crate::vesting::{lemma_vested_bounds, progress_at, vested_amount, withdrawable_at};
use crate::views::summary_at;

verus! {

/// The amount that `fx` moves into the contract's escrow.
pub open spec fn escrowed_in(fx: Seq<Effect>) -> int
    decreases fx.len(),
{
    if fx.len() == 0 {
        0
    } else {
        escrowed_in(fx.drop_last()) + match fx.last() {
            Effect::Escrow { amount, .. } => amount as int,
            _ => 0,
        }
    }
}

/// The amount that `fx` pays out of the contract.
pub open spec fn paid_out(fx: Seq<Effect>) -> int
    decreases fx.len(),
{
    if fx.len() == 0 {
        0
    } else {
        paid_out(fx.drop_last()) + match fx.last() {
            Effect::Payout { amount, .. } => amount as int,
            _ => 0,
        }
    }
}

/// Both sums add up over concatenation.
pub proof fn lemma_flows_concat(a: Seq<Effect>, b: Seq<Effect>)
    ensures
        escrowed_in(a + b) == escrowed_in(a) + escrowed_in(b),
        paid_out(a + b) == paid_out(a) + paid_out(b),
    decreases b.len(),
{
    if b.len() == 0 {
        assert(a + b =~= a);
    } else {
        lemma_flows_concat(a, b.drop_last());
        assert((a + b).drop_last() =~= a + b.drop_last());
    }
}

/// Effects that move no tokens.
pub open spec fn moves_no_tokens(fx: Seq<Effect>) -> bool {
    forall|i: int| 0 <= i < fx.len() ==> !(#[trigger] fx[i] is Escrow) && !(fx[i] is Payout)
}

/// Effects that move no tokens add nothing to either sum.
pub proof fn lemma_no_token_flows(fx: Seq<Effect>)
    requires
        moves_no_tokens(fx),
    ensures
        escrowed_in(fx) == 0,
        paid_out(fx) == 0,
    decreases fx.len(),
{
    if fx.len() > 0 {
        let d = fx.drop_last();
        assert forall|i: int| 0 <= i < d.len() implies !(#[trigger] d[i] is Escrow) && !(d[i] is Payout) by {
            assert(d[i] == fx[i]);
        }
        lemma_no_token_flows(d);
        assert(!(fx[fx.len() - 1] is Escrow) && !(fx[fx.len() - 1] is Payout));
    }
}

/// The escrow the contract accounts for moves exactly with the tokens that
/// the effects of a stream creation, a top-up or a withdrawal move: what
/// comes in is added to it, what goes out is taken from it.
pub proof fn law_token_flows_match_escrow(
    c: Config,
    now: u64,
    sender: Account,
    recipient: Account,
    amount: i128,
    start_time: u64,
    end_time: u64,
    found: Option<Stream>,
    id: u64,
)
    ensures
        create_step(c, now, sender, recipient, amount, start_time, end_time) matches Ok((c2, _s, fx)) ==> c2.total_supply
            == c.total_supply + escrowed_in(fx) - paid_out(fx),
        top_up_step(c, found, id, sender, amount) matches Ok((c2, _s, fx, _t)) ==> c2.total_supply == c.total_supply
            + escrowed_in(fx) - paid_out(fx),
        withdraw_step(c, found, id, recipient, now) matches Ok((c2, _s, fx, _a)) ==> c2.total_supply
            == c.total_supply + escrowed_in(fx) - paid_out(fx),
{
    reveal_with_fuel(escrowed_in, 6);
    reveal_with_fuel(paid_out, 6);
}

/// A batch escrows its whole amount in one movement and pays nothing out;
/// the escrow accounted for grows by exactly that amount.
pub proof fn law_batch_token_flow(c: Config, now: u64, sender: Account, reqs: Seq<StreamRequest>)
    ensures
        batch_step(c, now, sender, reqs) matches Ok((c2, _sts, fx)) ==> c2.total_supply == c.total_supply
            + escrowed_in(fx) - paid_out(fx) && escrowed_in(fx) == batch_total(reqs),
{
    if batch_step(c, now, sender, reqs) is Ok {
        let fx = batch_effects(c.counter, sender, reqs);
        let head = seq![Effect::RequireAuth(sender), Effect::Escrow { from: sender, amount: batch_total(reqs) as i128 }];
        let bumps = Seq::new(reqs.len(), |i: int| Effect::ExtendPersistent { key: crate::storage::DataKey::Stream((c.counter + i) as u64), threshold: BUMP_THRESHOLD, extend_to: BUMP_EXTEND });
        let events = Seq::new(
            reqs.len(),
            |i: int| Effect::Publish(crate::effects::Event::Created {
                id: (c.counter + i) as u64,
                sender,
                recipient: reqs[i].recipient,
                total: reqs[i].total_amount,
            }),
        );
        let mid = seq![Effect::ExtendInstance { threshold: BUMP_THRESHOLD, extend_to: BUMP_EXTEND }];
        lemma_no_token_flows(bumps);
        lemma_no_token_flows(events);
        lemma_no_token_flows(mid);
        lemma_flows_concat(head, bumps);
        lemma_flows_concat(head + bumps, mid);
        lemma_flows_concat(head + bumps + mid, events);
        reveal_with_fuel(escrowed_in, 3);
        reveal_with_fuel(paid_out, 3);
        assert(fx == head + bumps + mid + events);
    }
}

/// A cancellation hands out exactly what the stream still held in escrow,
/// `total - withdrawn`: `max(0, vested - withdrawn)` to the recipient and
/// `total - max(vested, withdrawn)` to the sender. The tokens leaving the
/// contract equal the drop of the escrow it accounts for, and the withdrawn
/// amount never goes down.
pub proof fn law_cancel_releases_escrow(c: Config, s: Stream, id: u64, caller: Account, now: u64)
    requires
        0 <= s.withdrawn <= s.total,
        cancel_step(c, Some(s), id, caller, now) is Ok,
    ensures
        ({
            let (c2, s2, fx) = cancel_step(c, Some(s), id, caller, now)->Ok_0;
            let v = vested_amount(s, now)->Ok_0;
            &&& c2.total_supply == c.total_supply - (s.total - s.withdrawn)
            &&& c2.total_supply == c.total_supply + escrowed_in(fx) - paid_out(fx)
            &&& paid_out(fx) == s.total - s.withdrawn
            &&& escrowed_in(fx) == 0
            &&& s2.withdrawn == (if v > s.withdrawn { v } else { s.withdrawn })
            &&& s.withdrawn <= s2.withdrawn <= s.total
            &&& s2.status == Status::Cancelled
        }),
{
    let v = vested_amount(s, now)->Ok_0;
    lemma_vested_bounds(s, now);
    let kept = cancel_kept(s, v);
    let paid: i128 = if v > s.withdrawn { (v - s.withdrawn) as i128 } else { 0 };
    let refund = (s.total - kept) as i128;
    let head = seq![Effect::RequireAuth(caller), Effect::ExtendPersistent { key: crate::storage::DataKey::Stream(id), threshold: BUMP_THRESHOLD, extend_to: BUMP_EXTEND }];
    let payouts = cancel_payouts(s, paid, refund);
    let tail = seq![Effect::Publish(crate::effects::Event::Cancelled { id, caller, sender_refund: refund, recipient_paid: paid })];
    lemma_flows_concat(head, payouts);
    lemma_flows_concat(head + payouts, tail);
    reveal_with_fuel(escrowed_in, 3);
    reveal_with_fuel(paid_out, 3);
    let p1: Seq<Effect> = if paid > 0 { seq![Effect::Payout { to: s.recipient, amount: paid }] } else { Seq::empty() };
    let p2: Seq<Effect> = if refund > 0 { seq![Effect::Payout { to: s.sender, amount: refund }] } else { Seq::empty() };
    lemma_flows_concat(p1, p2);
}

/// A withdrawal pays exactly what was withdrawable and leaves nothing
/// withdrawable at the same moment; the withdrawn amount only grows.
pub proof fn law_withdraw_drains(c: Config, s: Stream, id: u64, recipient: Account, now: u64)
    requires
        withdraw_step(c, Some(s), id, recipient, now) is Ok,
    ensures
        ({
            let (c2, s2, fx, a) = withdraw_step(c, Some(s), id, recipient, now)->Ok_0;
            &&& withdrawable_at(s, now) == Ok::<i128, crate::error::Error>(a)
            &&& a > 0
            &&& s2.withdrawn == s.withdrawn + a
            &&& withdrawable_at(s2, now) == Ok::<i128, crate::error::Error>(0)
        }),
{
}

/// An admin transfer scheduled at `t` cannot execute before
/// `t + ADMIN_TIMELOCK_DELAY`, and from then on it executes: the scheduled
/// account becomes the admin and nothing is left pending.
pub proof fn law_admin_timelock(c: Config, t: u64, admin: Account, new_admin: Account, now: u64)
    requires
        schedule_step(c, t, admin, new_admin) is Ok,
    ensures
        ({
            let (c2, _fx, after) = schedule_step(c, t, admin, new_admin)->Ok_0;
            &&& after == t + ADMIN_TIMELOCK_DELAY
            &&& c2.admin == c.admin
            &&& now < after ==> execute_step(c2, now) == Err::<(Config, Seq<Effect>), crate::error::Error>(
                crate::error::Error::TimelockNotExpired,
            )
            &&& now >= after ==> (execute_step(c2, now) matches Ok((c3, _e)) && c3.admin == Some(new_admin)
                && c3.pending_admin is None && c3.execute_after is None)
        }),
{
}

/// Apart from `initialize`, `execute_admin_transfer` and `set_admin`, no
/// entrypoint changes who the admin is.
pub proof fn law_admin_stable(
    c: Config,
    now: u64,
    admin: Account,
    new_admin: Account,
    new_cap: i128,
    wasm_hash: [u8; 32],
    sender: Account,
    recipient: Account,
    amount: i128,
    start_time: u64,
    end_time: u64,
    reqs: Seq<StreamRequest>,
    found: Option<Stream>,
    id: u64,
    new_end: u64,
)
    ensures
        schedule_step(c, now, admin, new_admin) matches Ok((c2, _e, _t)) ==> c2.admin == c.admin,
        cancel_admin_step(c, admin) matches Ok((c2, _e)) ==> c2.admin == c.admin,
        set_supply_cap_step(c, new_cap) matches Ok((c2, _e)) ==> c2.admin == c.admin,
        upgrade_step(c, wasm_hash) matches Ok((c2, _e)) ==> c2.admin == c.admin,
        create_step(c, now, sender, recipient, amount, start_time, end_time) matches Ok((c2, _s, _e)) ==> c2.admin
            == c.admin,
        batch_step(c, now, sender, reqs) matches Ok((c2, _s, _e)) ==> c2.admin == c.admin,
        top_up_step(c, found, id, sender, amount) matches Ok((c2, _s, _e, _t)) ==> c2.admin == c.admin,
        extend_step(c, found, id, sender, new_end) matches Ok((c2, _s, _e)) ==> c2.admin == c.admin,
        withdraw_step(c, found, id, recipient, now) matches Ok((c2, _s, _e, _a)) ==> c2.admin == c.admin,
        cancel_step(c, found, id, sender, now) matches Ok((c2, _s, _e)) ==> c2.admin == c.admin,
{
}

/// A stream that has left the active status is final: top-ups, extensions,
/// withdrawals and cancellations all refuse it.
pub proof fn law_no_revival(c: Config, s: Stream, id: u64, who: Account, amount: i128, new_end: u64, now: u64)
    requires
        s.status != Status::Active,
    ensures
        top_up_step(c, Some(s), id, who, amount) is Err,
        extend_step(c, Some(s), id, who, new_end) is Err,
        withdraw_step(c, Some(s), id, who, now) is Err,
        cancel_step(c, Some(s), id, who, now) is Err,
{
}

/// Pushing the end of a stream back never makes more of it vested at any
/// moment: the same total is spread over a longer window.
pub proof fn law_extend_slows_vesting(s: Stream, new_end: u64, now: u64)
    requires
        s.total >= 0,
        s.start < s.end <= new_end,
        vested_amount(s, now) is Ok,
        vested_amount(Stream { end: new_end, ..s }, now) is Ok,
    ensures
        vested_amount(Stream { end: new_end, ..s }, now)->Ok_0 <= vested_amount(s, now)->Ok_0,
{
    let t = Stream { end: new_end, ..s };
    lemma_vested_bounds(s, now);
    lemma_vested_bounds(t, now);
    if s.start < now && now < s.end {
        let x = s.total * (now - s.start);
        let d1 = s.end - s.start;
        let d2 = new_end - s.start;
        assert(x >= 0) by (nonlinear_arith)
            requires x == s.total * (now - s.start), s.total >= 0, now > s.start;
        assert(x / d2 <= x / d1) by (nonlinear_arith)
            requires x >= 0, 0 < d1 <= d2;
    }
}

/// The withdrawn amount of a stream only grows: a withdrawal raises it, a
/// top-up or an extension leaves it, and a cancellation sets it to the
/// larger of the vested and the withdrawn amount.
pub proof fn law_withdrawn_never_decreases(c: Config, s: Stream, id: u64, who: Account, amount: i128, new_end: u64, now: u64)
    ensures
        withdraw_step(c, Some(s), id, who, now) matches Ok((_c2, s2, _e, _a)) ==> s2.withdrawn > s.withdrawn,
        top_up_step(c, Some(s), id, who, amount) matches Ok((_c2, s2, _e, _t)) ==> s2.withdrawn == s.withdrawn,
        extend_step(c, Some(s), id, who, new_end) matches Ok((_c2, s2, _e)) ==> s2.withdrawn == s.withdrawn,
        cancel_step(c, Some(s), id, who, now) matches Ok((_c2, s2, _e)) ==> s2.withdrawn >= s.withdrawn,
{
}

/// In every state that satisfies the contract's invariant, the escrow the
/// contract accounts for covers what each stream still holds, and is never
/// negative.
pub proof fn law_escrow_covers_each_stream(st: ContractState, i: int)
    requires
        state_ok(st),
        0 <= i < st.streams.len(),
    ensures
        0 <= escrow_of(st.streams[i]) <= st.config.total_supply,
{
    lemma_escrow_part(st.streams, i);
}

/// The escrow of well-formed streams covers the escrow of each of them.
proof fn lemma_escrow_part(streams: Seq<Stream>, i: int)
    requires
        forall|j: int| 0 <= j < streams.len() ==> stream_ok(#[trigger] streams[j]),
        0 <= i < streams.len(),
    ensures
        0 <= escrow_of(streams[i]) <= escrow_balance(streams),
    decreases streams.len(),
{
    let d = streams.drop_last();
    assert forall|j: int| 0 <= j < d.len() implies stream_ok(#[trigger] d[j]) by {
        assert(d[j] == streams[j]);
    }
    assert(stream_ok(streams[i]));
    assert(stream_ok(streams[streams.len() - 1]));
    lemma_escrow_nonnegative(d);
    if i < streams.len() - 1 {
        lemma_escrow_part(d, i);
        assert(d[i] == streams[i]);
    }
}

/// The scheduled admin transfer and its time.
pub open spec fn pending_transfer(c: Config) -> (Option<Account>, Option<u64>) {
    (c.pending_admin, c.execute_after)
}

/// Apart from `schedule_admin_transfer`, `execute_admin_transfer` and
/// `cancel_admin_transfer`, no entrypoint changes the scheduled admin
/// transfer or its time.
pub proof fn law_pending_transfer_stable(
    c: Config,
    now: u64,
    admin: Account,
    token: Account,
    new_admin: Account,
    new_cap: i128,
    wasm_hash: [u8; 32],
    sender: Account,
    recipient: Account,
    amount: i128,
    start_time: u64,
    end_time: u64,
    reqs: Seq<StreamRequest>,
    found: Option<Stream>,
    id: u64,
    new_end: u64,
)
    ensures
        initialize_step(c, admin, token) matches Ok((c2, _e)) ==> pending_transfer(c2) == pending_transfer(c),
        set_admin_step(c, new_admin) matches Ok((c2, _e)) ==> pending_transfer(c2) == pending_transfer(c),
        set_supply_cap_step(c, new_cap) matches Ok((c2, _e)) ==> pending_transfer(c2) == pending_transfer(c),
        upgrade_step(c, wasm_hash) matches Ok((c2, _e)) ==> pending_transfer(c2) == pending_transfer(c),
        create_step(c, now, sender, recipient, amount, start_time, end_time) matches Ok((c2, _s, _e))
            ==> pending_transfer(c2) == pending_transfer(c),
        batch_step(c, now, sender, reqs) matches Ok((c2, _s, _e)) ==> pending_transfer(c2) == pending_transfer(c),
        top_up_step(c, found, id, sender, amount) matches Ok((c2, _s, _e, _t)) ==> pending_transfer(c2)
            == pending_transfer(c),
        extend_step(c, found, id, sender, new_end) matches Ok((c2, _s, _e)) ==> pending_transfer(c2)
            == pending_transfer(c),
        withdraw_step(c, found, id, recipient, now) matches Ok((c2, _s, _e, _a)) ==> pending_transfer(c2)
            == pending_transfer(c),
        cancel_step(c, found, id, sender, now) matches Ok((c2, _s, _e)) ==> pending_transfer(c2)
            == pending_transfer(c),
{
}

/// One call of an entrypoint that changes the contract, with its arguments
/// and, where the entrypoint reads the ledger clock, the time of the call.
pub enum Call {
    Initialize { admin: Account, token: Account },
    ScheduleAdminTransfer { admin: Account, new_admin: Account, now: u64 },
    ExecuteAdminTransfer { now: u64 },
    CancelAdminTransfer { admin: Account },
    SetAdmin { new_admin: Account },
    SetSupplyCap { new_cap: i128 },
    Upgrade { wasm_hash: [u8; 32] },
    CreateStream { sender: Account, recipient: Account, total_amount: i128, start_time: u64, end_time: u64, now: u64 },
    CreateStreamBatch { sender: Account, requests: Vec<StreamRequest>, now: u64 },
    TopUp { id: u64, sender: Account, amount: i128 },
    ExtendStream { id: u64, sender: Account, new_end: u64 },
    Withdraw { id: u64, recipient: Account, now: u64 },
    Cancel { id: u64, caller: Account, now: u64 },
}

/// The contract after `call`, as the methods of `StreamPayContract` state
/// it: the step's new state on success; on refusal, the same state with the
/// authorization demanded before the checks.
pub open spec fn after(st: ContractState, call: Call) -> ContractState {
    match call {
        Call::Initialize { admin, token } => match initialize_step(st.config, admin, token) {
            Ok((c, e)) => with_config(st, c, e),
            Err(_) => st,
        },
        Call::ScheduleAdminTransfer { admin, new_admin, now } => match schedule_step(st.config, now, admin, new_admin) {
            Ok((c, e, _t)) => with_config(st, c, e),
            Err(_) => with_demand(st, caller_demand(st.config, admin)),
        },
        Call::ExecuteAdminTransfer { now } => match execute_step(st.config, now) {
            Ok((c, e)) => with_config(st, c, e),
            Err(_) => st,
        },
        Call::CancelAdminTransfer { admin } => match cancel_admin_step(st.config, admin) {
            Ok((c, e)) => with_config(st, c, e),
            Err(_) => with_demand(st, caller_demand(st.config, admin)),
        },
        Call::SetAdmin { new_admin } => match set_admin_step(st.config, new_admin) {
            Ok((c, e)) => with_config(st, c, e),
            Err(_) => with_demand(st, demand(st.config.admin)),
        },
        Call::SetSupplyCap { new_cap } => match set_supply_cap_step(st.config, new_cap) {
            Ok((c, e)) => with_config(st, c, e),
            Err(_) => with_demand(st, demand(st.config.admin)),
        },
        Call::Upgrade { wasm_hash } => match upgrade_step(st.config, wasm_hash) {
            Ok((c, e)) => with_config(st, c, e),
            Err(_) => with_demand(st, demand(st.config.admin)),
        },
        Call::CreateStream { sender, recipient, total_amount, start_time, end_time, now } => match create_step(
            st.config,
            now,
            sender,
            recipient,
            total_amount,
            start_time,
            end_time,
        ) {
            Ok((c, s, e)) => ContractState { config: c, streams: st.streams.push(s), outbox: st.outbox + e },
            Err(_) => with_demand(st, caller_demand(st.config, sender)),
        },
        Call::CreateStreamBatch { sender, requests, now } => match batch_step(st.config, now, sender, requests@) {
            Ok((c, sts, e)) => ContractState { config: c, streams: st.streams + sts, outbox: st.outbox + e },
            Err(_) => with_demand(st, caller_demand(st.config, sender)),
        },
        Call::TopUp { id, sender, amount } => match top_up_step(st.config, stream_at(st, id), id, sender, amount) {
            Ok((c, s, e, _t)) => with_stream(st, c, id, s, e),
            Err(_) => with_demand(st, seq![Effect::RequireAuth(sender)]),
        },
        Call::ExtendStream { id, sender, new_end } => match extend_step(st.config, stream_at(st, id), id, sender, new_end) {
            Ok((c, s, e)) => with_stream(st, c, id, s, e),
            Err(_) => with_demand(st, seq![Effect::RequireAuth(sender)]),
        },
        Call::Withdraw { id, recipient, now } => match withdraw_step(st.config, stream_at(st, id), id, recipient, now) {
            Ok((c, s, e, _a)) => with_stream(st, c, id, s, e),
            Err(_) => with_demand(st, seq![Effect::RequireAuth(recipient)]),
        },
        Call::Cancel { id, caller, now } => match cancel_step(st.config, stream_at(st, id), id, caller, now) {
            Ok((c, s, e)) => with_stream(st, c, id, s, e),
            Err(_) => with_demand(st, seq![Effect::RequireAuth(caller)]),
        },
    }
}

/// The contract after the calls `calls`, made in order.
pub open spec fn run(st: ContractState, calls: Seq<Call>) -> ContractState
    decreases calls.len(),
{
    if calls.len() == 0 {
        st
    } else {
        after(run(st, calls.drop_last()), calls.last())
    }
}

/// A contract without an admin has handed out no stream id.
pub open spec fn counter_consistent(st: ContractState) -> bool {
    st.config.admin is None ==> st.config.counter == 0
}

/// One call keeps the counter consistent and never lowers it.
proof fn lemma_after_counter(st: ContractState, call: Call)
    requires
        counter_consistent(st),
    ensures
        counter_consistent(after(st, call)),
        after(st, call).config.counter >= st.config.counter,
{
}

/// The stream counter never decreases: whatever calls are made, in whatever
/// order and with whatever outcome, it ends at least where it started (every
/// contract satisfying its invariant has a consistent counter).
pub proof fn law_counter_never_decreases(st: ContractState, calls: Seq<Call>)
    requires
        counter_consistent(st),
    ensures
        counter_consistent(run(st, calls)),
        run(st, calls).config.counter >= st.config.counter,
    decreases calls.len(),
{
    if calls.len() > 0 {
        law_counter_never_decreases(st, calls.drop_last());
        lemma_after_counter(run(st, calls.drop_last()), calls.last());
    }
}

/// A contract satisfying its invariant has a consistent counter.
pub proof fn lemma_state_ok_counter(st: ContractState)
    requires
        state_ok(st),
    ensures
        counter_consistent(st),
{
}

/// A call that leaves the admin and the scheduled transfer alone: not a
/// scheduling, cancellation or direct hand-over of the admin role, and not an
/// execution at or after `t`.
pub open spec fn leaves_governance(call: Call, t: u64) -> bool {
    match call {
        Call::ScheduleAdminTransfer { .. } => false,
        Call::CancelAdminTransfer { .. } => false,
        Call::SetAdmin { .. } => false,
        Call::ExecuteAdminTransfer { now } => now < t,
        _ => true,
    }
}

/// One such call keeps the admin and the scheduled transfer.
proof fn lemma_after_governance(st: ContractState, call: Call, a: Account, b: Account, t: u64)
    requires
        st.config.admin == Some(a),
        st.config.pending_admin == Some(b),
        st.config.execute_after == Some(t),
        leaves_governance(call, t),
    ensures
        after(st, call).config.admin == Some(a),
        after(st, call).config.pending_admin == Some(b),
        after(st, call).config.execute_after == Some(t),
{
}

/// The admin timelock holds across any other calls: once `b` is scheduled to
/// replace `a` from `t` on, and until the transfer is rescheduled, cancelled
/// or overridden by `set_admin`, the admin stays `a` and the transfer stays
/// scheduled; an execution before `t` is refused with `TimelockNotExpired`,
/// and one at or after `t`, by anyone, succeeds and makes `b` the admin.
pub proof fn law_timelock_across_calls(st: ContractState, calls: Seq<Call>, a: Account, b: Account, t: u64, now: u64)
    requires
        st.config.admin == Some(a),
        st.config.pending_admin == Some(b),
        st.config.execute_after == Some(t),
        forall|i: int| 0 <= i < calls.len() ==> leaves_governance(#[trigger] calls[i], t),
    ensures
        run(st, calls).config.admin == Some(a),
        run(st, calls).config.pending_admin == Some(b),
        run(st, calls).config.execute_after == Some(t),
        now < t ==> execute_step(run(st, calls).config, now) == Err::<(Config, Seq<Effect>), crate::error::Error>(
            crate::error::Error::TimelockNotExpired,
        ),
        now >= t ==> (execute_step(run(st, calls).config, now) matches Ok((c2, _e)) && c2.admin == Some(b)
            && c2.pending_admin is None && c2.execute_after is None),
    decreases calls.len(),
{
    if calls.len() > 0 {
        let d = calls.drop_last();
        assert forall|i: int| 0 <= i < d.len() implies leaves_governance(#[trigger] d[i], t) by {
            assert(d[i] == calls[i]);
        }
        law_timelock_across_calls(st, d, a, b, t, now);
        lemma_after_governance(run(st, d), calls.last(), a, b, t);
    }
}

/// How many streams `call` opens on the contract `st`: one for a successful
/// `create_stream`, one per request for a successful `create_stream_batch`,
/// none for any other call or any refused one.
pub open spec fn opened_by(st: ContractState, call: Call) -> nat {
    match call {
        Call::CreateStream { sender, recipient, total_amount, start_time, end_time, now } => if create_step(
            st.config,
            now,
            sender,
            recipient,
            total_amount,
            start_time,
            end_time,
        ) is Ok {
            1
        } else {
            0
        },
        Call::CreateStreamBatch { sender, requests, now } => if batch_step(st.config, now, sender, requests@) is Ok {
            requests@.len()
        } else {
            0
        },
        _ => 0,
    }
}

/// How many streams the calls `calls`, made in order on `st`, open.
pub open spec fn opened(st: ContractState, calls: Seq<Call>) -> nat
    decreases calls.len(),
{
    if calls.len() == 0 {
        0
    } else {
        opened(st, calls.drop_last()) + opened_by(run(st, calls.drop_last()), calls.last())
    }
}

/// One call moves the counter and the number of stored streams by the
/// number of streams it opens.
proof fn lemma_after_opened(st: ContractState, call: Call)
    requires
        counter_consistent(st),
    ensures
        after(st, call).config.counter == st.config.counter + opened_by(st, call),
        after(st, call).streams.len() == st.streams.len() + opened_by(st, call),
{
}

/// The stream counter counts the streams opened: over any run of calls it
/// grows by exactly the number of successful `create_stream` calls plus the
/// number of requests of successful `create_stream_batch` calls, and so
/// does the number of stored streams. On a contract satisfying its
/// invariant (a fresh one among them) the counter therefore stays equal to
/// the number of stored streams, which exist exactly for the ids below it.
pub proof fn law_counter_counts_opened_streams(st: ContractState, calls: Seq<Call>)
    requires
        counter_consistent(st),
    ensures
        run(st, calls).config.counter == st.config.counter + opened(st, calls),
        run(st, calls).streams.len() == st.streams.len() + opened(st, calls),
        st.config.counter == st.streams.len() ==> run(st, calls).config.counter == run(st, calls).streams.len(),
    decreases calls.len(),
{
    if calls.len() > 0 {
        let d = calls.drop_last();
        law_counter_counts_opened_streams(st, d);
        law_counter_never_decreases(st, d);
        lemma_after_opened(run(st, d), calls.last());
    }
}

/// The amount that `fx` pays out of the contract to `who`.
pub open spec fn paid_to(fx: Seq<Effect>, who: Account) -> int
    decreases fx.len(),
{
    if fx.len() == 0 {
        0
    } else {
        paid_to(fx.drop_last(), who) + match fx.last() {
            Effect::Payout { to, amount } => if to == who {
                amount as int
            } else {
                0
            },
            _ => 0,
        }
    }
}

/// Payouts to one account add up over concatenation.
pub proof fn lemma_paid_to_concat(a: Seq<Effect>, b: Seq<Effect>, who: Account)
    ensures
        paid_to(a + b, who) == paid_to(a, who) + paid_to(b, who),
    decreases b.len(),
{
    if b.len() == 0 {
        assert(a + b =~= a);
    } else {
        lemma_paid_to_concat(a, b.drop_last(), who);
        assert((a + b).drop_last() =~= a + b.drop_last());
    }
}

/// Who gets what when a stream is cancelled at `now`: with `v` the amount
/// vested at `now`, the recipient is owed `max(0, v - withdrawn)` and the
/// sender gets back `total - max(v, withdrawn)`. These are the figures the
/// `cancelled` event reports, and (when sender and recipient differ) the
/// tokens each of them receives. Before the start nothing has vested, so the
/// recipient gets nothing and the sender everything not yet withdrawn; from
/// the end on (of a window that has started) everything has vested, so the
/// sender gets nothing back.
pub proof fn law_cancel_pays_each_party_its_share(c: Config, s: Stream, id: u64, caller: Account, now: u64)
    requires
        0 <= s.withdrawn <= s.total,
        cancel_step(c, Some(s), id, caller, now) is Ok,
    ensures
        vested_amount(s, now) is Ok,
        ({
            let (_c2, _s2, fx) = cancel_step(c, Some(s), id, caller, now)->Ok_0;
            let v = vested_amount(s, now)->Ok_0;
            let owed: int = if v > s.withdrawn { v - s.withdrawn } else { 0 };
            let back: int = s.total - (if v > s.withdrawn { v as int } else { s.withdrawn as int });
            &&& 0 <= owed
            &&& 0 <= back
            &&& owed + back == s.total - s.withdrawn
            &&& fx.last() == Effect::Publish(crate::effects::Event::Cancelled {
                id,
                caller,
                sender_refund: back as i128,
                recipient_paid: owed as i128,
            })
            &&& s.sender != s.recipient ==> paid_to(fx, s.recipient) == owed && paid_to(fx, s.sender) == back
            &&& now <= s.start ==> owed == 0 && back == s.total - s.withdrawn
            &&& now >= s.end && now > s.start ==> back == 0 && owed == s.total - s.withdrawn
        }),
{
    let v = vested_amount(s, now)->Ok_0;
    lemma_vested_bounds(s, now);
    let kept = cancel_kept(s, v);
    let paid: i128 = if v > s.withdrawn { (v - s.withdrawn) as i128 } else { 0 };
    let refund = (s.total - kept) as i128;
    let head = seq![
        Effect::RequireAuth(caller),
        Effect::ExtendPersistent { key: crate::storage::DataKey::Stream(id), threshold: BUMP_THRESHOLD, extend_to: BUMP_EXTEND },
    ];
    let p1: Seq<Effect> = if paid > 0 { seq![Effect::Payout { to: s.recipient, amount: paid }] } else { Seq::empty() };
    let p2: Seq<Effect> = if refund > 0 { seq![Effect::Payout { to: s.sender, amount: refund }] } else { Seq::empty() };
    let payouts = cancel_payouts(s, paid, refund);
    assert(payouts == p1 + p2);
    let tail = seq![Effect::Publish(crate::effects::Event::Cancelled { id, caller, sender_refund: refund, recipient_paid: paid })];
    let fx = cancel_step(c, Some(s), id, caller, now)->Ok_0.2;
    assert(fx == head + payouts + tail);
    assert(fx.last() == tail[0]);
    if s.sender != s.recipient {
        lemma_paid_to_concat(head, payouts, s.recipient);
        lemma_paid_to_concat(head + payouts, tail, s.recipient);
        lemma_paid_to_concat(p1, p2, s.recipient);
        lemma_paid_to_concat(head, payouts, s.sender);
        lemma_paid_to_concat(head + payouts, tail, s.sender);
        lemma_paid_to_concat(p1, p2, s.sender);
        reveal_with_fuel(paid_to, 3);
    }
}

/// A successful top-up raises the escrow held by the contract by exactly the
/// amount and keeps it within the supply cap; a top-up that passes every
/// other check but would lift the escrow above the cap is refused with
/// `SupplyCapExceeded`.
pub proof fn law_top_up_within_cap(c: Config, found: Option<Stream>, id: u64, sender: Account, amount: i128)
    ensures
        top_up_step(c, found, id, sender, amount) matches Ok((c2, s2, _e, t)) ==> {
            &&& c2.total_supply == c.total_supply + amount
            &&& c2.supply_cap == c.supply_cap
            &&& c2.total_supply <= c2.supply_cap
            &&& t == found->0.total + amount
            &&& s2.total == t
        },
        ({
            &&& amount >= 1
            &&& found matches Some(s)
            &&& sender.key() == s.sender.key()
            &&& s.status == Status::Active
            &&& i128::MIN <= s.total + amount <= i128::MAX
            &&& i128::MIN <= c.total_supply + amount <= i128::MAX
            &&& c.total_supply + amount > c.supply_cap
        }) ==> top_up_step(c, found, id, sender, amount) == Err::<(Config, Stream, Seq<Effect>, i128), crate::error::Error>(
            crate::error::Error::SupplyCapExceeded,
        ),
{
}

/// A successful stream creation raises the escrow held by the contract by
/// exactly the amount and keeps it within the supply cap; a creation that
/// passes every other check but would lift the escrow above the cap is
/// refused with `SupplyCapExceeded`.
pub proof fn law_create_within_cap(
    c: Config,
    now: u64,
    sender: Account,
    recipient: Account,
    amount: i128,
    start_time: u64,
    end_time: u64,
)
    ensures
        create_step(c, now, sender, recipient, amount, start_time, end_time) matches Ok((c2, s2, _e)) ==> {
            &&& c2.total_supply == c.total_supply + amount
            &&& c2.supply_cap == c.supply_cap
            &&& c2.total_supply <= c2.supply_cap
            &&& s2.total == amount
        },
        ({
            &&& c.admin is Some
            &&& request_error(now, amount, start_time, end_time) is None
            &&& i128::MIN <= c.total_supply + amount <= i128::MAX
            &&& c.total_supply + amount > c.supply_cap
        }) ==> create_step(c, now, sender, recipient, amount, start_time, end_time) == Err::<
            (Config, Stream, Seq<Effect>),
            crate::error::Error,
        >(crate::error::Error::SupplyCapExceeded),
{
}

/// The sum of the amounts requested by `reqs`.
pub open spec fn requested_sum(reqs: Seq<StreamRequest>) -> int
    decreases reqs.len(),
{
    if reqs.len() == 0 {
        0
    } else {
        reqs[0].total_amount + requested_sum(reqs.drop_first())
    }
}

/// Summing from the back gives the same total.
proof fn lemma_requested_sum_from_back(reqs: Seq<StreamRequest>)
    ensures
        requested_sum(reqs) == batch_total(reqs),
    decreases reqs.len(),
{
    if reqs.len() > 0 {
        lemma_requested_sum_from_back(reqs.drop_first());
        lemma_requested_sum_from_back(reqs.drop_last());
        if reqs.len() > 1 {
            lemma_requested_sum_from_back(reqs.drop_first().drop_last());
            assert(reqs.drop_first().drop_last() =~= reqs.drop_last().drop_first());
        } else {
            assert(reqs.drop_first().len() == 0);
            assert(reqs.drop_last().len() == 0);
        }
    }
}

/// A batch of requests each acceptable on its own passes the batch checks.
proof fn lemma_batch_ok_when_each_ok(now: u64, reqs: Seq<StreamRequest>)
    requires
        forall|i: int| 0 <= i < reqs.len() ==> (#[trigger] request_error(now, reqs[i].total_amount, reqs[i].start_time, reqs[i].end_time)) is None,
    ensures
        batch_error(now, reqs) is None,
    decreases reqs.len(),
{
    if reqs.len() > 0 {
        let d = reqs.drop_last();
        assert forall|i: int| 0 <= i < d.len() implies (#[trigger] request_error(now, d[i].total_amount, d[i].start_time, d[i].end_time)) is None by {
            assert(d[i] == reqs[i]);
        }
        lemma_batch_ok_when_each_ok(now, d);
        let l = reqs.len() - 1;
        assert(request_error(now, reqs[l].total_amount, reqs[l].start_time, reqs[l].end_time) is None);
    }
}

/// A successful batch raises the escrow held by the contract by exactly the
/// sum of the requested amounts, and keeps it within the supply cap: the
/// escrow already held counts against the cap too. A batch that passes every
/// other check but would lift the escrow above the cap is refused with
/// `SupplyCapExceeded`.
pub proof fn law_batch_within_cap(c: Config, now: u64, sender: Account, reqs: Seq<StreamRequest>)
    ensures
        batch_step(c, now, sender, reqs) matches Ok((c2, sts, _e)) ==> {
            &&& c2.total_supply == c.total_supply + requested_sum(reqs)
            &&& c2.supply_cap == c.supply_cap
            &&& c2.total_supply <= c2.supply_cap
            &&& sts.len() == reqs.len()
        },
        ({
            &&& c.admin is Some
            &&& reqs.len() > 0
            &&& forall|i: int| 0 <= i < reqs.len() ==> (#[trigger] request_error(now, reqs[i].total_amount, reqs[i].start_time, reqs[i].end_time)) is None
            &&& i128::MIN <= requested_sum(reqs) <= i128::MAX
            &&& i128::MIN <= c.total_supply + requested_sum(reqs) <= i128::MAX
            &&& c.total_supply + requested_sum(reqs) > c.supply_cap
        }) ==> batch_step(c, now, sender, reqs) == Err::<(Config, Seq<Stream>, Seq<Effect>), crate::error::Error>(
            crate::error::Error::SupplyCapExceeded,
        ),
{
    lemma_requested_sum_from_back(reqs);
    if forall|i: int| 0 <= i < reqs.len() ==> (#[trigger] request_error(now, reqs[i].total_amount, reqs[i].start_time, reqs[i].end_time)) is None {
        lemma_batch_ok_when_each_ok(now, reqs);
    }
}

/// The summary agrees with the single queries: its vested amount is the
/// vested amount, its withdrawn amount the stream's, and what it reports as
/// withdrawable is the vested amount less what was withdrawn, the same as
/// `withdrawable_amount` gives at the same moment. It is available exactly
/// when the vested amount is and that difference fits, which for a valid
/// stream is whenever the vested amount is.
pub proof fn law_summary_matches_queries(s: Stream, now: u64)
    ensures
        summary_at(s, now) matches Ok(sum) ==> {
            &&& sum.total == s.total
            &&& sum.vested == vested_amount(s, now)->Ok_0
            &&& sum.withdrawn == s.withdrawn
            &&& sum.withdrawable == sum.vested - sum.withdrawn
            &&& withdrawable_at(s, now) == Ok::<i128, crate::error::Error>(sum.withdrawable)
            &&& sum.progress_bps == progress_at(s, now)
            &&& sum.status == s.status
        },
        summary_at(s, now) is Ok <==> (vested_amount(s, now) is Ok && i128::MIN <= vested_amount(s, now)->Ok_0
            - s.withdrawn <= i128::MAX),
        0 <= s.withdrawn <= s.total && vested_amount(s, now) is Ok ==> summary_at(s, now) is Ok,
{
    if s.total >= 0 {
        lemma_vested_bounds(s, now);
    }
}

} // verus!
