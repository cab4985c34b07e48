//! Scenario tests of the contract, driven through a small stand-in for the
//! ledger that carries out the effects each call asks for: token balances,
//! authorizations, storage time-to-live and published events.

use std::collections::HashMap;

use streampay::contract::StreamPayContract;
use streampay::effects::{Effect, Event};
use streampay::error::Error;
use streampay::storage::{DataKey, BUMP_EXTEND, BUMP_THRESHOLD};
use streampay::types::{Account, Status, StreamRequest};

const CONTRACT: &str = "CONTRACT";
/// Time-to-live that fresh storage entries start with.
const INITIAL_TTL: u32 = 4_096;

fn acct(name: &str) -> Account {
    Account(String::from(name))
}

/// The environment around the contract.
struct Ledger {
    balances: HashMap<String, i128>,
    /// Accounts whose authorization is granted; `None` grants every one.
    authorized: Option<Vec<Account>>,
    auths: Vec<Account>,
    events: Vec<Event>,
    instance_ttl: u32,
    stream_ttl: HashMap<u64, u32>,
    code: Option<[u8; 32]>,
}

impl Ledger {
    fn new() -> Ledger {
        Ledger {
            balances: HashMap::new(),
            authorized: None,
            auths: Vec::new(),
            events: Vec::new(),
            instance_ttl: INITIAL_TTL,
            stream_ttl: HashMap::new(),
            code: None,
        }
    }

    fn balance(&self, who: &str) -> i128 {
        *self.balances.get(who).unwrap_or(&0)
    }

    fn mint(&mut self, who: &Account, amount: i128) {
        *self.balances.entry(who.0.clone()).or_insert(0) += amount;
    }

    fn transfer(&mut self, from: &str, to: &str, amount: i128) {
        let have = self.balance(from);
        assert!(have >= amount, "balance is not sufficient to spend");
        self.balances.insert(from.to_string(), have - amount);
        *self.balances.entry(to.to_string()).or_insert(0) += amount;
    }

    fn apply(&mut self, effects: Vec<Effect>) {
        for e in effects {
            match e {
                Effect::RequireAuth(a) => {
                    if let Some(ok) = &self.authorized {
                        if !ok.contains(&a) {
                            panic!("HostError: Error(Auth, InvalidAction)");
                        }
                    }
                    self.auths.push(a);
                }
                Effect::Escrow { from, amount } => self.transfer(&from.0, CONTRACT, amount),
                Effect::Payout { to, amount } => self.transfer(CONTRACT, &to.0, amount),
                Effect::ExtendInstance { threshold, extend_to } => {
                    if self.instance_ttl < threshold {
                        self.instance_ttl = extend_to;
                    }
                }
                Effect::ExtendPersistent { key: DataKey::Stream(id), threshold, extend_to } => {
                    let ttl = self.stream_ttl.entry(id).or_insert(INITIAL_TTL);
                    if *ttl < threshold {
                        *ttl = extend_to;
                    }
                }
                Effect::ExtendPersistent { .. } => {}
                Effect::UpdateCode(h) => self.code = Some(h),
                Effect::Publish(ev) => self.events.push(ev),
            }
        }
    }

    /// Lets `ledgers` ledgers pass: every time-to-live shrinks.
    fn advance(&mut self, ledgers: u32) {
        self.instance_ttl = self.instance_ttl.saturating_sub(ledgers);
        for ttl in self.stream_ttl.values_mut() {
            *ttl = ttl.saturating_sub(ledgers);
        }
    }
}

/// An initialized contract with a funded sender.
struct Setup {
    contract: StreamPayContract,
    ledger: Ledger,
    now: u64,
    admin: Account,
    token: Account,
    sender: Account,
    recipient: Account,
}

fn bare() -> Setup {
    Setup {
        contract: StreamPayContract::new(),
        ledger: Ledger::new(),
        now: 0,
        admin: acct("admin"),
        token: acct("token"),
        sender: acct("sender"),
        recipient: acct("recipient"),
    }
}

fn setup() -> Setup {
    let mut s = bare();
    let (admin, token) = (s.admin.clone(), s.token.clone());
    s.initialize(&admin, &token).unwrap();
    let sender = s.sender.clone();
    s.ledger.mint(&sender, 1_000_000);
    s
}

impl Setup {
    fn set_time(&mut self, t: u64) {
        self.now = t;
    }

    /// Carries out what the call asked for: everything on success, the
    /// authorization demanded before the checks on refusal.
    fn settle<T>(&mut self, r: Result<T, Error>) -> Result<T, Error> {
        let fx = self.contract.take_effects();
        self.ledger.apply(fx);
        r
    }

    fn initialize(&mut self, admin: &Account, token: &Account) -> Result<(), Error> {
        let r = self.contract.initialize(admin.clone(), token.clone());
        self.settle(r)
    }

    fn create(&mut self, total: i128, start: u64, end: u64) -> Result<u64, Error> {
        let (sender, recipient) = (self.sender.clone(), self.recipient.clone());
        self.create_for(&sender, &recipient, total, start, end)
    }

    fn create_for(&mut self, sender: &Account, recipient: &Account, total: i128, start: u64, end: u64) -> Result<u64, Error> {
        let r = self.contract.create_stream(sender.clone(), recipient.clone(), total, start, end, self.now);
        self.settle(r)
    }

    fn batch(&mut self, requests: Vec<StreamRequest>) -> Result<Vec<u64>, Error> {
        let sender = self.sender.clone();
        let r = self.contract.create_stream_batch(sender, requests, self.now);
        self.settle(r)
    }

    fn withdraw(&mut self, id: u64, who: &Account) -> Result<i128, Error> {
        let r = self.contract.withdraw(id, who.clone(), self.now);
        self.settle(r)
    }

    fn cancel(&mut self, id: u64, who: &Account) -> Result<(), Error> {
        let r = self.contract.cancel(id, who.clone(), self.now);
        self.settle(r)
    }

    fn top_up(&mut self, id: u64, who: &Account, amount: i128) -> Result<i128, Error> {
        let r = self.contract.top_up(id, who.clone(), amount);
        self.settle(r)
    }

    fn extend(&mut self, id: u64, who: &Account, new_end: u64) -> Result<(), Error> {
        let r = self.contract.extend_stream(id, who.clone(), new_end);
        self.settle(r)
    }

    fn schedule(&mut self, admin: &Account, new_admin: &Account) -> Result<u64, Error> {
        let r = self.contract.schedule_admin_transfer(admin.clone(), new_admin.clone(), self.now);
        self.settle(r)
    }

    fn execute(&mut self) -> Result<(), Error> {
        let r = self.contract.execute_admin_transfer(self.now);
        self.settle(r)
    }

    fn cancel_admin(&mut self, admin: &Account) -> Result<(), Error> {
        let r = self.contract.cancel_admin_transfer(admin.clone());
        self.settle(r)
    }

    fn set_cap(&mut self, cap: i128) -> Result<(), Error> {
        let r = self.contract.set_supply_cap(cap);
        self.settle(r)
    }

    fn streamed(&self, id: u64) -> i128 {
        self.contract.streamed_amount(id, self.now).unwrap()
    }

    fn contract_balance(&self) -> i128 {
        self.ledger.balance(CONTRACT)
    }

    fn balance(&self, who: &Account) -> i128 {
        self.ledger.balance(&who.0)
    }
}

fn request(recipient: &Account, total_amount: i128, start_time: u64, end_time: u64) -> StreamRequest {
    StreamRequest { recipient: recipient.clone(), total_amount, start_time, end_time }
}

#[test]
fn test_initialize_sets_admin_and_token() {
    let s = setup();
    assert_eq!(s.contract.get_admin(), Ok(s.admin.clone()));
    assert_eq!(s.contract.get_token(), Ok(s.token.clone()));
    assert_eq!(s.contract.stream_counter(), 0);
}

#[test]
fn test_initialize_twice_fails() {
    let mut s = setup();
    let (admin, token) = (s.admin.clone(), s.token.clone());
    let res = s.initialize(&admin, &token);
    assert_eq!(res, Err(Error::AlreadyInitialized));
}

#[test]
fn test_admin_transfer_requires_timelock_then_executes() {
    let mut s = setup();
    let new_admin = acct("new_admin");
    s.set_time(1_000);
    let admin = s.admin.clone();

    let execute_after = s.schedule(&admin, &new_admin).unwrap();
    assert_eq!(execute_after, 1_000 + streampay::ADMIN_TIMELOCK_DELAY);
    assert_eq!(s.contract.get_pending_admin(), Ok(Some(new_admin.clone())));
    assert_eq!(s.contract.get_admin_action_execute_after(), Ok(Some(execute_after)));
    assert_eq!(s.execute(), Err(Error::TimelockNotExpired));

    s.set_time(execute_after);
    // The executor is intentionally permissionless after the delay.
    s.execute().unwrap();
    assert_eq!(s.contract.get_admin(), Ok(new_admin));
    assert_eq!(s.contract.get_pending_admin(), Ok(None));
    assert_eq!(s.contract.get_admin_action_execute_after(), Ok(None));
}

#[test]
fn test_admin_transfer_can_be_replaced_or_cancelled_by_current_admin() {
    let mut s = setup();
    let first = acct("first");
    let replacement = acct("replacement");
    let admin = s.admin.clone();
    s.schedule(&admin, &first).unwrap();
    s.schedule(&admin, &replacement).unwrap();
    assert_eq!(s.contract.get_pending_admin(), Ok(Some(replacement)));

    s.cancel_admin(&admin).unwrap();
    assert_eq!(s.contract.get_pending_admin(), Ok(None));
    assert_eq!(s.execute(), Err(Error::NoPendingAdminAction));
}

#[test]
fn test_admin_transfer_rejects_non_admin_and_noop_transfer() {
    let mut s = setup();
    let stranger = acct("stranger");
    let new_admin = acct("new_admin");
    let admin = s.admin.clone();
    assert_eq!(s.schedule(&stranger, &new_admin), Err(Error::Unauthorized));
    assert_eq!(s.schedule(&admin, &admin), Err(Error::InvalidAdminAction));
    assert_eq!(s.cancel_admin(&admin), Err(Error::NoPendingAdminAction));
}

#[test]
fn test_admin_transfer_events_emit_payloads() {
    let mut s = setup();
    let first_admin = acct("first_admin");
    let replacement_admin = acct("replacement_admin");
    s.set_time(1_000);
    let admin = s.admin.clone();

    let execute_after = s.schedule(&admin, &first_admin).unwrap();
    assert_eq!(s.ledger.events.len(), 1);
    assert_eq!(
        s.ledger.events[0],
        Event::AdminScheduled { current_admin: admin.clone(), pending_admin: first_admin.clone(), execute_after }
    );

    s.set_time(execute_after);
    s.execute().unwrap();
    assert_eq!(s.ledger.events.len(), 2);
    assert_eq!(
        s.ledger.events[1],
        Event::AdminTransfer { previous_admin: admin.clone(), new_admin: first_admin.clone() }
    );

    s.schedule(&first_admin, &replacement_admin).unwrap();
    s.cancel_admin(&first_admin).unwrap();
    assert_eq!(s.ledger.events.len(), 4);
    assert!(matches!(s.ledger.events[2], Event::AdminScheduled { .. }));
    assert_eq!(s.ledger.events[3], Event::AdminCancelled { admin: first_admin.clone() });
}

#[test]
fn test_create_stream_escrows_and_returns_id() {
    let mut s = setup();
    let id = s.create(1_000, 100, 200).unwrap();
    assert_eq!(id, 0);
    assert_eq!(s.contract.stream_counter(), 1);

    // The escrowed funds left the sender and now sit in the contract.
    assert_eq!(s.balance(&s.sender), 1_000_000 - 1_000);
    assert_eq!(s.contract_balance(), 1_000);

    let stream = s.contract.get_stream(id).unwrap();
    assert_eq!(stream.sender, s.sender);
    assert_eq!(stream.recipient, s.recipient);
    assert_eq!(stream.total, 1_000);
    assert_eq!(stream.withdrawn, 0);
    assert_eq!(stream.start, 100);
    assert_eq!(stream.end, 200);
    assert_eq!(stream.status, Status::Active);
}

#[test]
fn test_create_stream_emits_created_event_payload() {
    let mut s = setup();
    let id = s.create(1_000, 100, 200).unwrap();
    assert_eq!(s.ledger.events.len(), 1);
    assert_eq!(
        s.ledger.events[0],
        Event::Created { id, sender: s.sender.clone(), recipient: s.recipient.clone(), total: 1_000 }
    );
}

#[test]
fn test_create_stream_batch_emits_created_event_payloads() {
    let mut s = setup();
    let second_recipient = acct("second_recipient");
    let requests = vec![request(&s.recipient, 1_000, 100, 200), request(&second_recipient, 2_000, 150, 300)];

    let ids = s.batch(requests).unwrap();
    assert_eq!(ids, vec![0_u64, 1_u64]);

    assert_eq!(s.ledger.events.len(), 2);
    assert_eq!(
        s.ledger.events[0],
        Event::Created { id: 0, sender: s.sender.clone(), recipient: s.recipient.clone(), total: 1_000 }
    );
    assert_eq!(
        s.ledger.events[1],
        Event::Created { id: 1, sender: s.sender.clone(), recipient: second_recipient.clone(), total: 2_000 }
    );
}

#[test]
fn test_create_stream_batch_creates_streams_and_escrows_total() {
    let mut s = setup();
    let second_recipient = acct("second_recipient");
    let requests = vec![request(&s.recipient, 1_000, 100, 200), request(&second_recipient, 2_000, 150, 300)];

    let ids = s.batch(requests).unwrap();
    assert_eq!(ids, vec![0_u64, 1_u64]);
    assert_eq!(s.contract.stream_counter(), 2);
    assert_eq!(s.contract.get_stream(0).unwrap().recipient, s.recipient);
    assert_eq!(s.contract.get_stream(1).unwrap().recipient, second_recipient);
    assert_eq!(s.balance(&s.sender), 1_000_000 - 3_000);
    assert_eq!(s.contract_balance(), 3_000);
}

#[test]
fn test_create_stream_batch_rejects_invalid_request_atomically() {
    let mut s = setup();
    let requests = vec![request(&s.recipient, 1_000, 100, 200), request(&acct("other"), 0, 100, 200)];

    assert_eq!(s.batch(requests), Err(Error::InvalidAmount));
    assert_eq!(s.contract.stream_counter(), 0);
    assert_eq!(s.balance(&s.sender), 1_000_000);
    assert_eq!(s.contract_balance(), 0);
}

#[test]
fn test_create_stream_batch_rejects_empty_batch() {
    let mut s = setup();
    assert_eq!(s.batch(Vec::new()), Err(Error::EmptyBatch));
}

#[test]
fn test_create_stream_rejects_zero_amount() {
    let mut s = setup();
    assert_eq!(s.create(0, 100, 200), Err(Error::InvalidAmount));
}

#[test]
fn test_create_stream_rejects_bad_time_range() {
    let mut s = setup();
    assert_eq!(s.create(1_000, 200, 100), Err(Error::InvalidTimeRange));
}

#[test]
fn test_get_summary_bundles_figures() {
    let mut s = setup();
    let id = s.create(1_000, 100, 200).unwrap();

    s.set_time(150);
    let summary = s.contract.get_summary(id, s.now).unwrap();
    assert_eq!(summary.total, 1_000);
    assert_eq!(summary.vested, 500);
    assert_eq!(summary.withdrawn, 0);
    assert_eq!(summary.withdrawable, 500);
    assert_eq!(summary.progress_bps, 5_000);
    assert_eq!(summary.status, Status::Active);
}

#[test]
fn test_create_stream_rejects_past_end_time() {
    let mut s = setup();
    // Advance the ledger past the proposed end time.
    s.set_time(500);
    assert_eq!(s.create(1_000, 100, 200), Err(Error::EndTimeInPast));
}

#[test]
fn test_streamed_amount_zero_before_start() {
    let mut s = setup();
    let id = s.create(1_000, 100, 200).unwrap();
    s.set_time(50);
    assert_eq!(s.streamed(id), 0);
}

#[test]
fn test_streamed_amount_half_at_midpoint() {
    let mut s = setup();
    let id = s.create(1_000, 100, 200).unwrap();
    // Halfway through the window should vest half of the total.
    s.set_time(150);
    assert_eq!(s.streamed(id), 500);
}

#[test]
fn test_streamed_amount_full_after_end() {
    let mut s = setup();
    let id = s.create(1_000, 100, 200).unwrap();
    s.set_time(250);
    assert_eq!(s.streamed(id), 1_000);
}

#[test]
fn test_streamed_amount_quarter() {
    let mut s = setup();
    let id = s.create(1_000, 100, 200).unwrap();
    // One quarter through the window vests a quarter of the total.
    s.set_time(125);
    assert_eq!(s.streamed(id), 250);
}

#[test]
fn test_withdrawable_amount_tracks_withdrawals() {
    let mut s = setup();
    let id = s.create(1_000, 100, 200).unwrap();

    // Before start nothing is withdrawable.
    s.set_time(50);
    assert_eq!(s.contract.withdrawable_amount(id, s.now), Ok(0));

    // At the midpoint the full vested half is withdrawable.
    s.set_time(150);
    assert_eq!(s.contract.withdrawable_amount(id, s.now), Ok(500));

    // After withdrawing, the withdrawable amount drops back to zero.
    let recipient = s.recipient.clone();
    s.withdraw(id, &recipient).unwrap();
    assert_eq!(s.contract.withdrawable_amount(id, s.now), Ok(0));
}

#[test]
fn test_remaining_amount_complements_streamed() {
    let mut s = setup();
    let id = s.create(1_000, 100, 200).unwrap();

    s.set_time(125);
    // remaining + streamed always equals the escrowed total.
    assert_eq!(s.streamed(id), 250);
    assert_eq!(s.contract.remaining_amount(id, s.now), Ok(750));

    s.set_time(250);
    assert_eq!(s.contract.remaining_amount(id, s.now), Ok(0));
}

#[test]
fn test_duration_returns_window_length() {
    let mut s = setup();
    let id = s.create(1_000, 100, 200).unwrap();
    assert_eq!(s.contract.duration(id), Ok(100));
}

#[test]
fn test_elapsed_clamps_to_window() {
    let mut s = setup();
    let id = s.create(1_000, 100, 200).unwrap();

    // Before start no time has elapsed.
    s.set_time(50);
    assert_eq!(s.contract.elapsed(id, s.now), Ok(0));
    // Partway through reports the seconds since start.
    s.set_time(175);
    assert_eq!(s.contract.elapsed(id, s.now), Ok(75));
    // Past the end it saturates at the full window length.
    s.set_time(500);
    assert_eq!(s.contract.elapsed(id, s.now), Ok(100));
}

#[test]
fn test_progress_bps_reports_time_fraction() {
    let mut s = setup();
    let id = s.create(1_000, 100, 200).unwrap();

    s.set_time(50);
    assert_eq!(s.contract.progress_bps(id, s.now), Ok(0));
    s.set_time(150);
    assert_eq!(s.contract.progress_bps(id, s.now), Ok(5_000));
    s.set_time(250);
    assert_eq!(s.contract.progress_bps(id, s.now), Ok(10_000));
}

#[test]
fn test_percent_withdrawn_tracks_total_pulled() {
    let mut s = setup();
    let id = s.create(1_000, 100, 200).unwrap();
    let recipient = s.recipient.clone();

    // Nothing withdrawn yet.
    assert_eq!(s.contract.percent_withdrawn(id), Ok(0));

    // Withdraw half the total at the midpoint -> 5_000 bps.
    s.set_time(150);
    s.withdraw(id, &recipient).unwrap();
    assert_eq!(s.contract.percent_withdrawn(id), Ok(5_000));

    // Withdraw the rest after the end -> 10_000 bps.
    s.set_time(250);
    s.withdraw(id, &recipient).unwrap();
    assert_eq!(s.contract.percent_withdrawn(id), Ok(10_000));
}

#[test]
fn test_status_views_track_lifecycle() {
    let mut s = setup();
    let id = s.create(1_000, 100, 200).unwrap();

    assert_eq!(s.contract.is_active(id), Ok(true));
    assert_eq!(s.contract.get_status(id), Ok(Status::Active));

    s.set_time(150);
    let sender = s.sender.clone();
    s.cancel(id, &sender).unwrap();

    assert_eq!(s.contract.is_active(id), Ok(false));
    assert_eq!(s.contract.get_status(id), Ok(Status::Cancelled));
}

#[test]
fn test_withdraw_transfers_vested_portion() {
    let mut s = setup();
    let id = s.create(1_000, 100, 200).unwrap();
    let recipient = s.recipient.clone();

    s.set_time(150);
    let paid = s.withdraw(id, &recipient).unwrap();
    assert_eq!(paid, 500);
    assert_eq!(s.balance(&recipient), 500);
    assert_eq!(s.contract_balance(), 500);

    let stream = s.contract.get_stream(id).unwrap();
    assert_eq!(stream.withdrawn, 500);
    assert_eq!(stream.status, Status::Active);
}

#[test]
fn test_double_withdraw_only_pays_new_vesting() {
    let mut s = setup();
    let id = s.create(1_000, 100, 200).unwrap();
    let recipient = s.recipient.clone();

    s.set_time(150);
    assert_eq!(s.withdraw(id, &recipient), Ok(500));

    // A second withdraw at the same time has nothing new to pay.
    assert_eq!(s.withdraw(id, &recipient), Err(Error::NothingToWithdraw));

    // Advancing time lets the recipient pull only the newly vested amount.
    s.set_time(175);
    assert_eq!(s.withdraw(id, &recipient), Ok(250));
    assert_eq!(s.balance(&recipient), 750);
}

#[test]
fn test_withdraw_full_after_end_completes_stream() {
    let mut s = setup();
    let id = s.create(1_000, 100, 200).unwrap();
    let recipient = s.recipient.clone();

    s.set_time(300);
    assert_eq!(s.withdraw(id, &recipient), Ok(1_000));
    assert_eq!(s.balance(&recipient), 1_000);

    let stream = s.contract.get_stream(id).unwrap();
    assert_eq!(stream.status, Status::Completed);
}

#[test]
fn test_withdraw_after_completion_fails() {
    let mut s = setup();
    let id = s.create(1_000, 100, 200).unwrap();
    let recipient = s.recipient.clone();

    // Fully withdraw after the end, completing the stream.
    s.set_time(300);
    assert_eq!(s.withdraw(id, &recipient), Ok(1_000));

    // A further withdraw is rejected as already completed.
    assert_eq!(s.withdraw(id, &recipient), Err(Error::AlreadyCompleted));
}

#[test]
fn test_withdraw_by_non_recipient_fails() {
    let mut s = setup();
    let id = s.create(1_000, 100, 200).unwrap();

    s.set_time(150);
    let stranger = acct("stranger");
    assert_eq!(s.withdraw(id, &stranger), Err(Error::Unauthorized));
}

#[test]
fn test_top_up_increases_total_and_escrow() {
    let mut s = setup();
    let id = s.create(1_000, 100, 200).unwrap();
    let sender = s.sender.clone();

    let new_total = s.top_up(id, &sender, 500).unwrap();
    assert_eq!(new_total, 1_500);
    assert_eq!(s.contract.get_stream(id).unwrap().total, 1_500);

    // The extra escrow moved from the sender into the contract.
    assert_eq!(s.contract_balance(), 1_500);
    assert_eq!(s.balance(&sender), 1_000_000 - 1_500);

    // The larger total vests over the same window, so the midpoint is 750.
    s.set_time(150);
    assert_eq!(s.streamed(id), 750);
}

#[test]
fn test_top_up_emits_toppedup_event_payload() {
    let mut s = setup();
    let id = s.create(1_000, 100, 200).unwrap();
    let sender = s.sender.clone();

    let new_total = s.top_up(id, &sender, 500).unwrap();

    assert_eq!(s.ledger.events.len(), 2);
    assert_eq!(s.ledger.events[1], Event::ToppedUp { id, sender: sender.clone(), amount: 500, new_total });
}

#[test]
fn test_top_up_rejects_non_sender_and_bad_amount() {
    let mut s = setup();
    let id = s.create(1_000, 100, 200).unwrap();
    let sender = s.sender.clone();

    let stranger = acct("stranger");
    assert_eq!(s.top_up(id, &stranger, 500), Err(Error::Unauthorized));
    assert_eq!(s.top_up(id, &sender, 0), Err(Error::InvalidAmount));
}

#[test]
fn test_top_up_rejects_cancelled_stream() {
    let mut s = setup();
    let id = s.create(1_000, 100, 200).unwrap();
    let sender = s.sender.clone();

    s.set_time(150);
    s.cancel(id, &sender).unwrap();

    assert_eq!(s.top_up(id, &sender, 500), Err(Error::StreamNotActive));
}

#[test]
fn test_extend_stream_slows_vesting() {
    let mut s = setup();
    let id = s.create(1_000, 100, 200).unwrap();
    let sender = s.sender.clone();

    // Double the window: end moves from 200 to 300.
    s.extend(id, &sender, 300).unwrap();
    assert_eq!(s.contract.get_stream(id).unwrap().end, 300);
    assert_eq!(s.contract.duration(id), Ok(200));

    // At t=150 the former midpoint now vests only a quarter.
    s.set_time(150);
    assert_eq!(s.streamed(id), 250);
}

#[test]
fn test_extend_stream_emits_extended_event_payload() {
    let mut s = setup();
    let id = s.create(1_000, 100, 200).unwrap();
    let sender = s.sender.clone();

    s.extend(id, &sender, 300).unwrap();

    assert_eq!(s.ledger.events.len(), 2);
    assert_eq!(s.ledger.events[1], Event::Extended { id, sender: sender.clone(), old_end: 200, new_end: 300 });
}

#[test]
fn test_extend_stream_rejects_earlier_end() {
    let mut s = setup();
    let id = s.create(1_000, 100, 200).unwrap();
    let sender = s.sender.clone();
    assert_eq!(s.extend(id, &sender, 150), Err(Error::InvalidTimeRange));
}

#[test]
fn test_extend_stream_rejects_non_sender() {
    let mut s = setup();
    let id = s.create(1_000, 100, 200).unwrap();
    let stranger = acct("stranger");
    assert_eq!(s.extend(id, &stranger, 300), Err(Error::Unauthorized));
}

#[test]
fn test_cancel_splits_funds_between_parties() {
    let mut s = setup();
    let id = s.create(1_000, 100, 200).unwrap();
    let sender = s.sender.clone();

    // Cancel at the midpoint: recipient gets 500 vested, sender refunds 500.
    s.set_time(150);
    s.cancel(id, &sender).unwrap();

    assert_eq!(s.balance(&s.recipient), 500);
    assert_eq!(s.balance(&sender), 1_000_000 - 500);
    assert_eq!(s.contract_balance(), 0);

    let stream = s.contract.get_stream(id).unwrap();
    assert_eq!(stream.status, Status::Cancelled);
}

#[test]
fn test_cancel_emits_cancelled_event_payload() {
    let mut s = setup();
    let id = s.create(1_000, 100, 200).unwrap();
    let sender = s.sender.clone();

    s.set_time(150);
    s.cancel(id, &sender).unwrap();

    assert_eq!(s.ledger.events.len(), 2);
    assert_eq!(
        s.ledger.events[1],
        Event::Cancelled { id, caller: sender.clone(), sender_refund: 500, recipient_paid: 500 }
    );
}

#[test]
fn test_cancel_after_partial_withdraw() {
    let mut s = setup();
    let id = s.create(1_000, 100, 200).unwrap();
    let recipient = s.recipient.clone();

    // Recipient withdraws 250 at t=125, then the recipient cancels at t=150.
    s.set_time(125);
    assert_eq!(s.withdraw(id, &recipient), Ok(250));

    s.set_time(150);
    s.cancel(id, &recipient).unwrap();

    // Recipient now holds 500 total (250 + 250 vested-but-unwithdrawn).
    assert_eq!(s.balance(&recipient), 500);
    // Sender is refunded the unstreamed 500.
    assert_eq!(s.balance(&s.sender), 1_000_000 - 500);
}

#[test]
fn test_cancel_by_stranger_fails() {
    let mut s = setup();
    let id = s.create(1_000, 100, 200).unwrap();
    s.set_time(150);
    let stranger = acct("stranger");
    assert_eq!(s.cancel(id, &stranger), Err(Error::Unauthorized));
}

#[test]
fn test_double_cancel_fails() {
    let mut s = setup();
    let id = s.create(1_000, 100, 200).unwrap();
    let sender = s.sender.clone();
    s.set_time(150);
    s.cancel(id, &sender).unwrap();
    assert_eq!(s.cancel(id, &sender), Err(Error::AlreadyCancelled));
}

#[test]
fn test_get_unknown_stream_fails() {
    let s = setup();
    assert_eq!(s.contract.get_stream(42), Err(Error::StreamNotFound));
}

#[test]
fn test_withdraw_after_cancel_fails() {
    let mut s = setup();
    let id = s.create(1_000, 100, 200).unwrap();
    let (sender, recipient) = (s.sender.clone(), s.recipient.clone());

    s.set_time(150);
    s.cancel(id, &sender).unwrap();

    s.set_time(180);
    assert_eq!(s.withdraw(id, &recipient), Err(Error::AlreadyCancelled));
}

#[test]
fn test_create_stream_requires_sender_auth() {
    let mut s = setup();
    s.create(1_000, 100, 200).unwrap();

    // The recorded authorization must come from the sender.
    assert_eq!(s.ledger.auths.len(), 1);
    assert_eq!(s.ledger.auths[0], s.sender);
}

#[test]
fn test_multiple_streams_have_independent_ids() {
    let mut s = setup();
    let first = s.create(1_000, 100, 200).unwrap();
    let second = s.create(2_000, 300, 400).unwrap();

    assert_eq!(first, 0);
    assert_eq!(second, 1);
    assert_eq!(s.contract.stream_counter(), 2);
    assert_eq!(s.contract.get_stream(second).unwrap().total, 2_000);
    // Both escrows are held simultaneously by the contract.
    assert_eq!(s.contract_balance(), 3_000);
}

#[test]
fn test_create_stream_before_initialize_fails() {
    let mut s = bare();
    assert_eq!(s.create(1_000, 100, 200), Err(Error::NotInitialized));
}

#[test]
fn test_views_before_initialize_fail() {
    let s = bare();
    assert_eq!(s.contract.get_admin(), Err(Error::NotInitialized));
    assert_eq!(s.contract.get_token(), Err(Error::NotInitialized));
}

#[test]
fn test_min_stream_amount_constant() {
    // The documented floor must be exactly 1 so dust (0) streams are rejected.
    assert_eq!(streampay::MIN_STREAM_AMOUNT, 1);
}

#[test]
fn test_create_stream_accepts_minimum_amount() {
    let mut s = setup();
    // Exactly the minimum accepted amount (1) must succeed, not error.
    let id = s.create(1, 100, 200).unwrap();
    assert_eq!(id, 0);
    assert_eq!(s.contract.get_stream(id).unwrap().total, 1);
}

#[test]
fn test_create_stream_rejects_below_minimum() {
    let mut s = setup();
    // Zero is below MIN_STREAM_AMOUNT and must be rejected as InvalidAmount.
    assert_eq!(s.create(0, 100, 200), Err(Error::InvalidAmount));
}

#[test]
fn test_create_stream_rejects_negative_amount() {
    let mut s = setup();
    // Negative amounts are non-positive and must be rejected identically.
    assert_eq!(s.create(-5, 100, 200), Err(Error::InvalidAmount));
}

#[test]
fn test_top_up_accepts_minimum_amount() {
    let mut s = setup();
    let id = s.create(1_000, 100, 200).unwrap();
    let sender = s.sender.clone();
    // top_up also routes through the same amount validation; 1 is valid.
    assert_eq!(s.top_up(id, &sender, 1), Ok(1_001));
}

#[test]
fn test_top_up_rejects_below_minimum() {
    let mut s = setup();
    let id = s.create(1_000, 100, 200).unwrap();
    let sender = s.sender.clone();
    assert_eq!(s.top_up(id, &sender, 0), Err(Error::InvalidAmount));
}

#[test]
fn test_create_stream_zero_start_begins_now() {
    let mut s = setup();
    // A start_time of 0 is normalized to the current ledger timestamp.
    s.set_time(1_000);
    let id = s.create(1_000, 0, 2_000).unwrap();

    let stream = s.contract.get_stream(id).unwrap();
    assert_eq!(stream.start, 1_000);
    assert_eq!(stream.end, 2_000);

    // Vesting runs from "now": halfway through the window vests half.
    s.set_time(1_500);
    assert_eq!(s.streamed(id), 500);
}

#[test]
fn test_create_stream_zero_start_rejects_end_before_now() {
    let mut s = setup();
    // With start normalized to now (1_000), an end at or before it is invalid.
    s.set_time(1_000);
    assert_eq!(s.create(1_000, 0, 500), Err(Error::InvalidTimeRange));
}

#[test]
fn test_default_supply_cap_is_i128_max() {
    let s = setup();
    assert_eq!(s.contract.get_supply_cap(), i128::MAX);
}

#[test]
fn test_initial_total_supply_is_zero() {
    let s = setup();
    assert_eq!(s.contract.get_total_supply(), 0);
}

#[test]
fn test_create_stream_increases_total_supply() {
    let mut s = setup();
    s.create(1_000, 100, 200).unwrap();
    assert_eq!(s.contract.get_total_supply(), 1_000);
}

#[test]
fn test_multiple_streams_accumulate_supply() {
    let mut s = setup();
    s.create(1_000, 100, 200).unwrap();
    s.create(2_000, 300, 400).unwrap();
    assert_eq!(s.contract.get_total_supply(), 3_000);
}

#[test]
fn test_top_up_increases_total_supply() {
    let mut s = setup();
    let id = s.create(1_000, 100, 200).unwrap();
    let sender = s.sender.clone();
    s.top_up(id, &sender, 500).unwrap();
    assert_eq!(s.contract.get_total_supply(), 1_500);
}

#[test]
fn test_withdraw_decreases_total_supply() {
    let mut s = setup();
    let id = s.create(1_000, 100, 200).unwrap();
    assert_eq!(s.contract.get_total_supply(), 1_000);

    s.set_time(150); // midpoint - 500 vested
    let recipient = s.recipient.clone();
    s.withdraw(id, &recipient).unwrap();
    assert_eq!(s.contract.get_total_supply(), 500);
}

#[test]
fn test_cancel_decreases_total_supply_to_zero() {
    let mut s = setup();
    let id = s.create(1_000, 100, 200).unwrap();
    s.set_time(150);
    let sender = s.sender.clone();
    s.cancel(id, &sender).unwrap();
    // Both halves have left the contract.
    assert_eq!(s.contract.get_total_supply(), 0);
}

#[test]
fn test_set_supply_cap_by_admin_succeeds() {
    let mut s = setup();
    s.set_cap(5_000).unwrap();
    assert_eq!(s.contract.get_supply_cap(), 5_000);
}

#[test]
fn test_set_supply_cap_zero_fails() {
    let mut s = setup();
    assert_eq!(s.set_cap(0), Err(Error::InvalidAmount));
}

#[test]
fn test_set_supply_cap_negative_fails() {
    let mut s = setup();
    assert_eq!(s.set_cap(-1), Err(Error::InvalidAmount));
}

#[test]
fn test_create_stream_blocked_by_supply_cap() {
    let mut s = setup();
    // Cap is exactly 500; a 1_000-token stream must be rejected.
    s.set_cap(500).unwrap();
    assert_eq!(s.create(1_000, 100, 200), Err(Error::SupplyCapExceeded));
}

#[test]
fn test_create_stream_at_exact_cap_succeeds() {
    let mut s = setup();
    s.set_cap(1_000).unwrap();
    let id = s.create(1_000, 100, 200).unwrap();
    assert_eq!(id, 0);
    assert_eq!(s.contract.get_total_supply(), 1_000);
}

#[test]
fn test_create_stream_one_over_cap_fails() {
    let mut s = setup();
    s.set_cap(999).unwrap();
    assert_eq!(s.create(1_000, 100, 200), Err(Error::SupplyCapExceeded));
}

#[test]
fn test_top_up_blocked_by_supply_cap() {
    let mut s = setup();
    // Allow the first stream, then tighten the cap so top-up is blocked.
    s.set_cap(1_500).unwrap();
    let id = s.create(1_000, 100, 200).unwrap();
    let sender = s.sender.clone();
    // 501 more would bring total to 1_501, exceeding the cap of 1_500.
    assert_eq!(s.top_up(id, &sender, 501), Err(Error::SupplyCapExceeded));
}

#[test]
fn test_top_up_at_exact_remaining_cap_succeeds() {
    let mut s = setup();
    s.set_cap(1_500).unwrap();
    let id = s.create(1_000, 100, 200).unwrap();
    let sender = s.sender.clone();
    // Exactly 500 more brings total to 1_500 == cap: should succeed.
    let new_total = s.top_up(id, &sender, 500).unwrap();
    assert_eq!(new_total, 1_500);
    assert_eq!(s.contract.get_total_supply(), 1_500);
}

#[test]
fn test_supply_recovers_after_cancel_allowing_new_stream() {
    let mut s = setup();
    s.set_cap(1_000).unwrap();
    let id = s.create(1_000, 100, 200).unwrap();
    // At the cap - no new stream allowed.
    assert_eq!(s.create(1, 300, 400), Err(Error::SupplyCapExceeded));
    // Cancel frees the entire escrow.
    s.set_time(100);
    let sender = s.sender.clone();
    s.cancel(id, &sender).unwrap();
    assert_eq!(s.contract.get_total_supply(), 0);
    // Now a new stream fits within the cap.
    s.ledger.mint(&sender, 1_000);
    let new_id = s.create(1_000, 300, 400).unwrap();
    assert_eq!(new_id, 1);
}

#[test]
fn test_supply_recovers_after_full_withdraw_allowing_new_stream() {
    let mut s = setup();
    s.set_cap(1_000).unwrap();
    let id = s.create(1_000, 100, 200).unwrap();
    s.set_time(300); // past end - fully vested
    let (sender, recipient) = (s.sender.clone(), s.recipient.clone());
    s.withdraw(id, &recipient).unwrap();
    assert_eq!(s.contract.get_total_supply(), 0);

    // Supply freed; a new stream should be accepted.
    s.ledger.mint(&sender, 1_000);
    let new_id = s.create(500, 400, 500).unwrap();
    assert_eq!(new_id, 1);
    assert_eq!(s.contract.get_total_supply(), 500);
}

#[test]
fn test_instance_ttl_bump() {
    let s = setup();
    // After initialize, instance TTL should be extended to BUMP_EXTEND.
    let ttl = s.ledger.instance_ttl;
    assert!(ttl >= BUMP_EXTEND - 200, "TTL should be bumped; got {ttl}");
}

fn stream_ttl(s: &Setup, id: u64) -> u32 {
    *s.ledger.stream_ttl.get(&id).unwrap_or(&0)
}

#[test]
fn test_persistent_ttl_bump_on_create() {
    let mut s = setup();
    let id = s.create(1_000, 100, 200).unwrap();
    let ttl = stream_ttl(&s, id);
    assert!(ttl >= BUMP_EXTEND - 200, "TTL should be bumped; got {ttl}");
}

#[test]
fn test_persistent_ttl_bump_on_top_up() {
    let mut s = setup();
    let id = s.create(1_000, 100, 200).unwrap();

    // Advance ledger so TTL naturally drops, then top up to bump it again.
    s.ledger.advance(100);
    let sender = s.sender.clone();
    s.top_up(id, &sender, 500).unwrap();

    let ttl = stream_ttl(&s, id);
    assert!(ttl >= BUMP_EXTEND - 200, "TTL should be bumped; got {ttl}");
}

#[test]
fn test_persistent_ttl_bump_on_extend_stream() {
    let mut s = setup();
    let id = s.create(1_000, 100, 200).unwrap();

    s.ledger.advance(100);
    let sender = s.sender.clone();
    s.extend(id, &sender, 300).unwrap();

    let ttl = stream_ttl(&s, id);
    assert!(ttl >= BUMP_EXTEND - 200, "TTL should be bumped; got {ttl}");
}

#[test]
fn test_persistent_ttl_bump_on_withdraw() {
    let mut s = setup();
    let id = s.create(1_000, 100, 200).unwrap();

    s.set_time(150);
    s.ledger.advance(100);
    let recipient = s.recipient.clone();
    s.withdraw(id, &recipient).unwrap();

    let ttl = stream_ttl(&s, id);
    assert!(ttl >= BUMP_EXTEND - 200, "TTL should be bumped; got {ttl}");
}

#[test]
fn test_persistent_ttl_bump_on_cancel() {
    let mut s = setup();
    let id = s.create(1_000, 100, 200).unwrap();

    s.ledger.advance(100);
    let sender = s.sender.clone();
    s.cancel(id, &sender).unwrap();

    let ttl = stream_ttl(&s, id);
    assert!(ttl >= BUMP_EXTEND - 200, "TTL should be bumped; got {ttl}");
}

#[test]
fn test_set_admin_succeeds() {
    let mut s = setup();
    let new_admin = acct("new_admin");
    // Only the current admin authorizes the call.
    s.ledger.authorized = Some(vec![s.admin.clone()]);
    let r = s.contract.set_admin(new_admin.clone());
    s.settle(r).unwrap();
    assert_eq!(s.contract.get_admin(), Ok(new_admin));
}

#[test]
#[should_panic(expected = "InvalidAction")]
fn test_set_admin_requires_admin_auth() {
    let mut s = setup();
    let hacker = acct("hacker");
    let new_admin = acct("new_admin");
    // The hacker authorizes, but the contract asks for the admin's approval.
    s.ledger.authorized = Some(vec![hacker]);
    let r = s.contract.set_admin(new_admin);
    let _ = s.settle(r);
}

#[test]
fn test_upgrade_succeeds() {
    let mut s = setup();
    let new_wasm_hash = [1u8; 32];
    s.ledger.authorized = Some(vec![s.admin.clone()]);
    let r = s.contract.upgrade(new_wasm_hash);
    s.settle(r).unwrap();
    assert_eq!(s.ledger.code, Some(new_wasm_hash));
}

#[test]
#[should_panic(expected = "InvalidAction")]
fn test_upgrade_requires_admin_auth() {
    let mut s = setup();
    let hacker = acct("hacker");
    s.ledger.authorized = Some(vec![hacker]);
    let r = s.contract.upgrade([1u8; 32]);
    let _ = s.settle(r);
}

/// Every step of a lifecycle keeps the tokens held by the contract equal to
/// the escrow it accounts for.
#[test]
fn escrow_matches_contract_balance_through_a_lifecycle() {
    let mut s = setup();
    let (sender, recipient) = (s.sender.clone(), s.recipient.clone());
    let other = acct("other");
    let a = s.create(1_000, 100, 200).unwrap();
    let b = s.create_for(&sender, &other, 3_000, 50, 350).unwrap();
    assert_eq!(s.contract_balance(), s.contract.get_total_supply());
    s.top_up(a, &sender, 250).unwrap();
    assert_eq!(s.contract_balance(), s.contract.get_total_supply());
    s.set_time(130);
    s.withdraw(a, &recipient).unwrap();
    assert_eq!(s.contract_balance(), s.contract.get_total_supply());
    s.extend(b, &sender, 500).unwrap();
    s.set_time(170);
    s.cancel(a, &recipient).unwrap();
    assert_eq!(s.contract_balance(), s.contract.get_total_supply());
    s.withdraw(b, &other).unwrap();
    assert_eq!(s.contract_balance(), s.contract.get_total_supply());
    s.set_time(600);
    s.withdraw(b, &other).unwrap();
    assert_eq!(s.contract_balance(), 0);
    assert_eq!(s.contract.get_total_supply(), 0);
    assert_eq!(s.balance(&sender) + s.balance(&recipient) + s.balance(&other), 1_000_000);
}

/// A refused call changes nothing; all it asks of the environment is the
/// authorization of the caller, demanded before any check.
#[test]
fn refused_calls_change_nothing() {
    let mut s = setup();
    let sender = s.sender.clone();
    let id = s.create(1_000, 100, 200).unwrap();
    let before = s.contract.get_stream(id).unwrap();
    let supply = s.contract.get_total_supply();
    let events = s.ledger.events.len();

    assert_eq!(s.contract.top_up(id, sender.clone(), i128::MAX), Err(Error::Overflow));
    assert_eq!(s.contract.take_effects(), vec![Effect::RequireAuth(sender.clone())]);
    assert_eq!(s.contract.extend_stream(id, sender.clone(), 200), Err(Error::InvalidTimeRange));
    assert_eq!(s.contract.take_effects(), vec![Effect::RequireAuth(sender.clone())]);
    assert_eq!(s.contract.withdraw(id, acct("x"), 150), Err(Error::Unauthorized));
    assert_eq!(s.contract.take_effects(), vec![Effect::RequireAuth(acct("x"))]);
    assert_eq!(s.contract.cancel(7, sender.clone(), 150), Err(Error::StreamNotFound));
    assert_eq!(s.contract.take_effects(), vec![Effect::RequireAuth(sender.clone())]);
    assert_eq!(s.contract.execute_admin_transfer(150), Err(Error::NoPendingAdminAction));
    assert!(s.contract.take_effects().is_empty());

    assert_eq!(s.contract.get_stream(id).unwrap(), before);
    assert_eq!(s.contract.get_total_supply(), supply);
    assert_eq!(s.contract.stream_counter(), 1);
    assert_eq!(s.ledger.events.len(), events);
}

/// Authorization is demanded before any check: a stranger scheduling an
/// admin transfer is asked to sign before being told it is not the admin.
#[test]
fn authorization_is_demanded_before_the_checks() {
    let mut s = setup();
    let stranger = acct("stranger");
    let r = s.contract.schedule_admin_transfer(stranger.clone(), acct("next"), 0);
    assert_eq!(r, Err(Error::Unauthorized));
    assert_eq!(s.contract.take_effects(), vec![Effect::RequireAuth(stranger)]);
    let r = s.contract.top_up(5, s.sender.clone(), 0);
    assert_eq!(r, Err(Error::InvalidAmount));
    assert_eq!(s.contract.take_effects(), vec![Effect::RequireAuth(s.sender.clone())]);
}

/// The amount check of a top-up comes before the stream is looked up.
#[test]
fn top_up_checks_the_amount_before_the_stream() {
    let mut s = setup();
    let sender = s.sender.clone();
    assert_eq!(s.top_up(9, &sender, 0), Err(Error::InvalidAmount));
    assert_eq!(s.top_up(9, &sender, 5), Err(Error::StreamNotFound));
}

/// A batch whose total does not fit is refused as an overflow, and one that
/// would exceed the cap as such; neither opens anything.
#[test]
fn batch_refuses_overflow_and_cap() {
    let mut s = setup();
    let r = s.recipient.clone();
    let huge = vec![request(&r, i128::MAX, 100, 200), request(&r, 1, 100, 200)];
    assert_eq!(s.batch(huge), Err(Error::Overflow));
    s.set_cap(2_999).unwrap();
    let over = vec![request(&r, 1_000, 100, 200), request(&r, 2_000, 100, 200)];
    assert_eq!(s.batch(over), Err(Error::SupplyCapExceeded));
    assert_eq!(s.contract.stream_counter(), 0);
    assert_eq!(s.contract.get_total_supply(), 0);
}

/// A batch reports the first refused request, in request order.
#[test]
fn batch_reports_first_refusal() {
    let mut s = setup();
    s.set_time(1_000);
    let r = s.recipient.clone();
    let reqs = vec![request(&r, 5, 0, 2_000), request(&r, 5, 300, 500), request(&r, -1, 0, 2_000)];
    assert_eq!(s.batch(reqs), Err(Error::EndTimeInPast));
}

/// Batch ids follow the ids already handed out.
#[test]
fn batch_ids_follow_earlier_streams() {
    let mut s = setup();
    s.create(10, 100, 200).unwrap();
    let r = s.recipient.clone();
    let ids = s.batch(vec![request(&r, 1, 100, 200), request(&r, 2, 100, 200), request(&r, 3, 0, 200)]).unwrap();
    assert_eq!(ids, vec![1, 2, 3]);
    assert_eq!(s.contract.get_stream(3).unwrap().start, 0);
    assert_eq!(s.contract.stream_counter(), 4);
    assert_eq!(s.contract.get_total_supply(), 16);
    // One escrow transfer for the whole batch.
    assert_eq!(s.balance(&s.sender), 1_000_000 - 16);
}

/// A completed stream is final: cancelling it is refused and nothing moves.
#[test]
fn completed_stream_cannot_be_cancelled() {
    let mut s = setup();
    let (sender, recipient) = (s.sender.clone(), s.recipient.clone());
    let id = s.create(1_000, 100, 200).unwrap();
    s.set_time(300);
    s.withdraw(id, &recipient).unwrap();
    let before = s.contract_balance();
    assert_eq!(s.cancel(id, &sender), Err(Error::AlreadyCompleted));
    assert_eq!(s.cancel(id, &recipient), Err(Error::AlreadyCompleted));
    assert_eq!(s.contract_balance(), before);
    assert_eq!(s.contract.get_status(id), Ok(Status::Completed));
    assert_eq!(s.top_up(id, &sender, 5), Err(Error::StreamNotActive));
    assert_eq!(s.extend(id, &sender, 900), Err(Error::StreamNotActive));
}

/// After a withdrawal, pushing the end back lowers what has vested below
/// what was withdrawn; a cancellation then pays the recipient nothing,
/// refunds the sender exactly what the stream still holds, and keeps the
/// withdrawn amount.
#[test]
fn cancel_after_extension_pays_out_only_the_stream_escrow() {
    let mut s = setup();
    let (sender, recipient) = (s.sender.clone(), s.recipient.clone());
    let id = s.create(1_000, 100, 200).unwrap();
    // A second stream whose escrow sits in the same contract.
    s.create_for(&sender, &acct("other"), 1_000, 100, 200).unwrap();
    s.set_time(180);
    assert_eq!(s.withdraw(id, &recipient), Ok(800));
    s.extend(id, &sender, 1_000).unwrap();
    s.set_time(190);
    assert_eq!(s.contract.withdrawable_amount(id, s.now), Ok(-700));
    assert_eq!(s.withdraw(id, &recipient), Err(Error::NothingToWithdraw));
    let sender_before = s.balance(&sender);
    s.cancel(id, &sender).unwrap();
    assert_eq!(
        s.ledger.events.last().unwrap(),
        &Event::Cancelled { id, caller: sender.clone(), sender_refund: 200, recipient_paid: 0 }
    );
    assert_eq!(s.balance(&sender), sender_before + 200);
    assert_eq!(s.contract.get_stream(id).unwrap().withdrawn, 800);
    // The other stream's escrow is untouched.
    assert_eq!(s.contract.get_total_supply(), 1_000);
    assert_eq!(s.contract_balance(), 1_000);
}

/// Only the scheduled path and `set_admin` change the admin; queries before
/// execution still report the old one.
#[test]
fn admin_unchanged_until_the_timelock_executes() {
    let mut s = setup();
    let admin = s.admin.clone();
    let next = acct("next");
    s.set_time(10);
    s.schedule(&admin, &next).unwrap();
    s.set_time(10 + streampay::ADMIN_TIMELOCK_DELAY - 1);
    assert_eq!(s.execute(), Err(Error::TimelockNotExpired));
    assert_eq!(s.contract.get_admin(), Ok(admin.clone()));
    // The old admin still governs until execution.
    assert_eq!(s.set_cap(77), Ok(()));
    assert_eq!(s.ledger.auths.last().unwrap(), &admin);
    s.set_time(10 + streampay::ADMIN_TIMELOCK_DELAY);
    s.execute().unwrap();
    assert_eq!(s.contract.get_admin(), Ok(next.clone()));
    // The former admin has lost the role.
    assert_eq!(s.schedule(&admin, &acct("x")), Err(Error::Unauthorized));
}

#[test]
fn schedule_near_the_end_of_time_overflows() {
    let mut s = setup();
    let admin = s.admin.clone();
    s.set_time(u64::MAX - 10);
    assert_eq!(s.schedule(&admin, &acct("next")), Err(Error::Overflow));
}

#[test]
fn admin_actions_before_initialize_fail() {
    let mut s = bare();
    assert_eq!(s.set_cap(5), Err(Error::NotInitialized));
    assert_eq!(s.execute(), Err(Error::NotInitialized));
    assert_eq!(s.contract.get_pending_admin(), Err(Error::NotInitialized));
    assert_eq!(s.contract.get_admin_action_execute_after(), Err(Error::NotInitialized));
    assert_eq!(s.contract.upgrade([0u8; 32]), Err(Error::NotInitialized));
    assert_eq!(s.contract.set_admin(acct("a")), Err(Error::NotInitialized));
    assert_eq!(s.contract.stream_counter(), 0);
}

#[test]
fn supply_cap_event_reports_old_and_new_cap() {
    let mut s = setup();
    s.set_cap(5_000).unwrap();
    assert_eq!(
        s.ledger.events.last().unwrap(),
        &Event::SupplyCapUpdated { admin: s.admin.clone(), old_cap: i128::MAX, new_cap: 5_000 }
    );
}

#[test]
fn withdraw_event_and_payout_go_to_the_recipient() {
    let mut s = setup();
    let recipient = s.recipient.clone();
    let id = s.create(1_000, 100, 200).unwrap();
    s.set_time(110);
    let paid = s.withdraw(id, &recipient).unwrap();
    assert_eq!(paid, 100);
    assert_eq!(s.ledger.events.last().unwrap(), &Event::Withdrawn { id, recipient: recipient.clone(), amount: 100 });
    assert_eq!(s.balance(&recipient), 100);
}

#[test]
fn views_of_unknown_streams_fail() {
    let s = setup();
    assert_eq!(s.contract.get_status(3), Err(Error::StreamNotFound));
    assert_eq!(s.contract.is_active(3), Err(Error::StreamNotFound));
    assert_eq!(s.contract.duration(3), Err(Error::StreamNotFound));
    assert_eq!(s.contract.elapsed(3, 0), Err(Error::StreamNotFound));
    assert_eq!(s.contract.streamed_amount(3, 0), Err(Error::StreamNotFound));
    assert_eq!(s.contract.progress_bps(3, 0), Err(Error::StreamNotFound));
    assert_eq!(s.contract.percent_withdrawn(3), Err(Error::StreamNotFound));
    assert_eq!(s.contract.remaining_amount(3, 0), Err(Error::StreamNotFound));
    assert_eq!(s.contract.withdrawable_amount(3, 0), Err(Error::StreamNotFound));
    assert_eq!(s.contract.get_summary(3, 0), Err(Error::StreamNotFound));
}

#[test]
fn stream_counter_overflow_is_reported() {
    // The counter of a fresh contract cannot be pushed to its limit through
    // calls, so the check is exercised on the configuration directly.
    let mut c = streampay::config::Config::new();
    let mut fx = Vec::new();
    c.initialize(acct("admin"), acct("token"), &mut fx).unwrap();
    c.counter = u64::MAX;
    let r = c.create_stream(0, acct("s"), acct("r"), 10, 1, 2, &mut fx);
    assert_eq!(r, Err(Error::Overflow));
    assert_eq!(c.counter, u64::MAX);
    assert_eq!(c.total_supply, 0);
}

/// Initialization asks for the instance storage to be kept alive for
/// `BUMP_EXTEND` ledgers once it falls below `BUMP_THRESHOLD`, and the same
/// policy holds for each stream entry a creation writes.
#[test]
fn storage_extensions_carry_the_bump_policy() {
    let mut c = StreamPayContract::new();
    c.initialize(acct("admin"), acct("token")).unwrap();
    assert_eq!(
        c.take_effects(),
        vec![Effect::ExtendInstance { threshold: BUMP_THRESHOLD, extend_to: BUMP_EXTEND }]
    );
    c.create_stream(acct("s"), acct("r"), 10, 1, 2, 0).unwrap();
    let fx = c.take_effects();
    assert!(fx.contains(&Effect::ExtendPersistent {
        key: DataKey::Stream(0),
        threshold: BUMP_THRESHOLD,
        extend_to: BUMP_EXTEND,
    }));
    assert_eq!(BUMP_THRESHOLD, 100_000);
    assert_eq!(BUMP_EXTEND, 518_400);
}
