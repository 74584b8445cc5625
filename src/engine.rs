use vstd::prelude::*;

use crate::config::Config;
use crate::provider::ClientError;
use crate::random::draw_between;
use crate::registry::{AccountRegistry, RegistryError};
use crate::throttler::{interval_for, NANOS_PER_SEC};
use crate::transaction::{Transaction, BASE_TOKEN};

verus! {

/// Retries allowed for one transaction after transient failures.
pub const DEFAULT_MAX_RETRIES: u32 = 3;

#[derive(Debug, Clone, Copy, PartialEq, Eq, Structural)]
pub enum EngineState {
    Idle,
    Running,
    Completed,
    Aborted,
}

/// How a submission ended.
#[derive(Debug, Clone)]
pub enum Outcome {
    /// The provider accepted it under this hash.
    Accepted(String),
    /// The provider refused it, or kept failing until retries ran out.
    Rejected(ClientError),
}

/// Record of one transaction that the run is done with.
#[derive(Debug, Clone)]
pub struct SubmissionOutcome {
    pub transaction: Transaction,
    pub result: Outcome,
    /// When the last attempt ended, as the caller's clock reads it.
    pub timestamp: u64,
    /// Sends of this transaction, the first one included.
    pub attempts: u64,
}

/// What the caller should do next.
#[derive(Debug, Clone, Copy, PartialEq, Eq, Structural)]
pub enum Action {
    /// Generate a transaction, pass the throttle when it is enabled, submit.
    Submit,
    /// Send the same transaction again, after waiting `backoff` nanoseconds.
    Retry { attempt: u32, backoff: u64 },
    /// The run is over.
    Stop,
}

/// Wait before retry `attempt`: grows linearly with the attempt and never
/// exceeds one throttle interval.
pub open spec fn backoff_for(interval: nat, attempt: nat, max_retries: nat) -> nat {
    interval * attempt / max_retries
}

pub fn backoff(interval: u64, attempt: u32, max_retries: u32) -> (r: u64)
    requires
        interval <= NANOS_PER_SEC,
        1 <= attempt <= max_retries,
    ensures
        r == backoff_for(interval as nat, attempt as nat, max_retries as nat),
        r <= interval,
{
    assert(interval * attempt <= interval * max_retries) by (nonlinear_arith)
        requires
            attempt <= max_retries,
    ;
    assert(interval * attempt <= NANOS_PER_SEC * u32::MAX) by (nonlinear_arith)
        requires
            interval <= NANOS_PER_SEC,
            attempt <= u32::MAX,
    ;
    let r = interval * (attempt as u64) / (max_retries as u64);
    assert(r <= interval) by (nonlinear_arith)
        requires
            r as int == (interval * attempt) as int / (max_retries as int),
            interval * attempt <= interval * max_retries,
            max_retries >= 1,
    ;
    r
}

/// Number of transactions for one tick, drawn from `[1, tps]`.
pub fn draw_transaction_count(config: &Config, rng: &mut rand::rngs::StdRng) -> (r: u32)
    requires
        config.wf(),
    ensures
        1 <= r <= config.general.tps,
{
    draw_between(rng, 1, config.general.tps as u64) as u32
}

/// `post` is `pre` with the accepted transaction `tx` booked.
pub open spec fn booked(pre: AccountRegistry, post: AccountRegistry, tx: Transaction) -> bool {
    match tx {
        Transaction::Deposit { to, amount } => {
            &&& post.balance(to, BASE_TOKEN) == pre.balance(to, BASE_TOKEN) + amount
            &&& forall|a: u32, t: u32|
                !(a == to && t == BASE_TOKEN) ==> #[trigger] post.balance(a, t) == pre.balance(a, t)
        },
        Transaction::Transfer { from, to, token, amount, nonce: _ } => {
            &&& from != to ==> post.balance(from, token) == pre.balance(from, token) - amount
            &&& from != to ==> post.balance(to, token) == pre.balance(to, token) + amount
            &&& forall|a: u32, t: u32|
                (a != from && a != to) || t != token ==> #[trigger] post.balance(a, t) == pre.balance(a, t)
        },
    }
}

/// Why booking `tx` in `pre` fails, if it does: an account out of range,
/// then a source short of the amount, then a destination that would
/// overflow.
pub open spec fn booking_error(pre: AccountRegistry, tx: Transaction) -> Option<RegistryError> {
    match tx {
        Transaction::Deposit { to, amount } => if to >= pre.account_count() {
            Some(RegistryError::UnknownAccount)
        } else if pre.balance(to, BASE_TOKEN) + amount > u128::MAX {
            Some(RegistryError::BalanceOverflow)
        } else {
            None
        },
        Transaction::Transfer { from, to, token, amount, nonce: _ } => if from >= pre.account_count() || to
            >= pre.account_count() {
            Some(RegistryError::UnknownAccount)
        } else if pre.balance(from, token) < amount {
            Some(RegistryError::InsufficientBalance)
        } else if from != to && pre.balance(to, token) + amount > u128::MAX {
            Some(RegistryError::BalanceOverflow)
        } else {
            None
        },
    }
}

/// Books an accepted transaction in the registry: a deposit credits its
/// target, a transfer moves its amount from source to destination. Nonces
/// were taken when the transaction was generated. On an error nothing
/// changes.
pub fn record_accepted(registry: &mut AccountRegistry, tx: &Transaction) -> (r: Result<(), RegistryError>)
    ensures
        r is Ok <==> booking_error(*old(registry), *tx) is None,
        booking_error(*old(registry), *tx) matches Some(e) ==> r == Err::<(), RegistryError>(e),
        final(registry).same_nonces(old(registry)),
        r is Err ==> *final(registry) == *old(registry),
        r is Ok ==> booked(*old(registry), *final(registry), *tx),
{
    match *tx {
        Transaction::Deposit { to, amount } => {
            let ghost pre = *registry;
            let r = registry.update_balance(to, BASE_TOKEN, amount as i128);
            assert(r != Err::<(), _>(RegistryError::InsufficientBalance));
            match r {
                Ok(()) => {
                    assert(booking_error(pre, *tx) is None);
                },
                Err(e) => {
                    assert(e == RegistryError::UnknownAccount || e == RegistryError::BalanceOverflow);
                    assert(booking_error(pre, *tx) == Some(e));
                },
            }
            r
        },
        Transaction::Transfer { from, to, token, amount, .. } => {
            if registry.nonce_of(from).is_none() || registry.nonce_of(to).is_none() {
                assert(booking_error(*registry, *tx) == Some(RegistryError::UnknownAccount));
                return Err(RegistryError::UnknownAccount);
            }
            if registry.balance_of(from, token) < amount as u128 {
                assert(booking_error(*registry, *tx) == Some(RegistryError::InsufficientBalance));
                return Err(RegistryError::InsufficientBalance);
            }
            if from == to {
                assert(booking_error(*registry, *tx) is None);
                return Ok(());
            }
            let to_balance = registry.balance_of(to, token);
            if to_balance > u128::MAX - amount as u128 {
                assert(booking_error(*registry, *tx) == Some(RegistryError::BalanceOverflow));
                return Err(RegistryError::BalanceOverflow);
            }
            assert(booking_error(*registry, *tx) is None);
            let ghost pre = *registry;
            let debit = registry.update_balance(from, token, -(amount as i128));
            assert(debit is Ok);
            let ghost mid = *registry;
            let credit = registry.update_balance(to, token, amount as i128);
            assert(credit is Ok);
            assert forall|a: u32, t: u32|
                (a != from && a != to) || t != token implies #[trigger] registry.balance(a, t) == pre.balance(a, t) by {
                assert(registry.balance(a, t) == mid.balance(a, t));
            }
            Ok(())
        },
    }
}

/// The `sequence`-th transaction of a run: a transfer on odd turns when
/// there are two accounts to move between, a deposit otherwise.
pub fn next_transaction(
    config: &Config,
    registry: &mut AccountRegistry,
    rng: &mut rand::rngs::StdRng,
    sequence: u64,
) -> (r: Result<Transaction, RegistryError>)
    requires
        config.wf(),
        old(registry).account_count() <= u32::MAX,
    ensures
        r == Err::<Transaction, _>(RegistryError::NoAccounts) <==> old(registry).account_count() == 0,
        r is Err ==> *final(registry) == *old(registry) && (r == Err::<Transaction, _>(
            RegistryError::NoAccounts,
        ) || r == Err::<Transaction, _>(RegistryError::NonceExhausted)),
        old(registry).account_count() >= 1 && (forall|a: int|
            0 <= a < old(registry).account_count() ==> #[trigger] old(registry).nonce(a) < u32::MAX)
            ==> r is Ok,
        r matches Ok(t) ==> (t is Transfer <==> (sequence % 2 == 1 && old(registry).account_count() >= 2)),
        r matches Ok(t) ==> (t matches Transaction::Deposit { to, amount } ==> to < old(
            registry,
        ).account_count() && config.transaction.min_deposit_value <= amount
            <= config.transaction.max_deposit_value && *final(registry) == *old(registry)),
        r matches Ok(t) ==> (t matches Transaction::Transfer { from, to, token, amount, nonce } ==> from
            < old(registry).account_count() && to < old(registry).account_count() && from != to && token
            == BASE_TOKEN && config.transaction.min_transfer_value <= amount
            <= config.transaction.max_transfer_value && AccountRegistry::nonce_step(
            *old(registry),
            from,
            *final(registry),
            nonce,
        )),
{
    if sequence % 2 == 1 && registry.num_accounts() >= 2 {
        Transaction::generate_transfer(config, registry, rng)
    } else {
        Transaction::generate_deposit(config, registry, rng)
    }
}

/// The run's decisions: how many transactions, when to retry, when to stop.
/// The caller generates, throttles and submits, and reports each result.
pub struct SimulationEngine {
    state: EngineState,
    scheduled: u32,
    accepted: u32,
    rejected: u32,
    skipped: u32,
    retries: u32,
    max_retries: u32,
    retry_interval: u64,
    submissions: u64,
    outcomes: Vec<SubmissionOutcome>,
}

impl SimulationEngine {
    /// The counters agree with the state and with each other.
    pub closed spec fn wf(&self) -> bool {
        &&& self.accepted + self.rejected + self.skipped <= self.scheduled
        &&& self.outcomes@.len() == self.accepted + self.rejected
        &&& self.retries <= self.max_retries
        &&& self.retry_interval <= NANOS_PER_SEC
        &&& self.state == EngineState::Idle ==> self.accepted + self.rejected + self.skipped == 0
            && self.submissions == 0
        &&& self.state == EngineState::Running ==> self.accepted + self.rejected + self.skipped < self.scheduled
        &&& self.state == EngineState::Completed ==> self.accepted + self.rejected + self.skipped
            == self.scheduled
        &&& self.submissions <= (self.accepted + self.rejected + self.skipped) * (self.max_retries + 1)
            + self.retries
    }

    pub closed spec fn spec_state(&self) -> EngineState {
        self.state
    }

    /// Transactions planned for the run.
    pub closed spec fn spec_scheduled(&self) -> nat {
        self.scheduled as nat
    }

    pub closed spec fn spec_accepted(&self) -> nat {
        self.accepted as nat
    }

    pub closed spec fn spec_rejected(&self) -> nat {
        self.rejected as nat
    }

    /// Retries spent on the transaction in flight.
    pub closed spec fn spec_retries(&self) -> nat {
        self.retries as nat
    }

    /// Planned transactions that could not be generated.
    pub closed spec fn spec_skipped(&self) -> nat {
        self.skipped as nat
    }

    pub closed spec fn spec_max_retries(&self) -> nat {
        self.max_retries as nat
    }

    pub closed spec fn spec_retry_interval(&self) -> nat {
        self.retry_interval as nat
    }

    /// Sends made so far, retries included.
    pub closed spec fn spec_submissions(&self) -> nat {
        self.submissions as nat
    }

    pub closed spec fn spec_outcomes(&self) -> Seq<SubmissionOutcome> {
        self.outcomes@
    }

    /// An idle engine for `config`'s rate, allowing `max_retries` retries
    /// (at least one) per transaction.
    pub fn new(config: &Config, max_retries: u32) -> (r: SimulationEngine)
        requires
            config.wf(),
        ensures
            r.wf(),
            r.spec_state() == EngineState::Idle,
            r.spec_scheduled() == 0,
            r.spec_accepted() == 0,
            r.spec_rejected() == 0,
            r.spec_skipped() == 0,
            r.spec_retries() == 0,
            r.spec_submissions() == 0,
            r.spec_outcomes().len() == 0,
            r.spec_max_retries() == max_retries,
            r.spec_retry_interval() == interval_for(config.general.tps as nat),
    {
        let tps64 = config.general.tps as u64;
        let interval = (NANOS_PER_SEC + tps64 - 1) / tps64;
        assert(interval <= NANOS_PER_SEC) by (nonlinear_arith)
            requires
                interval as int == (NANOS_PER_SEC + tps64 - 1) as int / (tps64 as int),
                1 <= tps64 <= u32::MAX,
        ;
        SimulationEngine {
            state: EngineState::Idle,
            scheduled: 0,
            accepted: 0,
            rejected: 0,
            skipped: 0,
            retries: 0,
            max_retries,
            retry_interval: interval,
            submissions: 0,
            outcomes: Vec::new(),
        }
    }

    pub fn state(&self) -> (r: EngineState)
        ensures
            r == self.spec_state(),
    {
        self.state
    }

    pub fn accepted(&self) -> (r: u32)
        ensures
            r == self.spec_accepted(),
    {
        self.accepted
    }

    pub fn rejected(&self) -> (r: u32)
        ensures
            r == self.spec_rejected(),
    {
        self.rejected
    }

    pub fn skipped(&self) -> (r: u32)
        ensures
            r == self.spec_skipped(),
    {
        self.skipped
    }

    pub fn submissions(&self) -> (r: u64)
        ensures
            r == self.spec_submissions(),
    {
        self.submissions
    }

    pub fn outcomes(&self) -> (r: &Vec<SubmissionOutcome>)
        ensures
            r@ == self.spec_outcomes(),
    {
        &self.outcomes
    }

    /// What to do next: submit while the run has transactions left, else stop.
    pub fn next_action(&self) -> (r: Action)
        ensures
            r == if self.spec_state() == EngineState::Running {
                Action::Submit
            } else {
                Action::Stop
            },
    {
        if self.state == EngineState::Running {
            Action::Submit
        } else {
            Action::Stop
        }
    }

    /// Starts an idle run. `network` is the provider's answer on the
    /// network at startup; an error aborts the run before anything is sent.
    /// Otherwise `tx_count` transactions are planned. Any other state is left
    /// as it is.
    pub fn start(&mut self, network: &Result<(), ClientError>, tx_count: u32) -> (r: Action)
        requires
            old(self).wf(),
        ensures
            final(self).wf(),
            old(self).spec_state() != EngineState::Idle ==> *final(self) == *old(self) && r
                == Action::Stop,
            old(self).spec_state() == EngineState::Idle ==> {
                &&& network is Err ==> final(self).spec_state() == EngineState::Aborted
                    && final(self).spec_scheduled() == 0
                &&& network is Ok ==> final(self).spec_scheduled() == tx_count
                &&& network is Ok ==> final(self).spec_state() == if tx_count == 0 {
                    EngineState::Completed
                } else {
                    EngineState::Running
                }
                &&& final(self).spec_submissions() == 0
                &&& final(self).spec_outcomes().len() == 0
                &&& final(self).spec_accepted() == 0
                &&& final(self).spec_rejected() == 0
                &&& final(self).spec_skipped() == 0
                &&& final(self).spec_retries() == old(self).spec_retries()
                &&& final(self).spec_max_retries() == old(self).spec_max_retries()
                &&& final(self).spec_retry_interval() == old(self).spec_retry_interval()
                &&& r == if final(self).spec_state() == EngineState::Running {
                    Action::Submit
                } else {
                    Action::Stop
                }
            },
    {
        if self.state != EngineState::Idle {
            return Action::Stop;
        }
        match network {
            Err(_) => {
                self.scheduled = 0;
                self.state = EngineState::Aborted;
                Action::Stop
            },
            Ok(()) => {
                self.scheduled = tx_count;
                if tx_count == 0 {
                    self.state = EngineState::Completed;
                    Action::Stop
                } else {
                    self.state = EngineState::Running;
                    Action::Submit
                }
            },
        }
    }

    /// Stops a run that has not ended: nothing more is generated. Sends
    /// already made stay as they are.
    pub fn cancel(&mut self)
        requires
            old(self).wf(),
        ensures
            final(self).wf(),
            old(self).spec_state() == EngineState::Idle || old(self).spec_state()
                == EngineState::Running ==> final(self).spec_state() == EngineState::Aborted,
            old(self).spec_state() == EngineState::Completed || old(self).spec_state()
                == EngineState::Aborted ==> final(self).spec_state() == old(self).spec_state(),
            final(self).spec_outcomes() == old(self).spec_outcomes(),
            final(self).spec_submissions() == old(self).spec_submissions(),
    {
        if self.state == EngineState::Idle || self.state == EngineState::Running {
            self.state = EngineState::Aborted;
        }
    }
    /// Takes the result of the send of `tx` that ended at `now`. A success is
    /// recorded as accepted. A network error or a timeout is retried, after a
    /// linear backoff, while retries are left; any other error, or one that
    /// outlasts the retries, is recorded as rejected. A run that is not in
    /// progress is left as it is.
    pub fn on_result(&mut self, tx: Transaction, result: Result<String, ClientError>, now: u64) -> (r: Action)
        requires
            old(self).wf(),
        ensures
            final(self).wf(),
            old(self).spec_state() != EngineState::Running ==> *final(self) == *old(self) && r
                == Action::Stop,
            old(self).spec_state() == EngineState::Running ==> {
                &&& final(self).spec_submissions() == old(self).spec_submissions() + 1
                &&& final(self).spec_scheduled() == old(self).spec_scheduled()
                &&& final(self).spec_max_retries() == old(self).spec_max_retries()
                &&& final(self).spec_retry_interval() == old(self).spec_retry_interval()
                &&& Self::decided(*old(self), tx, result, now, *final(self), r)
            },
    {
        if self.state != EngineState::Running {
            return Action::Stop;
        }
        let ghost pre = *self;
        proof {
            let f = (self.accepted + self.rejected + self.skipped) as int;
            let m = self.max_retries as int;
            assert(f * (m + 1) + m <= (u32::MAX - 1) * (u32::MAX + 1) + u32::MAX) by (nonlinear_arith)
                requires
                    0 <= f <= u32::MAX - 1,
                    0 <= m <= u32::MAX,
            ;
        }
        let retry = match &result {
            Ok(_) => false,
            Err(e) => e.is_retryable() && self.retries < self.max_retries,
        };
        if retry {
            self.submissions = self.submissions + 1;
            self.retries = self.retries + 1;
            let b = backoff(self.retry_interval, self.retries, self.max_retries);
            return Action::Retry { attempt: self.retries, backoff: b };
        }
        let attempts = self.retries as u64 + 1;
        proof {
            let f = (self.accepted + self.rejected + self.skipped) as int;
            let m = self.max_retries as int;
            assert(self.submissions + 1 <= (f + 1) * (m + 1)) by (nonlinear_arith)
                requires
                    self.submissions <= f * (m + 1) + self.retries,
                    self.retries <= m,
            ;
        }
        self.submissions = self.submissions + 1;
        self.retries = 0;
        match result {
            Ok(hash) => {
                self.outcomes.push(
                    SubmissionOutcome { transaction: tx, result: Outcome::Accepted(hash), timestamp: now, attempts },
                );
                self.accepted = self.accepted + 1;
            },
            Err(e) => {
                self.outcomes.push(
                    SubmissionOutcome { transaction: tx, result: Outcome::Rejected(e), timestamp: now, attempts },
                );
                self.rejected = self.rejected + 1;
            },
        }
        if self.accepted + self.rejected + self.skipped == self.scheduled {
            self.state = EngineState::Completed;
            Action::Stop
        } else {
            Action::Submit
        }
    }

    /// Takes the news that the planned transaction could not be generated:
    /// it counts as skipped and the run goes on with the next one. A run
    /// that is not in progress is left as it is.
    pub fn on_generation_failed(&mut self) -> (r: Action)
        requires
            old(self).wf(),
        ensures
            final(self).wf(),
            old(self).spec_state() != EngineState::Running ==> *final(self) == *old(self) && r
                == Action::Stop,
            old(self).spec_state() == EngineState::Running ==> {
                let done = old(self).spec_accepted() + old(self).spec_rejected() + old(self).spec_skipped() + 1
                    == old(self).spec_scheduled();
                &&& final(self).spec_skipped() == old(self).spec_skipped() + 1
                &&& final(self).spec_retries() == 0
                &&& final(self).spec_accepted() == old(self).spec_accepted()
                &&& final(self).spec_rejected() == old(self).spec_rejected()
                &&& final(self).spec_outcomes() == old(self).spec_outcomes()
                &&& final(self).spec_submissions() == old(self).spec_submissions()
                &&& final(self).spec_scheduled() == old(self).spec_scheduled()
                &&& final(self).spec_max_retries() == old(self).spec_max_retries()
                &&& final(self).spec_retry_interval() == old(self).spec_retry_interval()
                &&& final(self).spec_state() == if done {
                    EngineState::Completed
                } else {
                    EngineState::Running
                }
                &&& r == if done {
                    Action::Stop
                } else {
                    Action::Submit
                }
            },
    {
        if self.state != EngineState::Running {
            return Action::Stop;
        }
        proof {
            let f = (self.accepted + self.rejected + self.skipped) as int;
            let m = self.max_retries as int;
            assert(self.submissions <= (f + 1) * (m + 1)) by (nonlinear_arith)
                requires
                    self.submissions <= f * (m + 1) + self.retries,
                    self.retries <= m,
                    f >= 0,
            ;
        }
        self.skipped = self.skipped + 1;
        self.retries = 0;
        if self.accepted + self.rejected + self.skipped == self.scheduled {
            self.state = EngineState::Completed;
            Action::Stop
        } else {
            Action::Submit
        }
    }

    /// How a running engine `pre` answers the result of a send, as `post`
    /// and the action `r`.
    pub open spec fn decided(
        pre: SimulationEngine,
        tx: Transaction,
        result: Result<String, ClientError>,
        now: u64,
        post: SimulationEngine,
        r: Action,
    ) -> bool {
        let retry = result matches Err(e) && e.spec_is_retryable() && pre.spec_retries()
            < pre.spec_max_retries();
        let done = pre.spec_accepted() + pre.spec_rejected() + pre.spec_skipped() + 1 == pre.spec_scheduled();
        if retry {
            &&& post.spec_retries() == pre.spec_retries() + 1
            &&& r == Action::Retry {
                attempt: (pre.spec_retries() + 1) as u32,
                backoff: backoff_for(
                    pre.spec_retry_interval(),
                    pre.spec_retries() + 1,
                    pre.spec_max_retries(),
                ) as u64,
            }
            &&& post.spec_state() == EngineState::Running
            &&& post.spec_outcomes() == pre.spec_outcomes()
            &&& post.spec_accepted() == pre.spec_accepted()
            &&& post.spec_rejected() == pre.spec_rejected()
            &&& post.spec_skipped() == pre.spec_skipped()
        } else {
            &&& post.spec_skipped() == pre.spec_skipped()
            &&& post.spec_retries() == 0
            &&& post.spec_outcomes() == pre.spec_outcomes().push(
                SubmissionOutcome {
                    transaction: tx,
                    result: match result {
                        Ok(h) => Outcome::Accepted(h),
                        Err(e) => Outcome::Rejected(e),
                    },
                    timestamp: now,
                    attempts: (pre.spec_retries() + 1) as u64,
                },
            )
            &&& post.spec_accepted() == pre.spec_accepted() + if result is Ok {
                1int
            } else {
                0
            }
            &&& post.spec_rejected() == pre.spec_rejected() + if result is Ok {
                0int
            } else {
                1
            }
            &&& post.spec_state() == if done {
                EngineState::Completed
            } else {
                EngineState::Running
            }
            &&& r == if done {
                Action::Stop
            } else {
                Action::Submit
            }
        }
    }
}

} // verus!
