use rand::rngs::StdRng;
use rand::SeedableRng;
use rollup_sim::config::{Config, ConfigError, GeneralConfig, TransactionConfig};
use rollup_sim::engine::{
    backoff, draw_transaction_count, next_transaction, record_accepted, Action, EngineState, Outcome,
    SimulationEngine, DEFAULT_MAX_RETRIES,
};
use rollup_sim::provider::ClientError;
use rollup_sim::registry::{AccountRegistry, RegistryError};
use rollup_sim::transaction::Transaction;

fn config(tps: u32) -> Config {
    Config {
        general: GeneralConfig { account_count: 5, enable_throttling: true, generate_reports: false, tps },
        transaction: TransactionConfig {
            min_deposit_value: 100,
            max_deposit_value: 100,
            min_transfer_value: 1,
            max_transfer_value: 10,
        },
    }
}

const TX: Transaction = Transaction::Deposit { to: 1, amount: 100 };

#[test]
fn timeouts_twice_then_accepted() {
    let mut e = SimulationEngine::new(&config(10), DEFAULT_MAX_RETRIES);
    assert_eq!(e.start(&Ok(()), 1), Action::Submit);
    assert_eq!(e.on_result(TX, Err(ClientError::OperationTimeout), 5), Action::Retry { attempt: 1, backoff: 33_333_333 });
    assert_eq!(e.on_result(TX, Err(ClientError::OperationTimeout), 6), Action::Retry { attempt: 2, backoff: 66_666_666 });
    assert_eq!(e.on_result(TX, Ok("0xabc".to_string()), 7), Action::Stop);
    assert_eq!(e.state(), EngineState::Completed);
    assert_eq!(e.submissions(), 3);
    assert_eq!(e.accepted(), 1);
    assert_eq!(e.rejected(), 0);
    let o = &e.outcomes()[0];
    assert_eq!(o.attempts, 3);
    assert_eq!(o.timestamp, 7);
    assert!(matches!(&o.result, Outcome::Accepted(h) if h == "0xabc"));
}

#[test]
fn unsupported_network_aborts_before_any_send() {
    let mut e = SimulationEngine::new(&config(10), DEFAULT_MAX_RETRIES);
    let a = e.start(&Err(ClientError::NetworkNotSupported("devnet".to_string())), 4);
    assert_eq!(a, Action::Stop);
    assert_eq!(e.state(), EngineState::Aborted);
    assert_eq!(e.next_action(), Action::Stop);
    assert_eq!(e.submissions(), 0);
    assert!(e.outcomes().is_empty());
}

#[test]
fn retries_run_out_then_rejected() {
    let mut e = SimulationEngine::new(&config(10), 2);
    e.start(&Ok(()), 2);
    assert!(matches!(e.on_result(TX, Err(ClientError::NetworkError("a".to_string())), 1), Action::Retry { attempt: 1, .. }));
    assert!(matches!(e.on_result(TX, Err(ClientError::NetworkError("b".to_string())), 2), Action::Retry { attempt: 2, .. }));
    assert_eq!(e.on_result(TX, Err(ClientError::NetworkError("c".to_string())), 3), Action::Submit);
    assert_eq!(e.rejected(), 1);
    assert_eq!(e.state(), EngineState::Running);
    assert!(matches!(&e.outcomes()[0].result, Outcome::Rejected(ClientError::NetworkError(m)) if m == "c"));
}

#[test]
fn terminal_error_is_not_retried() {
    let mut e = SimulationEngine::new(&config(10), DEFAULT_MAX_RETRIES);
    e.start(&Ok(()), 2);
    assert_eq!(e.on_result(TX, Err(ClientError::IncorrectInput), 1), Action::Submit);
    assert_eq!(e.on_result(TX, Ok("h".to_string()), 2), Action::Stop);
    assert_eq!(e.accepted(), 1);
    assert_eq!(e.rejected(), 1);
    assert_eq!(e.submissions(), 2);
    assert_eq!(e.outcomes()[0].attempts, 1);
    assert_eq!(e.state(), EngineState::Completed);
}

#[test]
fn cancel_stops_the_run() {
    let mut e = SimulationEngine::new(&config(10), DEFAULT_MAX_RETRIES);
    e.start(&Ok(()), 5);
    e.on_result(TX, Ok("h".to_string()), 1);
    e.cancel();
    assert_eq!(e.state(), EngineState::Aborted);
    assert_eq!(e.next_action(), Action::Stop);
    assert_eq!(e.on_result(TX, Ok("late".to_string()), 2), Action::Stop);
    assert_eq!(e.outcomes().len(), 1);
}

#[test]
fn empty_run_completes_at_once() {
    let mut e = SimulationEngine::new(&config(10), DEFAULT_MAX_RETRIES);
    assert_eq!(e.start(&Ok(()), 0), Action::Stop);
    assert_eq!(e.state(), EngineState::Completed);
}

#[test]
fn backoff_is_linear_and_capped() {
    assert_eq!(backoff(100, 1, 4), 25);
    assert_eq!(backoff(100, 2, 4), 50);
    assert_eq!(backoff(100, 4, 4), 100);
}

#[test]
fn transaction_count_within_rate() {
    let c = config(7);
    let mut rng = StdRng::seed_from_u64(8);
    for _ in 0..200 {
        let n = draw_transaction_count(&c, &mut rng);
        assert!((1..=7).contains(&n));
    }
    assert_eq!(draw_transaction_count(&config(1), &mut rng), 1);
}

#[test]
fn accepted_transactions_update_balances() {
    let mut reg = AccountRegistry::new(3);
    record_accepted(&mut reg, &Transaction::Deposit { to: 1, amount: 50 }).unwrap();
    assert_eq!(reg.balance_of(1, 0), 50);
    let tr = Transaction::Transfer { from: 1, to: 2, token: 0, amount: 20, nonce: 0 };
    record_accepted(&mut reg, &tr).unwrap();
    assert_eq!(reg.balance_of(1, 0), 30);
    assert_eq!(reg.balance_of(2, 0), 20);
    let too_much = Transaction::Transfer { from: 2, to: 0, token: 0, amount: 21, nonce: 0 };
    assert_eq!(record_accepted(&mut reg, &too_much), Err(RegistryError::InsufficientBalance));
    assert_eq!(reg.balance_of(2, 0), 20);
    assert_eq!(reg.balance_of(0, 0), 0);
}

#[test]
fn config_validation() {
    assert_eq!(config(10).validate(), Ok(()));
    assert_eq!(config(0).validate(), Err(ConfigError::ZeroTps));
    let mut c = config(10);
    c.transaction.min_deposit_value = 101;
    assert_eq!(c.validate(), Err(ConfigError::DepositBounds));
    let mut c = config(10);
    c.transaction.min_transfer_value = 11;
    assert_eq!(c.validate(), Err(ConfigError::TransferBounds));
}

#[test]
fn booking_errors_leave_balances_alone() {
    let mut reg = AccountRegistry::new(2);
    let bad_to = Transaction::Transfer { from: 0, to: 2, token: 0, amount: 0, nonce: 0 };
    assert_eq!(record_accepted(&mut reg, &bad_to), Err(RegistryError::UnknownAccount));
    let bad_deposit = Transaction::Deposit { to: 9, amount: 1 };
    assert_eq!(record_accepted(&mut reg, &bad_deposit), Err(RegistryError::UnknownAccount));
    reg.update_balance(1, 0, i128::MAX).unwrap();
    reg.update_balance(1, 0, i128::MAX).unwrap();
    reg.update_balance(1, 0, 1).unwrap();
    let overflow = Transaction::Deposit { to: 1, amount: 1 };
    assert_eq!(record_accepted(&mut reg, &overflow), Err(RegistryError::BalanceOverflow));
    reg.update_balance(0, 0, 10).unwrap();
    let into_full = Transaction::Transfer { from: 0, to: 1, token: 0, amount: 5, nonce: 0 };
    assert_eq!(record_accepted(&mut reg, &into_full), Err(RegistryError::BalanceOverflow));
    assert_eq!(reg.balance_of(0, 0), 10);
    assert_eq!(reg.balance_of(1, 0), u128::MAX);
}

#[test]
fn transfer_to_self_changes_nothing() {
    let mut reg = AccountRegistry::new(2);
    reg.update_balance(0, 3, 40).unwrap();
    let tr = Transaction::Transfer { from: 0, to: 0, token: 3, amount: 40, nonce: 0 };
    assert_eq!(record_accepted(&mut reg, &tr), Ok(()));
    assert_eq!(reg.balance_of(0, 3), 40);
    let too_much = Transaction::Transfer { from: 0, to: 0, token: 3, amount: 41, nonce: 0 };
    assert_eq!(record_accepted(&mut reg, &too_much), Err(RegistryError::InsufficientBalance));
}

#[test]
fn zero_retries_rejects_at_once() {
    let mut e = SimulationEngine::new(&config(10), 0);
    e.start(&Ok(()), 1);
    assert_eq!(e.on_result(TX, Err(ClientError::OperationTimeout), 1), Action::Stop);
    assert_eq!(e.rejected(), 1);
    assert_eq!(e.state(), EngineState::Completed);
}

#[test]
fn generation_failure_skips_without_aborting() {
    let mut e = SimulationEngine::new(&config(10), DEFAULT_MAX_RETRIES);
    e.start(&Ok(()), 2);
    assert_eq!(e.on_generation_failed(), Action::Submit);
    assert_eq!(e.state(), EngineState::Running);
    assert_eq!(e.on_result(TX, Ok("h".to_string()), 1), Action::Stop);
    assert_eq!(e.state(), EngineState::Completed);
    assert_eq!(e.skipped(), 1);
    assert_eq!(e.accepted(), 1);
    assert_eq!(e.submissions(), 1);
}

#[test]
fn next_transaction_alternates_when_two_accounts_exist() {
    let c = config(10);
    let mut reg = AccountRegistry::new(5);
    let mut rng = StdRng::seed_from_u64(4);
    for seq in 0..10u64 {
        let tx = next_transaction(&c, &mut reg, &mut rng, seq).unwrap();
        if seq % 2 == 1 {
            assert!(matches!(tx, Transaction::Transfer { .. }));
        } else {
            assert!(matches!(tx, Transaction::Deposit { amount: 100, .. }));
        }
    }
    let mut one = AccountRegistry::new(1);
    assert!(matches!(next_transaction(&c, &mut one, &mut rng, 1).unwrap(), Transaction::Deposit { to: 0, .. }));
    let mut none = AccountRegistry::new(0);
    assert_eq!(next_transaction(&c, &mut none, &mut rng, 0), Err(RegistryError::NoAccounts));
}
