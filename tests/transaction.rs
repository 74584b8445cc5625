use rand::rngs::StdRng;
use rand::SeedableRng;
use rollup_sim::config::{Config, GeneralConfig, TransactionConfig};
use rollup_sim::registry::{AccountRegistry, RegistryError};
use rollup_sim::transaction::Transaction;

fn config(account_count: u32, tps: u32, dep: (u64, u64), tr: (u64, u64)) -> Config {
    Config {
        general: GeneralConfig { account_count, enable_throttling: true, generate_reports: false, tps },
        transaction: TransactionConfig {
            min_deposit_value: dep.0,
            max_deposit_value: dep.1,
            min_transfer_value: tr.0,
            max_transfer_value: tr.1,
        },
    }
}

#[test]
fn fixed_deposit_bounds_scenario() {
    let c = config(5, 10, (100, 100), (1, 10));
    let reg = AccountRegistry::new(c.general.account_count);
    let mut rng = StdRng::seed_from_u64(42);
    for _ in 0..100 {
        match Transaction::generate_deposit(&c, &reg, &mut rng).unwrap() {
            Transaction::Deposit { to, amount } => {
                assert_eq!(amount, 100);
                assert!(to < 5);
            }
            other => panic!("not a deposit: {:?}", other),
        }
    }
}

#[test]
fn deposit_amounts_within_bounds() {
    let c = config(3, 10, (7, 12), (1, 10));
    let reg = AccountRegistry::new(3);
    let mut rng = StdRng::seed_from_u64(3);
    let mut seen = [false; 13];
    for _ in 0..500 {
        if let Transaction::Deposit { amount, .. } = Transaction::generate_deposit(&c, &reg, &mut rng).unwrap() {
            assert!((7..=12).contains(&amount));
            seen[amount as usize] = true;
        }
    }
    assert!(seen[7] && seen[12]);
}

#[test]
fn deposit_without_accounts() {
    let c = config(0, 10, (1, 2), (1, 2));
    let reg = AccountRegistry::new(0);
    let mut rng = StdRng::seed_from_u64(3);
    assert_eq!(Transaction::generate_deposit(&c, &reg, &mut rng), Err(RegistryError::NoAccounts));
}

#[test]
fn transfers_distinct_and_nonces_increase() {
    let c = config(3, 10, (1, 2), (5, 9));
    let mut reg = AccountRegistry::new(3);
    let mut rng = StdRng::seed_from_u64(5);
    let mut last: [Option<u32>; 3] = [None; 3];
    for _ in 0..300 {
        match Transaction::generate_transfer(&c, &mut reg, &mut rng).unwrap() {
            Transaction::Transfer { from, to, token, amount, nonce } => {
                assert_ne!(from, to);
                assert!(from < 3 && to < 3);
                assert_eq!(token, 0);
                assert!((5..=9).contains(&amount));
                if let Some(prev) = last[from as usize] {
                    assert!(nonce > prev);
                }
                last[from as usize] = Some(nonce);
            }
            other => panic!("not a transfer: {:?}", other),
        }
    }
}

#[test]
fn transfer_needs_two_accounts() {
    let c = config(1, 10, (1, 2), (1, 2));
    let mut reg = AccountRegistry::new(1);
    let mut rng = StdRng::seed_from_u64(5);
    assert_eq!(Transaction::generate_transfer(&c, &mut reg, &mut rng), Err(RegistryError::InsufficientAccounts));
    assert_eq!(reg.nonce_of(0), Some(0));
}

#[test]
fn seeded_generation_is_reproducible() {
    let c = config(10, 10, (1, 1000), (1, 1000));
    let reg = AccountRegistry::new(10);
    let mut a = StdRng::seed_from_u64(99);
    let mut b = StdRng::seed_from_u64(99);
    for _ in 0..20 {
        assert_eq!(
            Transaction::generate_deposit(&c, &reg, &mut a),
            Transaction::generate_deposit(&c, &reg, &mut b)
        );
    }
}
