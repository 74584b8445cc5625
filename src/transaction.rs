use vstd::prelude::*;

use crate::config::Config;
use crate::random::draw_between;
use crate::registry::{lemma_nonces_strictly_increase, AccountRegistry, RegistryError};

verus! {

/// Token that generated transactions move: the network's base coin.
pub const BASE_TOKEN: u32 = 0;

/// A synthetic transaction.
#[derive(Debug, Clone, Copy, PartialEq, Eq, Structural)]
pub enum Transaction {
    /// Credits `to` with `amount` from outside the rollup.
    Deposit { to: u32, amount: u64 },
    /// Moves `amount` of `token` from `from` to `to`; `nonce` is the nonce
    /// of `from` taken when the transaction was generated.
    Transfer { from: u32, to: u32, token: u32, amount: u64, nonce: u32 },
}

impl Transaction {
    /// A deposit to a random account of an amount drawn from the configured
    /// deposit bounds, inclusive. Balances are not touched.
    pub fn generate_deposit(
        config: &Config,
        registry: &AccountRegistry,
        rng: &mut rand::rngs::StdRng,
    ) -> (r: Result<Transaction, RegistryError>)
        requires
            config.wf(),
            registry.account_count() <= u32::MAX,
        ensures
            r is Ok <==> registry.account_count() >= 1,
            r is Err ==> r == Err::<Transaction, _>(RegistryError::NoAccounts),
            r matches Ok(t) ==> t matches Transaction::Deposit { to, amount } && to
                < registry.account_count() && config.transaction.min_deposit_value <= amount
                <= config.transaction.max_deposit_value,
            r matches Ok(t) ==> config.transaction.min_deposit_value == config.transaction.max_deposit_value
                ==> t->Deposit_amount == config.transaction.min_deposit_value,
    {
        let to = match registry.random_account(None, rng) {
            Ok(a) => a,
            Err(e) => return Err(e),
        };
        let amount = draw_between(
            rng,
            config.transaction.min_deposit_value,
            config.transaction.max_deposit_value,
        );
        Ok(Transaction::Deposit { to, amount })
    }

    /// A transfer of the base coin between two distinct random accounts, of an
    /// amount drawn from the configured transfer bounds, inclusive. It takes
    /// the source's nonce from the registry.
    pub fn generate_transfer(
        config: &Config,
        registry: &mut AccountRegistry,
        rng: &mut rand::rngs::StdRng,
    ) -> (r: Result<Transaction, RegistryError>)
        requires
            config.wf(),
            old(registry).account_count() <= u32::MAX,
        ensures
            r == Err::<Transaction, _>(RegistryError::NoAccounts) <==> old(registry).account_count() == 0,
            r == Err::<Transaction, _>(RegistryError::InsufficientAccounts) <==> old(registry).account_count()
                == 1,
            old(registry).account_count() >= 2 && (forall|a: int|
                0 <= a < old(registry).account_count() ==> #[trigger] old(registry).nonce(a) < u32::MAX)
                ==> r is Ok,
            r is Err ==> *final(registry) == *old(registry),
            r is Err ==> r == Err::<Transaction, _>(RegistryError::NoAccounts) || r == Err::<Transaction, _>(
                RegistryError::InsufficientAccounts,
            ) || r == Err::<Transaction, _>(RegistryError::NonceExhausted),
            r matches Ok(t) ==> t matches Transaction::Transfer { from, to, token, amount, nonce } && from
                < old(registry).account_count() && to < old(registry).account_count() && from != to
                && token == BASE_TOKEN && config.transaction.min_transfer_value <= amount
                <= config.transaction.max_transfer_value && AccountRegistry::nonce_step(
                *old(registry),
                from,
                *final(registry),
                nonce,
            ),
    {
        let from = match registry.random_account(None, rng) {
            Ok(a) => a,
            Err(e) => return Err(e),
        };
        let to = match registry.random_account(Some(from), rng) {
            Ok(a) => a,
            Err(e) => {
                assert(e == RegistryError::InsufficientAccounts);
                return Err(e);
            },
        };
        let amount = draw_between(
            rng,
            config.transaction.min_transfer_value,
            config.transaction.max_transfer_value,
        );
        let nonce = match registry.next_nonce(from) {
            Ok(n) => n,
            Err(e) => {
                assert(e == RegistryError::NonceExhausted);
                return Err(e);
            },
        };
        Ok(Transaction::Transfer { from, to, token: BASE_TOKEN, amount, nonce })
    }
}

/// Across generated transfers, each taking its source's nonce in turn, the
/// nonces of transfers from one account strictly increase.
pub proof fn lemma_transfer_nonces_increase(states: Seq<AccountRegistry>, txs: Seq<Transaction>, account: u32)
    requires
        states.len() == txs.len() + 1,
        account < states[0].account_count(),
        forall|i: int|
            0 <= i < txs.len() ==> (#[trigger] txs[i]) is Transfer && AccountRegistry::nonce_step(
                states[i],
                txs[i]->Transfer_from,
                states[i + 1],
                txs[i]->Transfer_nonce,
            ),
    ensures
        forall|i: int, j: int|
            0 <= i < j < txs.len() && txs[i]->Transfer_from == account && txs[j]->Transfer_from == account
                ==> #[trigger] txs[i]->Transfer_nonce < #[trigger] txs[j]->Transfer_nonce,
{
    let accounts = Seq::new(txs.len(), |i: int| txs[i]->Transfer_from);
    let issued = Seq::new(txs.len(), |i: int| txs[i]->Transfer_nonce);
    assert forall|i: int| 0 <= i < issued.len() implies AccountRegistry::nonce_step(
        #[trigger] states[i],
        accounts[i],
        states[i + 1],
        issued[i],
    ) by {
        assert(txs[i] is Transfer);
    }
    lemma_nonces_strictly_increase(states, accounts, issued, account);
    assert forall|i: int, j: int|
        0 <= i < j < txs.len() && txs[i]->Transfer_from == account && txs[j]->Transfer_from == account
            implies #[trigger] txs[i]->Transfer_nonce < #[trigger] txs[j]->Transfer_nonce by {
        assert(issued[i] < issued[j]);
    }
}

} // verus!
