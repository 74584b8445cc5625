use vstd::prelude::*;

use crate::random::draw_between;

verus! {

/// Last known balance of one account in one token.
#[derive(Debug, Clone, Copy)]
pub struct BalanceEntry {
    pub account: u32,
    pub token: u32,
    pub amount: u128,
}

/// Balance of `account` in `token` as the first matching entry gives it, zero
/// where none matches.
pub open spec fn balance_in(s: Seq<BalanceEntry>, account: u32, token: u32) -> nat
    decreases s.len(),
{
    if s.len() == 0 {
        0
    } else if s[0].account == account && s[0].token == token {
        s[0].amount as nat
    } else {
        balance_in(s.drop_first(), account, token)
    }
}

pub open spec fn entry_is(e: BalanceEntry, account: u32, token: u32) -> bool {
    e.account == account && e.token == token
}

proof fn lemma_first_match(s: Seq<BalanceEntry>, i: int, account: u32, token: u32)
    requires
        0 <= i <= s.len(),
        forall|j: int| 0 <= j < i ==> !entry_is(#[trigger] s[j], account, token),
    ensures
        i < s.len() && entry_is(s[i], account, token) ==> balance_in(s, account, token)
            == s[i].amount,
        i == s.len() ==> balance_in(s, account, token) == 0,
    decreases i,
{
    if i > 0 {
        assert(!entry_is(s[0], account, token));
        let t = s.drop_first();
        assert forall|j: int| 0 <= j < i - 1 implies !entry_is(#[trigger] t[j], account, token) by {
            assert(t[j] == s[j + 1]);
        }
        lemma_first_match(t, i - 1, account, token);
    }
}

proof fn lemma_update_first(s: Seq<BalanceEntry>, i: int, e: BalanceEntry, account: u32, token: u32)
    requires
        0 <= i < s.len(),
        entry_is(s[i], e.account, e.token),
        forall|j: int| 0 <= j < i ==> !entry_is(#[trigger] s[j], e.account, e.token),
    ensures
        balance_in(s.update(i, e), account, token) == if entry_is(e, account, token) {
            e.amount as nat
        } else {
            balance_in(s, account, token)
        },
    decreases i,
{
    let u = s.update(i, e);
    if i == 0 {
        assert(u[0] == e);
        assert(u.drop_first() =~= s.drop_first());
    } else {
        assert(u[0] == s[0]);
        assert(!entry_is(s[0], e.account, e.token));
        let t = s.drop_first();
        assert(u.drop_first() =~= t.update(i - 1, e));
        assert forall|j: int| 0 <= j < i - 1 implies !entry_is(#[trigger] t[j], e.account, e.token) by {
            assert(t[j] == s[j + 1]);
        }
        lemma_update_first(t, i - 1, e, account, token);
    }
}

proof fn lemma_push_new(s: Seq<BalanceEntry>, e: BalanceEntry, account: u32, token: u32)
    requires
        forall|j: int| 0 <= j < s.len() ==> !entry_is(#[trigger] s[j], e.account, e.token),
    ensures
        balance_in(s.push(e), account, token) == if entry_is(e, account, token) {
            e.amount as nat
        } else {
            balance_in(s, account, token)
        },
    decreases s.len(),
{
    if s.len() == 0 {
        assert(s.push(e)[0] == e);
        assert(s.push(e).drop_first().len() == 0);
        assert(balance_in(s.push(e).drop_first(), account, token) == 0);
    } else {
        assert(s.push(e)[0] == s[0]);
        assert(!entry_is(s[0], e.account, e.token));
        let t = s.drop_first();
        assert(s.push(e).drop_first() =~= t.push(e));
        assert forall|j: int| 0 <= j < t.len() implies !entry_is(#[trigger] t[j], e.account, e.token) by {
            assert(t[j] == s[j + 1]);
        }
        lemma_push_new(t, e, account, token);
        assert(balance_in(s.push(e).drop_first(), account, token) == balance_in(t.push(e), account, token));
    }
}

proof fn lemma_balance_in_bounded(s: Seq<BalanceEntry>, account: u32, token: u32)
    ensures
        balance_in(s, account, token) <= u128::MAX,
    decreases s.len(),
{
    if s.len() > 0 {
        lemma_balance_in_bounded(s.drop_first(), account, token);
    }
}

/// Why the registry refused a request.
#[derive(Debug, Clone, Copy, PartialEq, Eq, Structural)]
pub enum RegistryError {
    /// The account id is not below the number of accounts.
    UnknownAccount,
    /// A distinct second account was asked for among fewer than two.
    InsufficientAccounts,
    /// No account exists to choose from.
    NoAccounts,
    /// The account's nonce has reached its largest value.
    NonceExhausted,
    /// The balance would drop below zero.
    InsufficientBalance,
    /// The balance would exceed its largest value.
    BalanceOverflow,
}

/// Nonce and balance bookkeeping for the accounts `0 .. account_count`.
pub struct AccountRegistry {
    nonces: Vec<u32>,
    balances: Vec<BalanceEntry>,
}

impl AccountRegistry {
    pub closed spec fn account_count(&self) -> nat {
        self.nonces@.len()
    }

    /// Current nonce of `account`.
    pub closed spec fn nonce(&self, account: int) -> u32 {
        self.nonces@[account]
    }

    /// Last known balance of `account` in `token`.
    pub closed spec fn balance(&self, account: u32, token: u32) -> nat {
        balance_in(self.balances@, account, token)
    }

    /// A balance always fits in a `u128`.
    pub proof fn lemma_balance_bounded(&self, account: u32, token: u32)
        ensures
            self.balance(account, token) <= u128::MAX,
    {
        lemma_balance_in_bounded(self.balances@, account, token);
    }

    pub open spec fn same_nonces(&self, other: &AccountRegistry) -> bool {
        &&& self.account_count() == other.account_count()
        &&& forall|a: int| 0 <= a < self.account_count() ==> #[trigger] self.nonce(a) == other.nonce(a)
    }

    pub open spec fn same_balances(&self, other: &AccountRegistry) -> bool {
        forall|a: u32, t: u32| #[trigger] self.balance(a, t) == other.balance(a, t)
    }

    /// One `next_nonce` step on `account`: `n` was its nonce, which moved on
    /// by one, and nothing else changed.
    pub open spec fn nonce_step(pre: AccountRegistry, account: u32, post: AccountRegistry, n: u32) -> bool {
        &&& account < pre.account_count()
        &&& n == pre.nonce(account as int)
        &&& post.nonce(account as int) == n + 1
        &&& post.account_count() == pre.account_count()
        &&& forall|a: int| 0 <= a < pre.account_count() && a != account ==> #[trigger] post.nonce(a) == pre.nonce(a)
        &&& post.same_balances(&pre)
    }

    /// `account_count` accounts, each with nonce zero and no balance.
    pub fn new(account_count: u32) -> (r: AccountRegistry)
        ensures
            r.account_count() == account_count,
            forall|a: int| 0 <= a < account_count ==> #[trigger] r.nonce(a) == 0,
            forall|a: u32, t: u32| #[trigger] r.balance(a, t) == 0,
    {
        let mut nonces: Vec<u32> = Vec::new();
        let mut i: u32 = 0;
        while i < account_count
            invariant
                i <= account_count,
                nonces@.len() == i,
                forall|a: int| 0 <= a < i ==> nonces@[a] == 0,
            decreases account_count - i,
        {
            nonces.push(0);
            i = i + 1;
        }
        AccountRegistry { nonces, balances: Vec::new() }
    }

    /// Number of accounts.
    pub fn num_accounts(&self) -> (r: u32)
        requires
            self.account_count() <= u32::MAX,
        ensures
            r == self.account_count(),
    {
        self.nonces.len() as u32
    }

    /// Current nonce of `account`, or `None` for an unknown account.
    pub fn nonce_of(&self, account: u32) -> (r: Option<u32>)
        ensures
            account < self.account_count() <==> r is Some,
            r matches Some(n) ==> n == self.nonce(account as int),
    {
        if (account as usize) < self.nonces.len() {
            Some(self.nonces[account as usize])
        } else {
            None
        }
    }

    /// Returns the current nonce of `account` and moves it on by one.
    pub fn next_nonce(&mut self, account: u32) -> (r: Result<u32, RegistryError>)
        ensures
            r is Ok <==> account < old(self).account_count() && old(self).nonce(account as int) < u32::MAX,
            r == Err::<u32, _>(RegistryError::UnknownAccount) <==> account >= old(self).account_count(),
            r == Err::<u32, _>(RegistryError::NonceExhausted) <==> account < old(self).account_count()
                && old(self).nonce(account as int) == u32::MAX,
            r matches Ok(n) ==> Self::nonce_step(*old(self), account, *final(self), n),
            r is Err ==> *final(self) == *old(self),
    {
        if (account as usize) >= self.nonces.len() {
            return Err(RegistryError::UnknownAccount);
        }
        let n = self.nonces[account as usize];
        if n == u32::MAX {
            return Err(RegistryError::NonceExhausted);
        }
        self.nonces.set(account as usize, n + 1);
        Ok(n)
    }

    /// Index of the first entry for `account` in `token`, if any.
    fn find_entry(&self, account: u32, token: u32) -> (r: Option<usize>)
        ensures
            r matches Some(i) ==> i < self.balances@.len() && entry_is(self.balances@[i as int], account, token)
                && self.balance(account, token) == self.balances@[i as int].amount,
            r matches Some(i) ==> forall|j: int| 0 <= j < i ==> !entry_is(#[trigger] self.balances@[j], account, token),
            r is None ==> forall|j: int| 0 <= j < self.balances@.len() ==> !entry_is(#[trigger] self.balances@[j], account, token),
            r is None ==> self.balance(account, token) == 0,
    {
        let mut i: usize = 0;
        while i < self.balances.len()
            invariant
                i <= self.balances@.len(),
                forall|j: int| 0 <= j < i ==> !entry_is(#[trigger] self.balances@[j], account, token),
            decreases self.balances@.len() - i,
        {
            let e = self.balances[i];
            if e.account == account && e.token == token {
                proof {
                    lemma_first_match(self.balances@, i as int, account, token);
                }
                return Some(i);
            }
            i = i + 1;
        }
        proof {
            lemma_first_match(self.balances@, i as int, account, token);
        }
        None
    }

    /// Last known balance of `account` in `token`; zero for a token not seen.
    pub fn balance_of(&self, account: u32, token: u32) -> (r: u128)
        ensures
            r == self.balance(account, token),
    {
        match self.find_entry(account, token) {
            Some(i) => self.balances[i].amount,
            None => 0,
        }
    }

    /// Adds `delta` to the balance of `account` in `token`.
    pub fn update_balance(&mut self, account: u32, token: u32, delta: i128) -> (r: Result<(), RegistryError>)
        ensures
            r is Ok <==> account < old(self).account_count() && 0 <= old(self).balance(account, token) + delta
                <= u128::MAX,
            r == Err::<(), _>(RegistryError::UnknownAccount) <==> account >= old(self).account_count(),
            r == Err::<(), _>(RegistryError::InsufficientBalance) <==> account < old(self).account_count()
                && old(self).balance(account, token) + delta < 0,
            r == Err::<(), _>(RegistryError::BalanceOverflow) <==> account < old(self).account_count()
                && old(self).balance(account, token) + delta > u128::MAX,
            r is Ok ==> {
                &&& final(self).balance(account, token) == old(self).balance(account, token) + delta
                &&& forall|a: u32, t: u32| !(a == account && t == token) ==> #[trigger] final(self).balance(a, t)
                    == old(self).balance(a, t)
                &&& final(self).same_nonces(old(self))
            },
            r is Err ==> *final(self) == *old(self),
    {
        if (account as usize) >= self.nonces.len() {
            return Err(RegistryError::UnknownAccount);
        }
        let found = self.find_entry(account, token);
        let cur: u128 = match found {
            Some(i) => self.balances[i].amount,
            None => 0,
        };
        let next: u128 = if delta >= 0 {
            let d = delta as u128;
            if cur > u128::MAX - d {
                return Err(RegistryError::BalanceOverflow);
            }
            cur + d
        } else {
            let m: u128 = (-(delta + 1)) as u128 + 1;
            if cur < m {
                return Err(RegistryError::InsufficientBalance);
            }
            cur - m
        };
        let e = BalanceEntry { account, token, amount: next };
        let ghost pre = self.balances@;
        match found {
            Some(i) => {
                self.balances.set(i, e);
                proof {
                    assert forall|a: u32, t: u32| #[trigger] balance_in(self.balances@, a, t) == if entry_is(e, a, t) {
                        e.amount as nat
                    } else {
                        balance_in(pre, a, t)
                    } by {
                        lemma_update_first(pre, i as int, e, a, t);
                    }
                }
            },
            None => {
                self.balances.push(e);
                proof {
                    assert forall|a: u32, t: u32| #[trigger] balance_in(self.balances@, a, t) == if entry_is(e, a, t) {
                        e.amount as nat
                    } else {
                        balance_in(pre, a, t)
                    } by {
                        lemma_push_new(pre, e, a, t);
                    }
                }
            },
        }
        Ok(())
    }

    /// An account chosen at random, other than `excluding` where one is given.
    pub fn random_account(&self, excluding: Option<u32>, rng: &mut rand::rngs::StdRng) -> (r: Result<u32, RegistryError>)
        requires
            self.account_count() <= u32::MAX,
        ensures
            r == Err::<u32, _>(RegistryError::NoAccounts) <==> self.account_count() == 0 && excluding is None,
            r == Err::<u32, _>(RegistryError::InsufficientAccounts) <==> self.account_count() < 2
                && excluding is Some,
            r is Ok <==> self.account_count() >= 2 || (self.account_count() == 1 && excluding is None),
            r matches Ok(a) ==> a < self.account_count() && excluding != Some(a),
            r matches Ok(a) ==> exists|d: u32|
                d < choice_count(self.account_count(), excluding) && #[trigger] picked(excluding, d) == a,
    {
        let count = self.nonces.len() as u32;
        let choices = match excluding {
            Some(x) => {
                if count < 2 {
                    return Err(RegistryError::InsufficientAccounts);
                }
                if x < count { count - 1 } else { count }
            },
            None => {
                if count == 0 {
                    return Err(RegistryError::NoAccounts);
                }
                count
            },
        };
        let draw = draw_between(rng, 0, (choices - 1) as u64) as u32;
        let a = pick_account(count, excluding, draw);
        assert(picked(excluding, draw) == a);
        Ok(a)
    }
}

/// `states` goes through one `next_nonce` step per entry: step `i` took
/// nonce `issued[i]` from account `accounts[i]`.
pub open spec fn nonce_run(states: Seq<AccountRegistry>, accounts: Seq<u32>, issued: Seq<u32>) -> bool {
    &&& states.len() == accounts.len() + 1
    &&& accounts.len() == issued.len()
    &&& forall|i: int|
        0 <= i < issued.len() ==> AccountRegistry::nonce_step(
            #[trigger] states[i],
            accounts[i],
            states[i + 1],
            issued[i],
        )
}

proof fn lemma_nonce_run_monotone(
    states: Seq<AccountRegistry>,
    accounts: Seq<u32>,
    issued: Seq<u32>,
    account: u32,
    j: int,
)
    requires
        nonce_run(states, accounts, issued),
        account < states[0].account_count(),
        0 <= j < states.len(),
    ensures
        states[j].account_count() == states[0].account_count(),
        forall|i: int| 0 <= i <= j ==> #[trigger] states[i].nonce(account as int) <= states[j].nonce(account as int),
    decreases j,
{
    if j > 0 {
        lemma_nonce_run_monotone(states, accounts, issued, account, j - 1);
        assert(AccountRegistry::nonce_step(states[j - 1], accounts[j - 1], states[j], issued[j - 1]));
    }
}

/// Nonces taken from one account come out strictly increasing, whatever
/// other accounts are served in between.
pub proof fn lemma_nonces_strictly_increase(
    states: Seq<AccountRegistry>,
    accounts: Seq<u32>,
    issued: Seq<u32>,
    account: u32,
)
    requires
        nonce_run(states, accounts, issued),
        account < states[0].account_count(),
    ensures
        forall|i: int, j: int|
            0 <= i < j < issued.len() && accounts[i] == account && accounts[j] == account
                ==> #[trigger] issued[i] < #[trigger] issued[j],
{
    assert forall|i: int, j: int|
        0 <= i < j < issued.len() && accounts[i] == account && accounts[j] == account
            implies #[trigger] issued[i] < #[trigger] issued[j] by {
        lemma_nonce_run_monotone(states, accounts, issued, account, j);
        assert(AccountRegistry::nonce_step(states[i], accounts[i], states[i + 1], issued[i]));
        assert(AccountRegistry::nonce_step(states[j], accounts[j], states[j + 1], issued[j]));
    }
}

proof fn lemma_single_account_run(states: Seq<AccountRegistry>, issued: Seq<u32>, account: u32, k: int)
    requires
        nonce_run(states, Seq::new(issued.len(), |i: int| account), issued),
        account < states[0].account_count(),
        states[0].nonce(account as int) == 0,
        0 <= k < states.len(),
    ensures
        states[k].nonce(account as int) == k,
        states[k].account_count() == states[0].account_count(),
        forall|i: int| 0 <= i < k ==> #[trigger] issued[i] == i,
    decreases k,
{
    if k > 0 {
        lemma_single_account_run(states, issued, account, k - 1);
        assert(AccountRegistry::nonce_step(states[k - 1], account, states[k], issued[k - 1]));
    }
}

/// Starting from nonce zero, `n` calls of `next_nonce` on one account hand
/// out each of `0 .. n` exactly once.
pub proof fn lemma_nonces_issued_once(states: Seq<AccountRegistry>, issued: Seq<u32>, account: u32)
    requires
        nonce_run(states, Seq::new(issued.len(), |i: int| account), issued),
        account < states[0].account_count(),
        states[0].nonce(account as int) == 0,
    ensures
        issued.no_duplicates(),
        forall|v: u32| issued.contains(v) <==> v < issued.len(),
{
    lemma_single_account_run(states, issued, account, issued.len() as int);
    assert forall|v: u32| v < issued.len() implies issued.contains(v) by {
        assert(issued[v as int] == v);
    }
}

/// Number of accounts to choose among when `excluding` is left out of `count`.
pub open spec fn choice_count(count: nat, excluding: Option<u32>) -> nat {
    match excluding {
        Some(x) => if x < count { (count - 1) as nat } else { count },
        None => count,
    }
}

/// The account that the `draw`-th choice stands for: draws from `excluding`
/// on move up by one.
pub open spec fn picked(excluding: Option<u32>, draw: u32) -> int {
    match excluding {
        Some(x) => if draw >= x { draw + 1 } else { draw as int },
        None => draw as int,
    }
}

/// Maps the `draw`-th choice onto an account id, skipping `excluding`: each
/// draw below `choice_count` gives a distinct account other than `excluding`.
pub fn pick_account(count: u32, excluding: Option<u32>, draw: u32) -> (r: u32)
    requires
        draw < choice_count(count as nat, excluding),
    ensures
        r < count,
        excluding != Some(r),
        r == picked(excluding, draw),
{
    match excluding {
        Some(x) => if draw >= x { draw + 1 } else { draw },
        None => draw,
    }
}

} // verus!
