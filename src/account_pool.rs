//! The pool of disposable accounts whose tokens authorise chapter requests.

use vstd::prelude::*;
use crate::config::{authorization_of, token_authorization};

verus! {

/// A disposable account. `limited_at` is the Unix time of the last risk
/// control seen against it.
#[derive(Debug, Clone)]
pub struct Account {
    pub username: String,
    pub password: String,
    pub token: String,
    pub limited_at: i64,
}

/// An account is usable once `cool_down` seconds have passed since it was
/// last limited.
pub open spec fn is_available(a: Account, now: int, cool_down: int) -> bool {
    now - a.limited_at >= cool_down
}

/// The accounts, and how long one stays unusable after a risk control.
#[derive(Debug, Clone)]
pub struct AccountPool {
    pub accounts: Vec<Account>,
    pub cool_down_seconds: i64,
}

/// Relies on chrono's `Local::now().timestamp()`: the current Unix time; no
/// property of it is assumed.
#[verifier::external_body]
fn current_timestamp() -> (r: i64) {
    chrono::Local::now().timestamp()
}

impl AccountPool {
    /// An empty pool.
    pub fn new(cool_down_seconds: i64) -> (r: AccountPool)
        ensures
            r.accounts@.len() == 0,
            r.cool_down_seconds == cool_down_seconds,
    {
        AccountPool { accounts: Vec::new(), cool_down_seconds }
    }

    /// The position of an account usable at time `now`; none only when every
    /// account is limited.
    pub fn get_available_account(&self, now: i64) -> (r: Option<usize>)
        ensures
            r is None <==> forall|i: int| 0 <= i < self.accounts@.len()
                ==> !is_available(#[trigger] self.accounts@[i], now as int, self.cool_down_seconds as int),
            r matches Some(i) ==> i < self.accounts@.len()
                && is_available(self.accounts@[i as int], now as int, self.cool_down_seconds as int),
    {
        let mut i: usize = 0;
        while i < self.accounts.len()
            invariant
                i <= self.accounts.len(),
                forall|j: int| 0 <= j < i ==> !is_available(#[trigger] self.accounts@[j], now as int,
                    self.cool_down_seconds as int),
            decreases self.accounts.len() - i,
        {
            let elapsed: i128 = now as i128 - self.accounts[i].limited_at as i128;
            if elapsed >= self.cool_down_seconds as i128 {
                return Some(i);
            }
            i += 1;
        }
        None
    }

    /// An account usable now, by the system clock; returns the position found
    /// and the time it was judged at.
    pub fn get_available_account_now(&self) -> (r: (Option<usize>, i64))
        ensures
            r.0 is None <==> forall|i: int| 0 <= i < self.accounts@.len()
                ==> !is_available(#[trigger] self.accounts@[i], r.1 as int, self.cool_down_seconds as int),
            r.0 matches Some(i) ==> i < self.accounts@.len()
                && is_available(self.accounts@[i as int], r.1 as int, self.cool_down_seconds as int),
    {
        let now = current_timestamp();
        (self.get_available_account(now), now)
    }

    /// Adds a freshly registered account; returns its position.
    pub fn add_account(&mut self, account: Account) -> (r: usize)
        requires
            old(self).accounts@.len() < usize::MAX,
        ensures
            final(self).accounts@ == old(self).accounts@.push(account),
            final(self).cool_down_seconds == old(self).cool_down_seconds,
            r == old(self).accounts@.len(),
    {
        self.accounts.push(account);
        self.accounts.len() - 1
    }

    /// Records a risk control against account `i` at time `now`.
    pub fn mark_limited(&mut self, i: usize, now: i64)
        requires
            i < old(self).accounts@.len(),
        ensures
            final(self).accounts@.len() == old(self).accounts@.len(),
            final(self).cool_down_seconds == old(self).cool_down_seconds,
            final(self).accounts@[i as int].limited_at == now,
            final(self).accounts@[i as int].token == old(self).accounts@[i as int].token,
            final(self).accounts@[i as int].username == old(self).accounts@[i as int].username,
            final(self).accounts@[i as int].password == old(self).accounts@[i as int].password,
            forall|j: int| 0 <= j < final(self).accounts@.len() && j != i
                ==> #[trigger] final(self).accounts@[j] == old(self).accounts@[j],
    {
        let a = Account {
            username: self.accounts[i].username.clone(),
            password: self.accounts[i].password.clone(),
            token: self.accounts[i].token.clone(),
            limited_at: now,
        };
        self.accounts.set(i, a);
    }

    /// Records a risk control against account `i` now, by the system clock;
    /// returns the time recorded.
    pub fn mark_limited_now(&mut self, i: usize) -> (now: i64)
        requires
            i < old(self).accounts@.len(),
        ensures
            final(self).accounts@.len() == old(self).accounts@.len(),
            final(self).cool_down_seconds == old(self).cool_down_seconds,
            final(self).accounts@[i as int].limited_at == now,
            final(self).accounts@[i as int].token == old(self).accounts@[i as int].token,
            final(self).accounts@[i as int].username == old(self).accounts@[i as int].username,
            final(self).accounts@[i as int].password == old(self).accounts@[i as int].password,
            forall|j: int| 0 <= j < final(self).accounts@.len() && j != i
                ==> #[trigger] final(self).accounts@[j] == old(self).accounts@[j],
    {
        let now = current_timestamp();
        self.mark_limited(i, now);
        now
    }

    /// The `Authorization` value of a chapter request made with account `i`:
    /// the pool account's token, never the primary user's.
    pub fn chapter_authorization(&self, i: usize) -> (r: String)
        requires
            i < self.accounts@.len(),
        ensures
            r@ == authorization_of(self.accounts@[i as int].token@),
    {
        token_authorization(self.accounts[i].token.as_str())
    }
}

/// An account just limited is not usable again before the cool-down has
/// passed, so the next chapter request picks another account (or registers
/// one) rather than the limited one.
pub proof fn lemma_limited_account_skipped(pool: AccountPool, limited: AccountPool, i: int, now: int, later: int)
    requires
        0 <= i < pool.accounts@.len(),
        limited.cool_down_seconds == pool.cool_down_seconds,
        limited.accounts@.len() == pool.accounts@.len(),
        limited.accounts@[i].limited_at == now,
        pool.cool_down_seconds > 0,
        now <= later < now + pool.cool_down_seconds,
    ensures
        !is_available(limited.accounts@[i], later, limited.cool_down_seconds as int),
{
}

} // verus!
