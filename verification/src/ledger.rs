//! A model of the platform's account ledger: a fixed set of accounts, each
//! holding a `u64` balance. Every value movement goes through [`Ledger::pay`]
//! or [`Ledger::transfer`], which keep the total supply constant, so any
//! sequence of engine operations conserves funds by construction.

use vstd::prelude::*;

verus! {

/// An account is an index into the ledger.
pub type AccountId = usize;

/// Sum of all balances in a balance sequence.
pub open spec fn seq_sum(s: Seq<u64>) -> int
    decreases s.len(),
{
    if s.len() == 0 {
        0
    } else {
        s[0] + seq_sum(s.subrange(1, s.len() as int))
    }
}

/// The balance sequence after moving `amount` from `from` to `to`.
/// The debit is applied first, so the definition is exact even when
/// `from == to` (the move is then a no-op).
pub open spec fn transferred(s: Seq<u64>, from: int, to: int, amount: u64) -> Seq<u64> {
    let debited = s.update(from, (s[from] - amount) as u64);
    debited.update(to, (debited[to] + amount) as u64)
}

pub proof fn lemma_seq_sum_nonneg(s: Seq<u64>)
    ensures
        seq_sum(s) >= 0,
    decreases s.len(),
{
    if s.len() > 0 {
        lemma_seq_sum_nonneg(s.subrange(1, s.len() as int));
    }
}

pub proof fn lemma_seq_sum_push(s: Seq<u64>, v: u64)
    ensures
        seq_sum(s.push(v)) == seq_sum(s) + v,
    decreases s.len(),
{
    let t = s.push(v);
    assert(seq_sum(t) == t[0] + seq_sum(t.subrange(1, t.len() as int)));
    if s.len() == 0 {
        assert(t.subrange(1, t.len() as int) =~= Seq::<u64>::empty());
    } else {
        assert(t.subrange(1, t.len() as int) =~= s.subrange(1, s.len() as int).push(v));
        lemma_seq_sum_push(s.subrange(1, s.len() as int), v);
    }
}

pub proof fn lemma_seq_sum_update(s: Seq<u64>, i: int, v: u64)
    requires
        0 <= i < s.len(),
    ensures
        seq_sum(s.update(i, v)) == seq_sum(s) - s[i] + v,
    decreases s.len(),
{
    if i == 0 {
        assert(s.update(0, v).subrange(1, s.len() as int) =~= s.subrange(1, s.len() as int));
    } else {
        assert(s.update(i, v).subrange(1, s.len() as int) =~= s.subrange(
            1,
            s.len() as int,
        ).update(i - 1, v));
        lemma_seq_sum_update(s.subrange(1, s.len() as int), i - 1, v);
    }
}

/// Every single balance is bounded by the total.
pub proof fn lemma_seq_sum_elem(s: Seq<u64>, i: int)
    requires
        0 <= i < s.len(),
    ensures
        s[i] <= seq_sum(s),
    decreases s.len(),
{
    if i == 0 {
        lemma_seq_sum_nonneg(s.subrange(1, s.len() as int));
    } else {
        lemma_seq_sum_elem(s.subrange(1, s.len() as int), i - 1);
    }
}

/// Two distinct balances together are bounded by the total.
pub proof fn lemma_seq_sum_pair(s: Seq<u64>, i: int, j: int)
    requires
        0 <= i < s.len(),
        0 <= j < s.len(),
        i != j,
    ensures
        s[i] + s[j] <= seq_sum(s),
    decreases s.len(),
{
    let rest = s.subrange(1, s.len() as int);
    if i == 0 {
        lemma_seq_sum_elem(rest, j - 1);
    } else if j == 0 {
        lemma_seq_sum_elem(rest, i - 1);
    } else {
        lemma_seq_sum_pair(rest, i - 1, j - 1);
    }
}

/// Exact effect of one transfer: the source loses the amount, the target
/// gains it, every other account is untouched, and the total is conserved.
pub proof fn lemma_transferred_effect(s: Seq<u64>, from: int, to: int, amount: u64)
    requires
        0 <= from < s.len(),
        0 <= to < s.len(),
        amount <= s[from],
        seq_sum(s) <= u64::MAX,
    ensures
        ({
            let post = transferred(s, from, to, amount);
            &&& post.len() == s.len()
            &&& seq_sum(post) == seq_sum(s)
            &&& (from != to ==> post[from] == s[from] - amount && post[to] == s[to] + amount)
            &&& (from == to ==> post =~= s)
            &&& forall|k: int| 0 <= k < s.len() && k != from && k != to ==> post[k] == s[k]
        }),
{
    let debited = s.update(from, (s[from] - amount) as u64);
    if from != to {
        lemma_seq_sum_pair(s, from, to);
    }
    lemma_seq_sum_update(s, from, (s[from] - amount) as u64);
    lemma_seq_sum_update(debited, to, (debited[to] + amount) as u64);
}

/// Error raised by ledger operations.
#[derive(Clone, Copy, Debug, PartialEq, Eq, Structural)]
pub enum LedgerError {
    /// A debit was requested for more than the source account holds.
    InsufficientFunds,
    /// A deposit would push the total supply past what a balance can count.
    CapacityExceeded,
}

/// The account ledger. The cached total equals the sum of all balances,
/// which in particular bounds every balance, so credits never overflow.
pub struct Ledger {
    accounts: Vec<u64>,
    total: u64,
}

impl View for Ledger {
    type V = Seq<u64>;

    closed spec fn view(&self) -> Seq<u64> {
        self.accounts@
    }
}

impl Ledger {
    /// The cached total is in step with the balances.
    pub closed spec fn wf(&self) -> bool {
        self.total == seq_sum(self.accounts@)
    }

    /// Total value held across all accounts.
    pub open spec fn total_supply(&self) -> int {
        seq_sum(self@)
    }

    pub proof fn lemma_supply_bounds_balance(&self, i: int)
        requires
            self.wf(),
            0 <= i < self@.len(),
        ensures
            self@[i] <= self.total_supply() <= u64::MAX,
    {
        lemma_seq_sum_elem(self@, i);
    }

    pub proof fn lemma_supply_bounds_pair(&self, i: int, j: int)
        requires
            self.wf(),
            0 <= i < self@.len(),
            0 <= j < self@.len(),
            i != j,
        ensures
            self@[i] + self@[j] <= self.total_supply() <= u64::MAX,
    {
        lemma_seq_sum_pair(self@, i, j);
    }

    /// A fresh ledger of `n` empty accounts.
    pub fn new(n: usize) -> (r: Ledger)
        ensures
            r.wf(),
            r@.len() == n,
            r@ == Seq::new(n as nat, |i: int| 0u64),
            r.total_supply() == 0,
    {
        let mut accounts: Vec<u64> = Vec::new();
        let mut k: usize = 0;
        while k < n
            invariant
                k <= n,
                accounts@ == Seq::new(k as nat, |i: int| 0u64),
                seq_sum(accounts@) == 0,
            decreases n - k,
        {
            proof {
                lemma_seq_sum_push(accounts@, 0u64);
            }
            accounts.push(0);
            k = k + 1;
            proof {
                assert(accounts@ =~= Seq::new(k as nat, |i: int| 0u64));
            }
        }
        Ledger { accounts, total: 0 }
    }

    pub fn len(&self) -> (r: usize)
        ensures
            r == self@.len(),
    {
        self.accounts.len()
    }

    pub fn balance_of(&self, a: AccountId) -> (r: u64)
        requires
            a < self@.len(),
        ensures
            r == self@[a as int],
    {
        self.accounts[a]
    }

    pub fn total_balance(&self) -> (r: u64)
        requires
            self.wf(),
        ensures
            r == self.total_supply(),
    {
        self.total
    }

    /// Deposit fresh value into an account; models funds arriving from
    /// outside the modelled set of accounts. Rejected if the total supply
    /// would no longer fit a balance.
    pub fn fund(&mut self, a: AccountId, amount: u64) -> (r: Result<(), LedgerError>)
        requires
            old(self).wf(),
            a < old(self)@.len(),
        ensures
            final(self).wf(),
            final(self)@.len() == old(self)@.len(),
            r is Ok <==> old(self).total_supply() + amount <= u64::MAX,
            r is Ok ==> final(self)@ == old(self)@.update(
                a as int,
                (old(self)@[a as int] + amount) as u64,
            ) && final(self).total_supply() == old(self).total_supply() + amount,
            r is Err ==> final(self)@ == old(self)@ && r == Err::<(), LedgerError>(
                LedgerError::CapacityExceeded,
            ),
    {
        match self.total.checked_add(amount) {
            None => Err(LedgerError::CapacityExceeded),
            Some(new_total) => {
                proof {
                    lemma_seq_sum_elem(self@, a as int);
                    lemma_seq_sum_update(self@, a as int, (self@[a as int] + amount) as u64);
                }
                let new_balance = self.accounts[a] + amount;
                self.accounts[a] = new_balance;
                self.total = new_total;
                Ok(())
            },
        }
    }

    /// Move `amount` from `from` to `to`; the caller has already checked
    /// that `from` can cover it. Total supply is unchanged.
    pub fn pay(&mut self, from: AccountId, to: AccountId, amount: u64)
        requires
            old(self).wf(),
            from < old(self)@.len(),
            to < old(self)@.len(),
            amount <= old(self)@[from as int],
        ensures
            final(self).wf(),
            final(self)@.len() == old(self)@.len(),
            final(self)@ == transferred(old(self)@, from as int, to as int, amount),
            final(self).total_supply() == old(self).total_supply(),
    {
        proof {
            if from != to {
                lemma_seq_sum_pair(self@, from as int, to as int);
            } else {
                lemma_seq_sum_elem(self@, from as int);
            }
            let debited = self@.update(from as int, (self@[from as int] - amount) as u64);
            lemma_seq_sum_update(self@, from as int, (self@[from as int] - amount) as u64);
            lemma_seq_sum_update(debited, to as int, (debited[to as int] + amount) as u64);
        }
        let debited_balance = self.accounts[from] - amount;
        self.accounts[from] = debited_balance;
        let credited_balance = self.accounts[to] + amount;
        self.accounts[to] = credited_balance;
    }

    /// Atomic transfer between two accounts: either the full amount moves,
    /// or nothing does and the caller is told the source cannot cover it.
    pub fn transfer(&mut self, from: AccountId, to: AccountId, amount: u64) -> (r: Result<
        (),
        LedgerError,
    >)
        requires
            old(self).wf(),
            from < old(self)@.len(),
            to < old(self)@.len(),
        ensures
            final(self).wf(),
            final(self)@.len() == old(self)@.len(),
            final(self).total_supply() == old(self).total_supply(),
            r is Ok <==> amount <= old(self)@[from as int],
            r is Ok ==> final(self)@ == transferred(old(self)@, from as int, to as int, amount),
            r is Err ==> final(self)@ == old(self)@ && r == Err::<(), LedgerError>(
                LedgerError::InsufficientFunds,
            ),
    {
        if amount > self.accounts[from] {
            return Err(LedgerError::InsufficientFunds);
        }
        self.pay(from, to, amount);
        Ok(())
    }
}

} // verus!
