//! The transaction pool: the ordered, de-duplicated holding area for pending
//! transactions. Entries keep their arrival order; admission runs the
//! validity pipeline with the sender's expected next nonce accounting for
//! transactions already staged from the same sender.

use vstd::prelude::*;
use crate::pipeline::{
    Account, ChainEnv, FeeParams, Reject, Transaction, check_transaction, spec_check_tx,
};

verus! {

/// No two entries carry the same (sender, nonce) pair.
pub open spec fn key_distinct(s: Seq<Transaction>) -> bool {
    forall|i: int, j: int|
        0 <= i < j < s.len() ==> !((#[trigger] s[i]).sender == (#[trigger] s[j]).sender
            && s[i].nonce == s[j].nonce)
}

/// Is some entry keyed by this (sender, nonce) pair?
pub open spec fn has_key(s: Seq<Transaction>, sender: u64, nonce: u64) -> bool {
    exists|i: int| 0 <= i < s.len() && (#[trigger] s[i]).sender == sender && s[i].nonce == nonce
}

/// How many staged entries come from this sender.
pub open spec fn staged_count(s: Seq<Transaction>, sender: u64) -> nat
    decreases s.len(),
{
    if s.len() == 0 {
        0
    } else {
        staged_count(s.drop_last(), sender) + (if s.last().sender == sender {
            1nat
        } else {
            0nat
        })
    }
}

/// Is this entry still pending, measured against the committed accounts?
/// An entry whose nonce the chain has passed is spent.
pub open spec fn entry_pending(t: Transaction, accounts: Seq<Account>) -> bool {
    t.sender < accounts.len() && t.nonce >= accounts[t.sender as int].nonce
}

/// The pool after pruning: the still-pending entries, in their arrival
/// order.
pub open spec fn spec_prune(s: Seq<Transaction>, accounts: Seq<Account>) -> Seq<Transaction>
    decreases s.len(),
{
    if s.len() == 0 {
        s
    } else {
        let rest = spec_prune(s.drop_last(), accounts);
        if entry_pending(s.last(), accounts) {
            rest.push(s.last())
        } else {
            rest
        }
    }
}

/// The admission rule: the pipeline, run with the expected nonce adjusted
/// for entries already staged from the same sender, then the pool's own
/// de-duplication. When the sender has staged so many transactions that
/// the expected nonce leaves the nonce type, any further nonce is
/// necessarily already used.
pub open spec fn spec_admit(
    tx: Transaction,
    env: ChainEnv,
    pool: Seq<Transaction>,
    remaining_weight: u64,
    acct: Account,
    fees: FeeParams,
) -> Result<u64, Reject> {
    let expected = acct.nonce + staged_count(pool, tx.sender);
    if expected > u64::MAX {
        Err(Reject::StaleNonce)
    } else {
        match spec_check_tx(tx, env, expected as u64, remaining_weight, acct, fees) {
            Ok(fee) => if has_key(pool, tx.sender, tx.nonce) {
                Err(Reject::StaleNonce)
            } else {
                Ok(fee)
            },
            Err(r) => Err(r),
        }
    }
}

/// Every key of the pruned pool was a key of the pool.
proof fn lemma_prune_key_subset(
    s: Seq<Transaction>,
    accounts: Seq<Account>,
    sender: u64,
    nonce: u64,
)
    requires
        has_key(spec_prune(s, accounts), sender, nonce),
    ensures
        has_key(s, sender, nonce),
    decreases s.len(),
{
    if s.len() > 0 {
        let pruned = spec_prune(s, accounts);
        let rest = spec_prune(s.drop_last(), accounts);
        let i = choose|i: int|
            0 <= i < pruned.len() && (#[trigger] pruned[i]).sender == sender && pruned[i].nonce
                == nonce;
        if entry_pending(s.last(), accounts) && i == pruned.len() - 1 {
            assert(s[s.len() - 1] == s.last());
        } else {
            assert(rest[i].sender == sender && rest[i].nonce == nonce);
            lemma_prune_key_subset(s.drop_last(), accounts, sender, nonce);
            let j = choose|j: int|
                0 <= j < s.drop_last().len() && (#[trigger] s.drop_last()[j]).sender == sender
                    && s.drop_last()[j].nonce == nonce;
            assert(s[j].sender == sender && s[j].nonce == nonce);
        }
    }
}

/// Pruning keeps the keys distinct.
pub proof fn lemma_prune_distinct(s: Seq<Transaction>, accounts: Seq<Account>)
    requires
        key_distinct(s),
    ensures
        key_distinct(spec_prune(s, accounts)),
    decreases s.len(),
{
    if s.len() > 0 {
        assert(key_distinct(s.drop_last())) by {
            assert forall|i: int, j: int| 0 <= i < j < s.drop_last().len() implies !((
            #[trigger] s.drop_last()[i]).sender == (#[trigger] s.drop_last()[j]).sender
                && s.drop_last()[i].nonce == s.drop_last()[j].nonce) by {
                assert(s[i] == s.drop_last()[i] && s[j] == s.drop_last()[j]);
            }
        }
        lemma_prune_distinct(s.drop_last(), accounts);
        let rest = spec_prune(s.drop_last(), accounts);
        let pruned = spec_prune(s, accounts);
        if entry_pending(s.last(), accounts) {
            assert forall|i: int, j: int| 0 <= i < j < pruned.len() implies !((
            #[trigger] pruned[i]).sender == (#[trigger] pruned[j]).sender && pruned[i].nonce
                == pruned[j].nonce) by {
                if j == pruned.len() - 1 {
                    if pruned[i].sender == s.last().sender && pruned[i].nonce == s.last().nonce {
                        assert(has_key(rest, s.last().sender, s.last().nonce));
                        lemma_prune_key_subset(
                            s.drop_last(),
                            accounts,
                            s.last().sender,
                            s.last().nonce,
                        );
                        let k = choose|k: int|
                            0 <= k < s.drop_last().len() && (#[trigger] s.drop_last()[k]).sender
                                == s.last().sender && s.drop_last()[k].nonce == s.last().nonce;
                        assert(s[k].sender == s[s.len() - 1].sender && s[k].nonce == s[s.len()
                            - 1].nonce);
                    }
                } else {
                    assert(pruned[i] == rest[i] && pruned[j] == rest[j]);
                }
            }
        }
    }
}

/// The holding area for pending transactions, in arrival order.
pub struct TransactionPool {
    entries: Vec<Transaction>,
}

impl View for TransactionPool {
    type V = Seq<Transaction>;

    closed spec fn view(&self) -> Seq<Transaction> {
        self.entries@
    }
}

impl TransactionPool {
    /// De-duplication holds: no two entries share a (sender, nonce) key.
    pub open spec fn wf(&self) -> bool {
        key_distinct(self@)
    }

    pub fn new() -> (p: Self)
        ensures
            p@ == Seq::<Transaction>::empty(),
            p.wf(),
    {
        TransactionPool { entries: Vec::new() }
    }

    pub fn len(&self) -> (n: usize)
        ensures
            n == self@.len(),
    {
        self.entries.len()
    }

    pub fn is_empty(&self) -> (b: bool)
        ensures
            b <==> self@.len() == 0,
    {
        self.entries.len() == 0
    }

    /// Read access to the staged entries, in arrival order.
    pub fn entries(&self) -> (v: &Vec<Transaction>)
        ensures
            v@ == self@,
    {
        &self.entries
    }

    /// Counts the staged entries of one sender.
    pub fn staged_from(&self, sender: u64) -> (n: usize)
        ensures
            n == staged_count(self@, sender),
    {
        let mut n: usize = 0;
        let mut i: usize = 0;
        while i < self.entries.len()
            invariant
                0 <= i <= self@.len(),
                n == staged_count(self@.take(i as int), sender),
                n <= i,
            decreases self@.len() - i,
        {
            proof {
                assert(self@.take(i + 1).drop_last() =~= self@.take(i as int));
                assert(self@.take(i + 1).last() == self@[i as int]);
            }
            if self.entries[i].sender == sender {
                n += 1;
            }
            i += 1;
        }
        proof {
            assert(self@.take(self@.len() as int) =~= self@);
        }
        n
    }

    /// Is an entry with this (sender, nonce) key already staged?
    pub fn contains_key(&self, sender: u64, nonce: u64) -> (b: bool)
        ensures
            b <==> has_key(self@, sender, nonce),
    {
        let mut i: usize = 0;
        while i < self.entries.len()
            invariant
                0 <= i <= self@.len(),
                forall|j: int|
                    0 <= j < i ==> !((#[trigger] self@[j]).sender == sender && self@[j].nonce
                        == nonce),
            decreases self@.len() - i,
        {
            if self.entries[i].sender == sender && self.entries[i].nonce == nonce {
                return true;
            }
            i += 1;
        }
        false
    }

    /// Validates a transaction against the pipeline and admits it to the
    /// pool, reporting the computed fee; a rejection leaves the pool
    /// unchanged and carries the first failing check's reason.
    pub fn submit(
        &mut self,
        tx: &Transaction,
        env: &ChainEnv,
        acct: &Account,
        remaining_weight: u64,
        fees: &FeeParams,
    ) -> (r: Result<u64, Reject>)
        requires
            old(self).wf(),
        ensures
            final(self).wf(),
            r == spec_admit(*tx, *env, old(self)@, remaining_weight, *acct, *fees),
            r is Ok ==> final(self)@ == old(self)@.push(*tx),
            r is Err ==> final(self)@ == old(self)@,
    {
        let staged = self.staged_from(tx.sender);
        let expected_wide: u128 = (acct.nonce as u128) + (staged as u128);
        if expected_wide > u64::MAX as u128 {
            return Err(Reject::StaleNonce);
        }
        let expected: u64 = expected_wide as u64;
        match check_transaction(tx, env, expected, remaining_weight, acct, fees) {
            Ok(fee) => {
                if self.contains_key(tx.sender, tx.nonce) {
                    Err(Reject::StaleNonce)
                } else {
                    proof {
                        let s = self@.push(*tx);
                        assert forall|i: int, j: int| 0 <= i < j < s.len() implies !((
                        #[trigger] s[i]).sender == (#[trigger] s[j]).sender && s[i].nonce
                            == s[j].nonce) by {
                            if j == s.len() - 1 {
                                assert(!(self@[i].sender == tx.sender && self@[i].nonce
                                    == tx.nonce));
                            }
                        }
                    }
                    self.entries.push(*tx);
                    Ok(fee)
                }
            },
            Err(r) => Err(r),
        }
    }

    /// Drops every entry the chain has passed: after a block commits, the
    /// included (and any otherwise spent) nonces leave the pool.
    pub fn prune(&mut self, accounts: &Vec<Account>)
        requires
            old(self).wf(),
        ensures
            final(self).wf(),
            final(self)@ == spec_prune(old(self)@, accounts@),
    {
        let ghost orig = self@;
        let mut kept: Vec<Transaction> = Vec::new();
        let mut i: usize = 0;
        while i < self.entries.len()
            invariant
                0 <= i <= orig.len(),
                self@ == orig,
                kept@ == spec_prune(orig.take(i as int), accounts@),
            decreases orig.len() - i,
        {
            proof {
                assert(orig.take(i + 1).drop_last() =~= orig.take(i as int));
                assert(orig.take(i + 1).last() == orig[i as int]);
            }
            let t = self.entries[i];
            let pending = if t.sender < (accounts.len() as u64) {
                t.nonce >= accounts[t.sender as usize].nonce
            } else {
                false
            };
            if pending {
                kept.push(t);
            }
            i += 1;
        }
        proof {
            assert(orig.take(orig.len() as int) =~= orig);
            lemma_prune_distinct(orig, accounts@);
        }
        self.entries = kept;
    }
}

} // verus!
