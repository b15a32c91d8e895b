//! The node's remote-procedure surface, reduced to its one chain-state
//! projection: the account-nonce query that external callers use to pick
//! the next valid nonce before submitting. It reads chain state and the
//! pool and has no authoring side effects.

use vstd::prelude::*;
use crate::pool::staged_count;
use crate::scheduler::{Node, account_of};

verus! {

/// The next nonce an external caller should sign with: the account's
/// committed nonce, advanced past every transaction already staged in
/// the pool from the same sender, saturating at the nonce type's
/// maximum.
pub open spec fn spec_account_nonce(m: crate::scheduler::NodeModel, account: u64) -> u64 {
    let next = account_of(m.accounts, account).nonce + staged_count(m.pool, account);
    if next > u64::MAX {
        u64::MAX
    } else {
        next as u64
    }
}

/// The account-nonce query.
pub fn account_nonce(node: &Node, account: u64) -> (n: u64)
    ensures
        n == spec_account_nonce(node@, account),
{
    let acct = node.lookup_account(account);
    let staged = node.pool.staged_from(account);
    let wide: u128 = (acct.nonce as u128) + (staged as u128);
    if wide > u64::MAX as u128 {
        u64::MAX
    } else {
        wide as u64
    }
}

} // verus!
