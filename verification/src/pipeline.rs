//! The ordered transaction-validity pipeline: the fixed sequence of checks
//! that every transaction passes before pool admission and again before
//! inclusion. The order is a protocol invariant: a rejection always comes
//! from the first failing check, and no later check (in particular the
//! fee charge) observes a transaction that an earlier check refused.

use vstd::prelude::*;

verus! {

/// A transaction, reduced to the plain values that the pipeline reads.
#[derive(Clone, Copy, Debug, PartialEq, Eq, Structural)]
pub struct Transaction {
    /// Sender account identity; `0` is the null identity and never valid.
    pub sender: u64,
    /// Whether the call itself is permitted to be dispatched by this
    /// extension stack.
    pub call_authorized: bool,
    /// The runtime spec version the transaction was signed against.
    pub spec_version: u32,
    /// The transaction-format version it was encoded against.
    pub tx_version: u32,
    /// The genesis hash of the chain it is meant for.
    pub genesis_hash: u64,
    /// First block height at which the transaction is valid.
    pub era_start: u64,
    /// Last block height at which the transaction is valid.
    pub era_end: u64,
    /// Sender's transaction sequence number.
    pub nonce: u64,
    /// Declared computational weight, charged against the block budget
    /// before dispatch.
    pub weight: u64,
    /// Weight the dispatch actually consumes, as the executed call reports
    /// it afterwards; any over-estimate against `weight` is reclaimed.
    pub actual_weight: u64,
    /// Optional priority tip, added to the fee.
    pub tip: u64,
}

/// The chain-level values that the checks compare against.
#[derive(Clone, Copy, Debug, PartialEq, Eq, Structural)]
pub struct ChainEnv {
    pub spec_version: u32,
    pub tx_version: u32,
    pub genesis_hash: u64,
    pub block_height: u64,
}

/// Fee schedule: a flat per-transaction length fee plus a per-weight-unit
/// fee. A tip from the transaction is added on top.
#[derive(Clone, Copy, Debug, PartialEq, Eq, Structural)]
pub struct FeeParams {
    pub weight_fee: u64,
    pub length_fee: u64,
}

/// An account as the pipeline sees it: its next expected nonce and its
/// free balance.
#[derive(Clone, Copy, Debug, PartialEq, Eq, Structural)]
pub struct Account {
    pub nonce: u64,
    pub balance: u64,
}

/// The specific reason a check rejects a transaction.
#[derive(Clone, Copy, Debug, PartialEq, Eq, Structural)]
pub enum Reject {
    /// The call is not permitted to be dispatched by this extension stack.
    UnauthorizedCall,
    /// The sender resolves to the null identity.
    ZeroSender,
    /// Declared runtime spec version does not match the chain's.
    WrongSpecVersion,
    /// Declared transaction-format version does not match the chain's.
    WrongTxVersion,
    /// The genesis hash does not match this chain's.
    WrongGenesisHash,
    /// The current block height lies outside the transaction's validity
    /// window.
    OutsideEra,
    /// The nonce is below the sender's expected next nonce.
    StaleNonce,
    /// The nonce is above the sender's expected next nonce.
    FutureNonce,
    /// The declared weight exceeds the remaining block weight budget.
    WeightExceeded,
    /// The sender cannot pay the computed fee.
    InsufficientBalance,
}

/// The fee before saturation: flat length fee, plus declared weight priced
/// per unit, plus the tip.
pub open spec fn raw_fee(tx: Transaction, fees: FeeParams) -> int {
    fees.length_fee + tx.weight * fees.weight_fee + tx.tip
}

/// The fee actually charged: the raw fee, saturated at the balance type's
/// maximum.
pub open spec fn spec_fee(tx: Transaction, fees: FeeParams) -> u64 {
    if raw_fee(tx, fees) > u64::MAX {
        u64::MAX
    } else {
        raw_fee(tx, fees) as u64
    }
}

/// The whole pipeline, steps one to nine, in its fixed order. A rejection
/// at any step short-circuits the rest; success yields the computed fee,
/// which the fee-charge step deducts and the commit path consumes.
pub open spec fn spec_check_tx(
    tx: Transaction,
    env: ChainEnv,
    expected_nonce: u64,
    remaining_weight: u64,
    acct: Account,
    fees: FeeParams,
) -> Result<u64, Reject> {
    if !tx.call_authorized {
        Err(Reject::UnauthorizedCall)
    } else if tx.sender == 0 {
        Err(Reject::ZeroSender)
    } else if tx.spec_version != env.spec_version {
        Err(Reject::WrongSpecVersion)
    } else if tx.tx_version != env.tx_version {
        Err(Reject::WrongTxVersion)
    } else if tx.genesis_hash != env.genesis_hash {
        Err(Reject::WrongGenesisHash)
    } else if !(tx.era_start <= env.block_height && env.block_height <= tx.era_end) {
        Err(Reject::OutsideEra)
    } else if tx.nonce < expected_nonce {
        Err(Reject::StaleNonce)
    } else if tx.nonce > expected_nonce {
        Err(Reject::FutureNonce)
    } else if tx.weight > remaining_weight {
        Err(Reject::WeightExceeded)
    } else if acct.balance < spec_fee(tx, fees) {
        Err(Reject::InsufficientBalance)
    } else {
        Ok(spec_fee(tx, fees))
    }
}

/// The position (one-based) in the fixed order of the check a rejection
/// comes from. Both nonce rejections belong to the one nonce check.
pub open spec fn reject_step(r: Reject) -> int {
    match r {
        Reject::UnauthorizedCall => 1,
        Reject::ZeroSender => 2,
        Reject::WrongSpecVersion => 3,
        Reject::WrongTxVersion => 4,
        Reject::WrongGenesisHash => 5,
        Reject::OutsideEra => 6,
        Reject::StaleNonce => 7,
        Reject::FutureNonce => 7,
        Reject::WeightExceeded => 8,
        Reject::InsufficientBalance => 9,
    }
}

/// Whether the check at the given position passes, looked at in isolation.
pub open spec fn check_passes(
    step: int,
    tx: Transaction,
    env: ChainEnv,
    expected_nonce: u64,
    remaining_weight: u64,
    acct: Account,
    fees: FeeParams,
) -> bool {
    if step == 1 {
        tx.call_authorized
    } else if step == 2 {
        tx.sender != 0
    } else if step == 3 {
        tx.spec_version == env.spec_version
    } else if step == 4 {
        tx.tx_version == env.tx_version
    } else if step == 5 {
        tx.genesis_hash == env.genesis_hash
    } else if step == 6 {
        tx.era_start <= env.block_height && env.block_height <= tx.era_end
    } else if step == 7 {
        tx.nonce == expected_nonce
    } else if step == 8 {
        tx.weight <= remaining_weight
    } else if step == 9 {
        acct.balance >= spec_fee(tx, fees)
    } else {
        true
    }
}

/// The order of the checks is total and fixed: a rejection always names
/// the first failing check, and the pipeline succeeds exactly when every
/// check passes.
pub proof fn lemma_reject_is_first_failure(
    tx: Transaction,
    env: ChainEnv,
    expected_nonce: u64,
    remaining_weight: u64,
    acct: Account,
    fees: FeeParams,
)
    ensures
        spec_check_tx(tx, env, expected_nonce, remaining_weight, acct, fees) is Ok <==> (forall|
            k: int,
        |
            1 <= k <= 9 ==> check_passes(k, tx, env, expected_nonce, remaining_weight, acct, fees)),
        spec_check_tx(tx, env, expected_nonce, remaining_weight, acct, fees) matches Err(r) ==> {
            &&& !check_passes(reject_step(r), tx, env, expected_nonce, remaining_weight, acct, fees)
            &&& forall|k: int|
                1 <= k < reject_step(r) ==> check_passes(
                    k,
                    tx,
                    env,
                    expected_nonce,
                    remaining_weight,
                    acct,
                    fees,
                )
        },
{
    if forall|k: int|
        1 <= k <= 9 ==> check_passes(k, tx, env, expected_nonce, remaining_weight, acct, fees) {
        assert(check_passes(1, tx, env, expected_nonce, remaining_weight, acct, fees));
        assert(check_passes(2, tx, env, expected_nonce, remaining_weight, acct, fees));
        assert(check_passes(3, tx, env, expected_nonce, remaining_weight, acct, fees));
        assert(check_passes(4, tx, env, expected_nonce, remaining_weight, acct, fees));
        assert(check_passes(5, tx, env, expected_nonce, remaining_weight, acct, fees));
        assert(check_passes(6, tx, env, expected_nonce, remaining_weight, acct, fees));
        assert(check_passes(7, tx, env, expected_nonce, remaining_weight, acct, fees));
        assert(check_passes(8, tx, env, expected_nonce, remaining_weight, acct, fees));
        assert(check_passes(9, tx, env, expected_nonce, remaining_weight, acct, fees));
    }
}

/// Computes the fee that the fee-charge step deducts, saturating at the
/// balance type's maximum.
pub fn compute_fee(tx: &Transaction, fees: &FeeParams) -> (fee: u64)
    ensures
        fee == spec_fee(*tx, *fees),
{
    proof {
        assert(tx.weight * fees.weight_fee <= 0xFFFF_FFFF_FFFF_FFFFu64 * 0xFFFF_FFFF_FFFF_FFFFu64)
            by (nonlinear_arith)
            requires
                tx.weight <= 0xFFFF_FFFF_FFFF_FFFFu64,
                fees.weight_fee <= 0xFFFF_FFFF_FFFF_FFFFu64,
        ;
    }
    let product: u128 = (tx.weight as u128) * (fees.weight_fee as u128);
    let total: u128 = (fees.length_fee as u128) + product + (tx.tip as u128);
    if total > u64::MAX as u128 {
        u64::MAX
    } else {
        total as u64
    }
}

/// Runs the pipeline's checks, steps one to nine, in their fixed order.
pub fn check_transaction(
    tx: &Transaction,
    env: &ChainEnv,
    expected_nonce: u64,
    remaining_weight: u64,
    acct: &Account,
    fees: &FeeParams,
) -> (r: Result<u64, Reject>)
    ensures
        r == spec_check_tx(*tx, *env, expected_nonce, remaining_weight, *acct, *fees),
{
    if !tx.call_authorized {
        return Err(Reject::UnauthorizedCall);
    }
    if tx.sender == 0 {
        return Err(Reject::ZeroSender);
    }
    if tx.spec_version != env.spec_version {
        return Err(Reject::WrongSpecVersion);
    }
    if tx.tx_version != env.tx_version {
        return Err(Reject::WrongTxVersion);
    }
    if tx.genesis_hash != env.genesis_hash {
        return Err(Reject::WrongGenesisHash);
    }
    if !(tx.era_start <= env.block_height && env.block_height <= tx.era_end) {
        return Err(Reject::OutsideEra);
    }
    if tx.nonce < expected_nonce {
        return Err(Reject::StaleNonce);
    }
    if tx.nonce > expected_nonce {
        return Err(Reject::FutureNonce);
    }
    if tx.weight > remaining_weight {
        return Err(Reject::WeightExceeded);
    }
    let fee = compute_fee(tx, fees);
    if acct.balance < fee {
        return Err(Reject::InsufficientBalance);
    }
    Ok(fee)
}

/// The account after a transaction of the given fee is included: the nonce
/// advances (saturating at the type's maximum) and the fee is deducted.
pub open spec fn spec_apply_tx(fee: u64, acct: Account) -> Account {
    Account {
        nonce: if acct.nonce == u64::MAX {
            u64::MAX
        } else {
            (acct.nonce + 1) as u64
        },
        balance: (acct.balance - fee) as u64,
    }
}

/// The fee-charge step's commit: deducts the fee and advances the nonce.
pub fn apply_transaction(acct: &Account, fee: u64) -> (r: Account)
    requires
        fee <= acct.balance,
    ensures
        r == spec_apply_tx(fee, *acct),
{
    let nonce: u64 = if acct.nonce == u64::MAX {
        u64::MAX
    } else {
        acct.nonce + 1
    };
    Account { nonce, balance: acct.balance - fee }
}

/// The block's remaining weight after the reclaim step: `remaining` is the
/// budget left after the declared weight was charged, and the dispatch's
/// over-estimate, if any, flows back.
pub open spec fn spec_reclaim(remaining: u64, declared: u64, actual: u64) -> int {
    if actual < declared {
        remaining + (declared - actual)
    } else {
        remaining as int
    }
}

/// The last step of the pipeline, run after dispatch so that it observes
/// the true post-dispatch weight: reconciles any weight over-estimate back
/// into the block's remaining capacity.
pub fn reclaim_weight(remaining: u64, declared: u64, actual: u64) -> (r: u64)
    requires
        remaining + declared <= u64::MAX,
    ensures
        r == spec_reclaim(remaining, declared, actual),
{
    if actual < declared {
        remaining + (declared - actual)
    } else {
        remaining
    }
}

/// A transaction with a stale nonce is rejected at the nonce check and
/// never reaches the fee charge: the outcome is the same whatever the
/// weight budget and whatever the sender's balance, and it is never the
/// fee-charge rejection.
pub proof fn lemma_stale_nonce_never_reaches_fee_charge(
    tx: Transaction,
    env: ChainEnv,
    expected_nonce: u64,
    rw1: u64,
    rw2: u64,
    a1: Account,
    a2: Account,
    fees: FeeParams,
)
    requires
        tx.nonce < expected_nonce,
    ensures
        spec_check_tx(tx, env, expected_nonce, rw1, a1, fees) == spec_check_tx(
            tx,
            env,
            expected_nonce,
            rw2,
            a2,
            fees,
        ),
        spec_check_tx(tx, env, expected_nonce, rw1, a1, fees) is Err,
        spec_check_tx(tx, env, expected_nonce, rw1, a1, fees) != Err::<u64, Reject>(
            Reject::InsufficientBalance,
        ),
        spec_check_tx(tx, env, expected_nonce, rw1, a1, fees) != Err::<u64, Reject>(
            Reject::WeightExceeded,
        ),
{
}

/// A transaction whose sender cannot pay is rejected at the fee charge
/// even though every earlier check passed.
pub proof fn lemma_insufficient_balance_rejected_at_fee_charge(
    tx: Transaction,
    env: ChainEnv,
    expected_nonce: u64,
    remaining_weight: u64,
    acct: Account,
    fees: FeeParams,
)
    requires
        forall|k: int|
            1 <= k <= 8 ==> check_passes(k, tx, env, expected_nonce, remaining_weight, acct, fees),
        acct.balance < spec_fee(tx, fees),
    ensures
        spec_check_tx(tx, env, expected_nonce, remaining_weight, acct, fees) == Err::<u64, Reject>(
            Reject::InsufficientBalance,
        ),
{
    assert(check_passes(1, tx, env, expected_nonce, remaining_weight, acct, fees));
    assert(check_passes(2, tx, env, expected_nonce, remaining_weight, acct, fees));
    assert(check_passes(3, tx, env, expected_nonce, remaining_weight, acct, fees));
    assert(check_passes(4, tx, env, expected_nonce, remaining_weight, acct, fees));
    assert(check_passes(5, tx, env, expected_nonce, remaining_weight, acct, fees));
    assert(check_passes(6, tx, env, expected_nonce, remaining_weight, acct, fees));
    assert(check_passes(7, tx, env, expected_nonce, remaining_weight, acct, fees));
    assert(check_passes(8, tx, env, expected_nonce, remaining_weight, acct, fees));
}

/// Re-submitting an included transaction's identical payload is rejected
/// as a stale nonce, whatever the weight budget then is, and is in
/// particular never charged a second fee.
pub proof fn lemma_resubmission_after_inclusion_is_stale(
    tx: Transaction,
    env: ChainEnv,
    remaining_weight: u64,
    rw2: u64,
    acct: Account,
    fees: FeeParams,
    fee: u64,
)
    requires
        spec_check_tx(tx, env, acct.nonce, remaining_weight, acct, fees) == Ok::<u64, Reject>(fee),
        acct.nonce < u64::MAX,
    ensures
        spec_check_tx(
            tx,
            env,
            spec_apply_tx(fee, acct).nonce,
            rw2,
            spec_apply_tx(fee, acct),
            fees,
        ) == Err::<u64, Reject>(Reject::StaleNonce),
{
}

} // verus!
