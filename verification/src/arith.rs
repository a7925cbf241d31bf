use crate::error::ErrorCode;
use vstd::prelude::*;

verus! {

/// The sum of two amounts, or `ArithmeticOverflow` when it does not fit in
/// 64 bits.
pub fn safe_add(a: u64, b: u64) -> (res: Result<u64, ErrorCode>)
    ensures
        res == if a + b <= u64::MAX {
            Ok::<u64, ErrorCode>((a + b) as u64)
        } else {
            Err::<u64, ErrorCode>(ErrorCode::ArithmeticOverflow)
        },
{
    match a.checked_add(b) {
        Some(sum) => Ok(sum),
        None => Err(ErrorCode::ArithmeticOverflow),
    }
}

/// The difference of two amounts, or `ArithmeticUnderflow` when it would be
/// negative.
pub fn safe_sub(a: u64, b: u64) -> (res: Result<u64, ErrorCode>)
    ensures
        res == if a >= b {
            Ok::<u64, ErrorCode>((a - b) as u64)
        } else {
            Err::<u64, ErrorCode>(ErrorCode::ArithmeticUnderflow)
        },
{
    match a.checked_sub(b) {
        Some(difference) => Ok(difference),
        None => Err(ErrorCode::ArithmeticUnderflow),
    }
}

/// What a stake of `amount` on the winning side is worth: the stake itself
/// when nothing was staked on that side, and otherwise the stake's share of
/// the whole pool, `amount * total_pool / winning_pool`, rounded down.
pub open spec fn share(amount: nat, total_pool: nat, winning_pool: nat) -> nat {
    if winning_pool == 0 {
        amount
    } else {
        (amount * total_pool) / winning_pool
    }
}

/// Rounding down never pays out more than the exact share.
pub proof fn lemma_share_rounds_down(amount: nat, total_pool: nat, winning_pool: nat)
    requires
        winning_pool > 0,
    ensures
        share(amount, total_pool, winning_pool) * winning_pool <= amount * total_pool,
        amount * total_pool < (share(amount, total_pool, winning_pool) + 1) * winning_pool,
{
    let product = amount * total_pool;
    assert(product == winning_pool * (product / winning_pool) + product % winning_pool
        && 0 <= product % winning_pool < winning_pool) by (nonlinear_arith)
        requires
            winning_pool > 0,
            product >= 0,
    ;
    assert((product / winning_pool + 1) * winning_pool == winning_pool * (product / winning_pool)
        + winning_pool) by (nonlinear_arith);
    assert((product / winning_pool) * winning_pool == winning_pool * (product / winning_pool))
        by (nonlinear_arith);
}

/// A stake that is no larger than the winning pool is worth no more than the
/// whole pool.
pub proof fn lemma_share_within_pool(amount: nat, total_pool: nat, winning_pool: nat)
    requires
        amount <= winning_pool,
    ensures
        share(amount, total_pool, winning_pool) <= if winning_pool == 0 {
            amount
        } else {
            total_pool
        },
{
    if winning_pool > 0 {
        assert((amount * total_pool) / winning_pool <= total_pool) by (nonlinear_arith)
            requires
                amount <= winning_pool,
                winning_pool > 0,
        ;
    }
}

/// The proportional share, computed in 128 bits so that the product cannot
/// overflow. Fails with `ArithmeticOverflow` when the share does not fit in
/// 64 bits.
pub fn proportional_share(amount: u64, total_pool: u64, winning_pool: u64) -> (res: Result<
    u64,
    ErrorCode,
>)
    ensures
        res == if share(amount as nat, total_pool as nat, winning_pool as nat) <= u64::MAX {
            Ok::<u64, ErrorCode>(
                share(amount as nat, total_pool as nat, winning_pool as nat) as u64,
            )
        } else {
            Err::<u64, ErrorCode>(ErrorCode::ArithmeticOverflow)
        },
{
    if winning_pool == 0 {
        return Ok(amount);
    }
    assert(amount * total_pool <= 0xffff_ffff_ffff_ffff * 0xffff_ffff_ffff_ffff)
        by (nonlinear_arith)
        requires
            amount <= 0xffff_ffff_ffff_ffff,
            total_pool <= 0xffff_ffff_ffff_ffff,
    ;
    let product: u128 = (amount as u128) * (total_pool as u128);
    let quotient: u128 = product / (winning_pool as u128);
    if quotient > u64::MAX as u128 {
        Err(ErrorCode::ArithmeticOverflow)
    } else {
        Ok(quotient as u64)
    }
}

} // verus!
