use vstd::prelude::*;

use crate::error::ContractError;

verus! {

/// Shares minted for a deposit of `deposit` when the share supply is `supply`
/// and the pool balance, measured after the deposit has already landed, is
/// `balance`. The first depositor sets a one-to-one baseline; later deposits
/// dilute the supply in proportion to their share of the post-deposit pool.
pub open spec fn mint_amount_spec(supply: int, balance: int, deposit: int) -> int {
    if supply == 0 {
        deposit
    } else {
        (supply * deposit) / (balance - deposit)
    }
}

/// Assets returned for burning `shares` claim tokens out of a supply of
/// `supply` against a pool balance of `balance`.
pub open spec fn redeem_amount_spec(supply: int, balance: int, shares: int) -> int {
    (balance * shares) / (supply - shares)
}

/// Quantity of shares to mint for a deposit.
///
/// `pool_balance` is observed after the deposit has landed in the pool, so
/// the pre-deposit balance is `pool_balance - deposit_amount`; the division
/// fails rather than underflowing or dividing by zero.
pub fn compute_mint_amount(total_share_supply: u128, pool_balance: u128, deposit_amount: u128)
    -> (r: Result<u128, ContractError>)
    requires
        total_share_supply * deposit_amount <= u128::MAX,
    ensures
        total_share_supply == 0 ==> r == Ok::<u128, ContractError>(deposit_amount),
        total_share_supply != 0 && deposit_amount < pool_balance ==> (r matches Ok(m)
            && m == mint_amount_spec(
                total_share_supply as int,
                pool_balance as int,
                deposit_amount as int,
            )),
        total_share_supply != 0 && deposit_amount >= pool_balance ==> r == Err::<
            u128,
            ContractError,
        >(ContractError::Arithmetic),
{
    if total_share_supply == 0 {
        Ok(deposit_amount)
    } else if deposit_amount < pool_balance {
        let divisor = pool_balance - deposit_amount;
        let product = total_share_supply * deposit_amount;
        Ok(product / divisor)
    } else {
        Err(ContractError::Arithmetic)
    }
}

/// Quantity of the supported asset to return for burning `shares_burned`
/// shares. Fails rather than dividing by zero (all shares burned) or
/// underflowing (more shares than the supply).
pub fn compute_redeem_amount(total_share_supply: u128, pool_balance: u128, shares_burned: u128)
    -> (r: Result<u128, ContractError>)
    requires
        pool_balance * shares_burned <= u128::MAX,
    ensures
        shares_burned < total_share_supply ==> (r matches Ok(a)
            && a == redeem_amount_spec(
                total_share_supply as int,
                pool_balance as int,
                shares_burned as int,
            )),
        shares_burned >= total_share_supply ==> r == Err::<u128, ContractError>(
            ContractError::Arithmetic,
        ),
{
    if shares_burned < total_share_supply {
        let divisor = total_share_supply - shares_burned;
        let product = pool_balance * shares_burned;
        Ok(product / divisor)
    } else {
        Err(ContractError::Arithmetic)
    }
}

/// Proportionality of minting: with supply `s` and post-deposit pool
/// balance `b`, the `m` shares minted for a deposit of `d` give the
/// depositor the fraction `d / b` of the pool, up to one rounding step:
/// `m / (s + m)` is at most `d / b` and exceeds it by less than `1 / (s+m)`,
/// stated integrally as `b * m <= d * (s + m) < b * (m + 1)`.
pub proof fn lemma_mint_proportionality(s: int, b: int, d: int)
    requires
        1 <= s,
        1 <= d,
        d < b,
    ensures
        b * mint_amount_spec(s, b, d) <= d * (s + mint_amount_spec(s, b, d)),
        d * (s + mint_amount_spec(s, b, d)) < b * (mint_amount_spec(s, b, d) + 1),
{
    let m = (s * d) / (b - d);
    let r = (s * d) % (b - d);
    vstd::arithmetic::div_mod::lemma_fundamental_div_mod(s * d, b - d);
    vstd::arithmetic::div_mod::lemma_mod_division_less_than_divisor(s * d, b - d);
    // s * d == (b - d) * m + r, 0 <= r < b - d
    assert(b * m == (b - d) * m + d * m) by (nonlinear_arith);
    assert((b - d) * m == s * d - r);
    assert(b * m <= d * s + d * m);
    assert(d * (s + m) == d * s + d * m) by (nonlinear_arith);
    assert((m + 1) * (b - d) == (b - d) * m + (b - d)) by (nonlinear_arith);
    assert(s * d < (m + 1) * (b - d));
    assert(b * (m + 1) == (m + 1) * (b - d) + d * m + d) by (nonlinear_arith);
    assert(d * (s + m) < b * (m + 1));
}

/// Round trip of the accounting engine: with share supply `s` and pre-deposit
/// pool balance `b0`, depositing `d` mints `m = (s * d) / b0` shares, and
/// burning those `m` shares right away (no external balance change) returns
/// at most `d`.
///
/// The bound holds exactly when `d * m <= s - 1 + (s * d) % b0`; larger
/// deposits can redeem for more than they put in, because the redemption
/// divisor `supply - shares` undercounts the remaining holders.
pub proof fn lemma_deposit_redeem_round_trip(s: int, b0: int, d: int)
    requires
        1 <= s,
        1 <= b0,
        1 <= d,
        d * ((s * d) / b0) <= s - 1 + (s * d) % b0,
    ensures
        mint_amount_spec(s, b0 + d, d) == (s * d) / b0,
        redeem_amount_spec(
            s + (s * d) / b0,
            b0 + d,
            (s * d) / b0,
        ) <= d,
{
    let m = (s * d) / b0;
    let r = (s * d) % b0;
    assert(1 <= s * d) by (nonlinear_arith)
        requires 1 <= s && 1 <= d;
    vstd::arithmetic::div_mod::lemma_fundamental_div_mod(s * d, b0);
    vstd::arithmetic::div_mod::lemma_mod_division_less_than_divisor(s * d, b0);
    vstd::arithmetic::div_mod::lemma_div_pos_is_pos(s * d, b0);
    // s * d == b0 * m + r, 0 <= r < b0, 0 <= m
    assert((b0 + d) * m == b0 * m + d * m) by (nonlinear_arith);
    assert(b0 * m == s * d - r);
    assert((b0 + d) * m <= s * d + s - 1 - r + r);
    assert(s * d + s == s * (d + 1)) by (nonlinear_arith);
    assert((b0 + d) * m < s * (d + 1));
    vstd::arithmetic::div_mod::lemma_multiply_divide_lt((b0 + d) * m, s, d + 1);
    assert(((b0 + d) * m) / s < d + 1);
    assert(redeem_amount_spec(s + m, b0 + d, m) == ((b0 + d) * m) / s);
}

} // verus!
