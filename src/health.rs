//! The health factor: the fixed-point ratio of risk-adjusted collateral value
//! to outstanding debt, priced with the quotes fetched for the operation.
//!
//! `quotes` holds one entry per registry index, the quote read from that
//! index's price feed, or `None` where no quote is available.
use vstd::prelude::*;
use crate::registry::{find_key, index_of};
use crate::types::{AccountKey, Collateral, DscError, DscState};
use crate::{ADDITIONAL_FEED_PRECISION, LIQUIDATION_PRECISION, LIQUIDATION_THRESHOLD, PRECISION};

verus! {

/// The quote for `token`: its registry index picks its entry in `quotes`.
pub open spec fn quote_of(tokens: Seq<AccountKey>, quotes: Seq<Option<u64>>, token: AccountKey) -> Result<
    u64,
    DscError,
> {
    match index_of(tokens, token) {
        None => Err(DscError::NotAllowedToken),
        Some(i) => if i < quotes.len() && quotes[i] is Some {
            Ok(quotes[i]->0)
        } else {
            Err(DscError::PriceUnavailable)
        },
    }
}

/// The value of `amount` units at `price`, in the fixed-point domain.
pub open spec fn usd_value(price: nat, amount: nat) -> nat {
    price * (ADDITIONAL_FEED_PRECISION as nat) * amount / (PRECISION as nat)
}

/// The value of one holding, or an overflow where the product leaves 128 bits
/// or the value leaves 64 bits.
pub open spec fn holding_value(price: u64, amount: u64) -> Result<u64, DscError> {
    if price * ADDITIONAL_FEED_PRECISION * amount > u128::MAX || usd_value(price as nat, amount as nat)
        > u64::MAX {
        Err(DscError::ArithmeticOverflow)
    } else {
        Ok(usd_value(price as nat, amount as nat) as u64)
    }
}

/// The total value of the first `n` holdings, summed in order; the first
/// failure among them decides the error.
pub open spec fn collateral_value(
    tokens: Seq<AccountKey>,
    quotes: Seq<Option<u64>>,
    cs: Seq<Collateral>,
    n: int,
) -> Result<u64, DscError>
    decreases n,
{
    if n <= 0 {
        Ok(0)
    } else {
        match collateral_value(tokens, quotes, cs, n - 1) {
            Err(e) => Err(e),
            Ok(s) => match quote_of(tokens, quotes, cs[n - 1].token) {
                Err(e) => Err(e),
                Ok(p) => match holding_value(p, cs[n - 1].amount) {
                    Err(e) => Err(e),
                    Ok(v) => if s + v > u64::MAX {
                        Err(DscError::ArithmeticOverflow)
                    } else {
                        Ok((s + v) as u64)
                    },
                },
            },
        }
    }
}

/// The total value of all holdings.
pub open spec fn total_value(tokens: Seq<AccountKey>, quotes: Seq<Option<u64>>, cs: Seq<Collateral>) -> Result<
    u64,
    DscError,
> {
    collateral_value(tokens, quotes, cs, cs.len() as int)
}

/// The collateral value after the liquidation threshold's discount.
pub open spec fn adjusted(c: nat) -> nat {
    c * (LIQUIDATION_THRESHOLD as nat) / (LIQUIDATION_PRECISION as nat)
}

/// The health factor of collateral value `c` against debt `debt`.
pub open spec fn ratio(c: nat, debt: nat) -> nat {
    if debt == 0 {
        u128::MAX as nat
    } else {
        adjusted(c) * (PRECISION as nat) / debt
    }
}

/// The health factor of a position: the largest value where there is no debt,
/// else the adjusted collateral value over the debt, in fixed point.
pub open spec fn health_factor(
    tokens: Seq<AccountKey>,
    quotes: Seq<Option<u64>>,
    debt: u64,
    cs: Seq<Collateral>,
) -> Result<u128, DscError> {
    if debt == 0 {
        Ok(u128::MAX)
    } else {
        match total_value(tokens, quotes, cs) {
            Err(e) => Err(e),
            Ok(c) => Ok(ratio(c as nat, debt as nat) as u128),
        }
    }
}

/// Resolves the quote for `token` through the registry.
pub fn price_of(state: &DscState, quotes: &Vec<Option<u64>>, token: AccountKey) -> (r: Result<
    u64,
    DscError,
>)
    ensures
        r == quote_of(state.collateral_tokens@, quotes@, token),
{
    match find_key(&state.collateral_tokens, token) {
        None => Err(DscError::NotAllowedToken),
        Some(i) => {
            if i < quotes.len() {
                match quotes[i] {
                    Some(p) => Ok(p),
                    None => Err(DscError::PriceUnavailable),
                }
            } else {
                Err(DscError::PriceUnavailable)
            }
        },
    }
}

/// The value of `amount` units at `price`, with overflow checked.
pub fn value_of_holding(price: u64, amount: u64) -> (r: Result<u64, DscError>)
    ensures
        r == holding_value(price, amount),
{
    assert(price * ADDITIONAL_FEED_PRECISION <= u64::MAX * 1_000_000_000) by (nonlinear_arith)
        requires
            price <= u64::MAX,
    ;
    let scaled: u128 = (price as u128) * (ADDITIONAL_FEED_PRECISION as u128);
    match scaled.checked_mul(amount as u128) {
        None => Err(DscError::ArithmeticOverflow),
        Some(prod) => {
            let v: u128 = prod / (PRECISION as u128);
            if v > u64::MAX as u128 {
                Err(DscError::ArithmeticOverflow)
            } else {
                Ok(v as u64)
            }
        },
    }
}

/// Once a prefix of the holdings fails to sum, every longer prefix fails with
/// the same error.
pub proof fn lemma_collateral_value_err_stable(
    tokens: Seq<AccountKey>,
    quotes: Seq<Option<u64>>,
    cs: Seq<Collateral>,
    m: int,
    n: int,
)
    requires
        0 <= m <= n,
        collateral_value(tokens, quotes, cs, m) is Err,
    ensures
        collateral_value(tokens, quotes, cs, n) == collateral_value(tokens, quotes, cs, m),
    decreases n - m,
{
    if m < n {
        lemma_collateral_value_err_stable(tokens, quotes, cs, m, n - 1);
    }
}

/// The total value of `cs`, priced through the registry and `quotes`.
pub fn collateral_value_of(state: &DscState, quotes: &Vec<Option<u64>>, cs: &Vec<Collateral>) -> (r:
    Result<u64, DscError>)
    ensures
        r == total_value(state.collateral_tokens@, quotes@, cs@),
{
    let mut sum: u64 = 0;
    let mut i: usize = 0;
    while i < cs.len()
        invariant
            i <= cs.len(),
            collateral_value(state.collateral_tokens@, quotes@, cs@, i as int) == Ok::<u64, DscError>(sum),
        decreases cs.len() - i,
    {
        let c = cs[i];
        let ghost tokens = state.collateral_tokens@;
        let ghost len = cs@.len() as int;
        let p = match price_of(state, quotes, c.token) {
            Ok(p) => p,
            Err(e) => {
                proof {
                    lemma_collateral_value_err_stable(tokens, quotes@, cs@, i + 1, len);
                }
                return Err(e);
            },
        };
        let v = match value_of_holding(p, c.amount) {
            Ok(v) => v,
            Err(e) => {
                proof {
                    lemma_collateral_value_err_stable(tokens, quotes@, cs@, i + 1, len);
                }
                return Err(e);
            },
        };
        match sum.checked_add(v) {
            Some(t) => {
                sum = t;
            },
            None => {
                proof {
                    lemma_collateral_value_err_stable(tokens, quotes@, cs@, i + 1, len);
                }
                return Err(DscError::ArithmeticOverflow);
            },
        }
        i = i + 1;
    }
    Ok(sum)
}

/// The health factor of collateral value `c` against a debt `debt`.
pub fn ratio_of(c: u64, debt: u64) -> (r: u128)
    ensures
        r as nat == ratio(c as nat, debt as nat),
{
    if debt == 0 {
        return u128::MAX;
    }
    assert(c * LIQUIDATION_THRESHOLD <= u64::MAX * 50 && c * LIQUIDATION_THRESHOLD / 100 <= c)
        by (nonlinear_arith)
        requires
            c <= u64::MAX,
            LIQUIDATION_THRESHOLD == 50,
    ;
    let adj: u128 = (c as u128) * (LIQUIDATION_THRESHOLD as u128) / (LIQUIDATION_PRECISION as u128);
    assert(adj * 1_000_000_000_000_000_000 <= u64::MAX * 1_000_000_000_000_000_000) by (nonlinear_arith)
        requires
            adj <= u64::MAX,
    ;
    adj * (PRECISION as u128) / (debt as u128)
}

/// The health factor of a position with debt `dsc_minted` and holdings
/// `collateral`; a position without debt gets the largest value at once.
pub fn calculate_health_factor(
    state: &DscState,
    quotes: &Vec<Option<u64>>,
    dsc_minted: u64,
    collateral: &Vec<Collateral>,
) -> (r: Result<u128, DscError>)
    ensures
        r == health_factor(state.collateral_tokens@, quotes@, dsc_minted, collateral@),
        dsc_minted == 0 ==> r == Ok::<u128, DscError>(u128::MAX),
{
    if dsc_minted == 0 {
        return Ok(u128::MAX);
    }
    let c = collateral_value_of(state, quotes, collateral)?;
    Ok(ratio_of(c, dsc_minted))
}

/// The amount of collateral that `usd_amount` buys at `price`.
pub open spec fn token_amount(price: u64, usd_amount: u64) -> Result<u64, DscError> {
    if price == 0 {
        Err(DscError::PriceUnavailable)
    } else if usd_amount * PRECISION / (price * ADDITIONAL_FEED_PRECISION) > u64::MAX {
        Err(DscError::ArithmeticOverflow)
    } else {
        Ok((usd_amount * PRECISION / (price * ADDITIONAL_FEED_PRECISION)) as u64)
    }
}

/// Converts a value in the fixed-point domain into an amount of `token` at its
/// current quote. A zero quote cannot price anything and counts as no quote.
pub fn get_token_amount_from_usd(
    state: &DscState,
    quotes: &Vec<Option<u64>>,
    token: AccountKey,
    usd_amount: u64,
) -> (r: Result<u64, DscError>)
    ensures
        r == (match quote_of(state.collateral_tokens@, quotes@, token) {
            Err(e) => Err(e),
            Ok(p) => token_amount(p, usd_amount),
        }),
{
    let price = price_of(state, quotes, token)?;
    if price == 0 {
        return Err(DscError::PriceUnavailable);
    }
    assert(usd_amount * PRECISION <= u64::MAX * 1_000_000_000_000_000_000) by (nonlinear_arith)
        requires
            usd_amount <= u64::MAX,
    ;
    assert(price * ADDITIONAL_FEED_PRECISION <= u64::MAX * 1_000_000_000) by (nonlinear_arith)
        requires
            price <= u64::MAX,
    ;
    assert(price * ADDITIONAL_FEED_PRECISION >= 1) by (nonlinear_arith)
        requires
            price >= 1,
    ;
    let q: u128 = (usd_amount as u128) * (PRECISION as u128) / ((price as u128) * (
    ADDITIONAL_FEED_PRECISION as u128));
    if q > u64::MAX as u128 {
        Err(DscError::ArithmeticOverflow)
    } else {
        Ok(q as u64)
    }
}

} // verus!
