//! Properties that hold of the operations for every input: solvency after
//! each commit, conservation, monotonicity of the health factor, the
//! liquidation boundary, and rejection of unapproved assets.
use vstd::prelude::*;
use vstd::arithmetic::div_mod::{lemma_div_is_ordered, lemma_div_is_ordered_by_denominator};
use vstd::arithmetic::mul::lemma_mul_inequality;
use crate::health::{
    adjusted, collateral_value, health_factor, holding_value, quote_of, ratio, token_amount, total_value,
    usd_value,
};
use crate::ops::{
    burn_result, credit, debit, deposit_result, holdings_wf, liquidate_result, mint_result,
    redeem_result, seizure,
};
use crate::registry::{
    holding_of, index_of, lemma_holding_in, lemma_holding_in_same_tokens,
};
use crate::types::{AccountKey, Collateral, DscError};
use crate::{ADDITIONAL_FEED_PRECISION, MIN_HEALTH_FACTOR, PRECISION};

verus! {

/// The health factor of a 64-bit collateral value never exceeds the largest
/// 128-bit value.
pub proof fn lemma_ratio_bounded(c: nat, d: nat)
    requires
        c <= u64::MAX,
    ensures
        ratio(c, d) <= u128::MAX,
        d > 0 ==> ratio(c, d) <= adjusted(c) * (PRECISION as nat),
{
    if d > 0 {
        assert(adjusted(c) <= c);
        let a = adjusted(c) * (PRECISION as nat);
        lemma_div_is_ordered_by_denominator(a as int, 1, d as int);
        assert(a <= u64::MAX * 1_000_000_000_000_000_000) by (nonlinear_arith)
            requires
                a == adjusted(c) * 1_000_000_000_000_000_000,
                adjusted(c) <= u64::MAX,
        ;
    }
}

/// More debt against the same collateral never gives a larger health factor.
pub proof fn lemma_ratio_antitone_in_debt(c: nat, d1: nat, d2: nat)
    requires
        c <= u64::MAX,
        d1 <= d2,
    ensures
        ratio(c, d2) <= ratio(c, d1),
{
    lemma_ratio_bounded(c, d2);
    if d1 > 0 {
        lemma_div_is_ordered_by_denominator((adjusted(c) * (PRECISION as nat)) as int, d1 as int, d2 as int);
    }
}

/// More collateral against the same debt never gives a smaller health factor.
pub proof fn lemma_ratio_monotone_in_collateral(c1: nat, c2: nat, d: nat)
    requires
        c1 <= c2,
    ensures
        ratio(c1, d) <= ratio(c2, d),
{
    if d > 0 {
        lemma_mul_inequality(c1 as int, c2 as int, 50);
        lemma_div_is_ordered((c1 * 50) as int, (c2 * 50) as int, 100);
        lemma_mul_inequality(adjusted(c1) as int, adjusted(c2) as int, PRECISION as int);
        lemma_div_is_ordered(
            (adjusted(c1) * (PRECISION as nat)) as int,
            (adjusted(c2) * (PRECISION as nat)) as int,
            d as int,
        );
    }
}

/// A committed deposit leaves the position with a health factor of at least 1.0.
pub proof fn law_deposit_keeps_solvency(
    tokens: Seq<AccountKey>,
    quotes: Seq<Option<u64>>,
    debt: u64,
    cs: Seq<Collateral>,
    token: AccountKey,
    amount: u64,
)
    requires
        deposit_result(tokens, quotes, debt, cs, token, amount) is Ok,
    ensures
        health_factor(tokens, quotes, debt, deposit_result(tokens, quotes, debt, cs, token, amount)->Ok_0) is Ok,
        health_factor(tokens, quotes, debt, deposit_result(tokens, quotes, debt, cs, token, amount)->Ok_0)->Ok_0
            >= MIN_HEALTH_FACTOR,
{
}

/// A committed mint leaves the position with a health factor of at least 1.0.
pub proof fn law_mint_keeps_solvency(
    tokens: Seq<AccountKey>,
    quotes: Seq<Option<u64>>,
    debt: u64,
    cs: Seq<Collateral>,
    amount: u64,
)
    requires
        mint_result(tokens, quotes, debt, cs, amount) is Ok,
    ensures
        health_factor(tokens, quotes, mint_result(tokens, quotes, debt, cs, amount)->Ok_0, cs) is Ok,
        health_factor(tokens, quotes, mint_result(tokens, quotes, debt, cs, amount)->Ok_0, cs)->Ok_0
            >= MIN_HEALTH_FACTOR,
{
}

/// A committed redemption leaves the position with a health factor of at
/// least 1.0.
pub proof fn law_redeem_keeps_solvency(
    tokens: Seq<AccountKey>,
    quotes: Seq<Option<u64>>,
    debt: u64,
    cs: Seq<Collateral>,
    token: AccountKey,
    amount: u64,
)
    requires
        redeem_result(tokens, quotes, debt, cs, token, amount) is Ok,
    ensures
        health_factor(tokens, quotes, debt, redeem_result(tokens, quotes, debt, cs, token, amount)->Ok_0) is Ok,
        health_factor(tokens, quotes, debt, redeem_result(tokens, quotes, debt, cs, token, amount)->Ok_0)->Ok_0
            >= MIN_HEALTH_FACTOR,
{
}

/// Burning never lowers the health factor.
pub proof fn law_burn_never_lowers_health(
    tokens: Seq<AccountKey>,
    quotes: Seq<Option<u64>>,
    debt: u64,
    cs: Seq<Collateral>,
    amount: u64,
)
    requires
        burn_result(debt, amount) is Ok,
        health_factor(tokens, quotes, debt, cs) is Ok,
    ensures
        health_factor(tokens, quotes, burn_result(debt, amount)->Ok_0, cs) is Ok,
        health_factor(tokens, quotes, burn_result(debt, amount)->Ok_0, cs)->Ok_0 >= health_factor(
            tokens,
            quotes,
            debt,
            cs,
        )->Ok_0,
{
    let d = burn_result(debt, amount)->Ok_0;
    if d > 0 {
        let c = total_value(tokens, quotes, cs)->Ok_0;
        lemma_ratio_antitone_in_debt(c as nat, d as nat, debt as nat);
        lemma_ratio_bounded(c as nat, d as nat);
        lemma_ratio_bounded(c as nat, debt as nat);
    }
}

/// A committed burn on a solvent position leaves it solvent.
pub proof fn law_burn_keeps_solvency(
    tokens: Seq<AccountKey>,
    quotes: Seq<Option<u64>>,
    debt: u64,
    cs: Seq<Collateral>,
    amount: u64,
)
    requires
        burn_result(debt, amount) is Ok,
        health_factor(tokens, quotes, debt, cs) is Ok,
        health_factor(tokens, quotes, debt, cs)->Ok_0 >= MIN_HEALTH_FACTOR,
    ensures
        health_factor(tokens, quotes, burn_result(debt, amount)->Ok_0, cs) is Ok,
        health_factor(tokens, quotes, burn_result(debt, amount)->Ok_0, cs)->Ok_0 >= MIN_HEALTH_FACTOR,
{
    law_burn_never_lowers_health(tokens, quotes, debt, cs, amount);
}

/// Minting never raises the health factor.
pub proof fn law_mint_never_raises_health(
    tokens: Seq<AccountKey>,
    quotes: Seq<Option<u64>>,
    debt: u64,
    cs: Seq<Collateral>,
    amount: u64,
)
    requires
        mint_result(tokens, quotes, debt, cs, amount) is Ok,
    ensures
        health_factor(tokens, quotes, debt, cs) is Ok,
        health_factor(tokens, quotes, mint_result(tokens, quotes, debt, cs, amount)->Ok_0, cs)->Ok_0
            <= health_factor(tokens, quotes, debt, cs)->Ok_0,
{
    let d = mint_result(tokens, quotes, debt, cs, amount)->Ok_0;
    let c = total_value(tokens, quotes, cs)->Ok_0;
    lemma_ratio_antitone_in_debt(c as nat, debt as nat, d as nat);
    lemma_ratio_bounded(c as nat, d as nat);
    lemma_ratio_bounded(c as nat, debt as nat);
}

/// A larger amount is never worth less at the same price.
pub proof fn lemma_usd_value_monotone(price: nat, a1: nat, a2: nat)
    requires
        a1 <= a2,
    ensures
        price * (ADDITIONAL_FEED_PRECISION as nat) * a1 <= price * (ADDITIONAL_FEED_PRECISION as nat) * a2,
        usd_value(price, a1) <= usd_value(price, a2),
{
    let k = price * (ADDITIONAL_FEED_PRECISION as nat);
    lemma_mul_inequality(a1 as int, a2 as int, k as int);
    assert(k * a1 == a1 * k && k * a2 == a2 * k) by (nonlinear_arith);
    lemma_div_is_ordered((k * a1) as int, (k * a2) as int, PRECISION as int);
}

/// The value of a prefix of holdings depends on that prefix alone.
pub proof fn lemma_value_of_equal_prefix(
    tokens: Seq<AccountKey>,
    quotes: Seq<Option<u64>>,
    a: Seq<Collateral>,
    b: Seq<Collateral>,
    n: int,
)
    requires
        0 <= n <= a.len(),
        n <= b.len(),
        forall|j: int| 0 <= j < n ==> a[j] == b[j],
    ensures
        collateral_value(tokens, quotes, a, n) == collateral_value(tokens, quotes, b, n),
    decreases n,
{
    if n > 0 {
        lemma_value_of_equal_prefix(tokens, quotes, a, b, n - 1);
    }
}

/// Holdings with the same assets and no larger amounts, entry by entry, are
/// worth no more; and where the larger ones can be valued, so can they.
pub proof fn lemma_value_monotone(
    tokens: Seq<AccountKey>,
    quotes: Seq<Option<u64>>,
    lo: Seq<Collateral>,
    hi: Seq<Collateral>,
    n: int,
)
    requires
        0 <= n <= lo.len(),
        lo.len() == hi.len(),
        forall|j: int| 0 <= j < lo.len() ==> lo[j].token == hi[j].token && lo[j].amount <= hi[j].amount,
        collateral_value(tokens, quotes, hi, n) is Ok,
    ensures
        collateral_value(tokens, quotes, lo, n) is Ok,
        collateral_value(tokens, quotes, lo, n)->Ok_0 <= collateral_value(tokens, quotes, hi, n)->Ok_0,
    decreases n,
{
    if n > 0 {
        lemma_value_monotone(tokens, quotes, lo, hi, n - 1);
        let p = quote_of(tokens, quotes, hi[n - 1].token)->Ok_0;
        lemma_usd_value_monotone(p as nat, lo[n - 1].amount as nat, hi[n - 1].amount as nat);
        assert(holding_value(p, lo[n - 1].amount) is Ok);
    }
}

/// Depositing never lowers the health factor.
pub proof fn law_deposit_never_lowers_health(
    tokens: Seq<AccountKey>,
    quotes: Seq<Option<u64>>,
    debt: u64,
    cs: Seq<Collateral>,
    token: AccountKey,
    amount: u64,
)
    requires
        deposit_result(tokens, quotes, debt, cs, token, amount) is Ok,
    ensures
        health_factor(tokens, quotes, debt, cs) is Ok,
        health_factor(tokens, quotes, debt, deposit_result(tokens, quotes, debt, cs, token, amount)->Ok_0)->Ok_0
            >= health_factor(tokens, quotes, debt, cs)->Ok_0,
{
    let ncs = deposit_result(tokens, quotes, debt, cs, token, amount)->Ok_0;
    if debt > 0 {
        lemma_holding_in(cs, token, cs.len() as int);
        match holding_of(cs, token) {
            Some(i) => {
                assert(ncs == cs.update(i, Collateral { token, amount: (cs[i].amount + amount) as u64 }));
                lemma_value_monotone(tokens, quotes, cs, ncs, cs.len() as int);
            },
            None => {
                assert(ncs == cs.push(Collateral { token, amount }));
                let n = cs.len() as int;
                lemma_value_of_equal_prefix(tokens, quotes, cs, ncs, n);
                assert(collateral_value(tokens, quotes, ncs, n) is Ok);
            },
        }
        let c0 = total_value(tokens, quotes, cs)->Ok_0;
        let c1 = total_value(tokens, quotes, ncs)->Ok_0;
        lemma_ratio_monotone_in_collateral(c0 as nat, c1 as nat, debt as nat);
        lemma_ratio_bounded(c0 as nat, debt as nat);
        lemma_ratio_bounded(c1 as nat, debt as nat);
    }
}

/// Redeeming never raises the health factor.
pub proof fn law_redeem_never_raises_health(
    tokens: Seq<AccountKey>,
    quotes: Seq<Option<u64>>,
    debt: u64,
    cs: Seq<Collateral>,
    token: AccountKey,
    amount: u64,
)
    requires
        redeem_result(tokens, quotes, debt, cs, token, amount) is Ok,
        health_factor(tokens, quotes, debt, cs) is Ok,
    ensures
        health_factor(tokens, quotes, debt, redeem_result(tokens, quotes, debt, cs, token, amount)->Ok_0)->Ok_0
            <= health_factor(tokens, quotes, debt, cs)->Ok_0,
{
    let ncs = redeem_result(tokens, quotes, debt, cs, token, amount)->Ok_0;
    if debt > 0 {
        lemma_holding_in(cs, token, cs.len() as int);
        lemma_value_monotone(tokens, quotes, ncs, cs, cs.len() as int);
        let c0 = total_value(tokens, quotes, cs)->Ok_0;
        let c1 = total_value(tokens, quotes, ncs)->Ok_0;
        lemma_ratio_monotone_in_collateral(c1 as nat, c0 as nat, debt as nat);
        lemma_ratio_bounded(c0 as nat, debt as nat);
        lemma_ratio_bounded(c1 as nat, debt as nat);
    }
}

/// Deposits, redemptions and liquidations keep each asset in at most one
/// holding, and only approved assets among them.
pub proof fn law_operations_keep_holdings_wf(
    tokens: Seq<AccountKey>,
    quotes: Seq<Option<u64>>,
    debt: u64,
    cs: Seq<Collateral>,
    token: AccountKey,
    amount: u64,
)
    requires
        holdings_wf(tokens, cs),
    ensures
        deposit_result(tokens, quotes, debt, cs, token, amount) is Ok ==> holdings_wf(
            tokens,
            deposit_result(tokens, quotes, debt, cs, token, amount)->Ok_0,
        ),
        redeem_result(tokens, quotes, debt, cs, token, amount) is Ok ==> holdings_wf(
            tokens,
            redeem_result(tokens, quotes, debt, cs, token, amount)->Ok_0,
        ),
        liquidate_result(tokens, quotes, debt, cs, token, amount) is Ok ==> holdings_wf(
            tokens,
            liquidate_result(tokens, quotes, debt, cs, token, amount)->Ok_0.2,
        ),
{
    lemma_holding_in(cs, token, cs.len() as int);
    if deposit_result(tokens, quotes, debt, cs, token, amount) is Ok {
        let ncs = deposit_result(tokens, quotes, debt, cs, token, amount)->Ok_0;
        if holding_of(cs, token) is None {
            assert(ncs == cs.push(Collateral { token, amount }));
            assert(forall|j: int| 0 <= j < cs.len() ==> ncs[j] == cs[j]);
        }
        assert(holdings_wf(tokens, ncs));
    }
}

/// A committed liquidation starts below 1.0 and strictly raises the health
/// factor.
pub proof fn law_liquidation_improves_health(
    tokens: Seq<AccountKey>,
    quotes: Seq<Option<u64>>,
    debt: u64,
    cs: Seq<Collateral>,
    token: AccountKey,
    debt_to_cover: u64,
)
    requires
        liquidate_result(tokens, quotes, debt, cs, token, debt_to_cover) is Ok,
    ensures
        ({
            let (_, d, ncs) = liquidate_result(tokens, quotes, debt, cs, token, debt_to_cover)->Ok_0;
            &&& health_factor(tokens, quotes, debt, cs) is Ok
            &&& health_factor(tokens, quotes, d, ncs) is Ok
            &&& health_factor(tokens, quotes, debt, cs)->Ok_0 < MIN_HEALTH_FACTOR
            &&& health_factor(tokens, quotes, d, ncs)->Ok_0 > health_factor(tokens, quotes, debt, cs)->Ok_0
        }),
{
}

/// A liquidation seizes the covered debt's equivalent in the asset plus a
/// tenth of it as bonus; where the holding cannot cover that seizure, the
/// liquidation fails with `InsufficientCollateral` and takes nothing.
pub proof fn law_liquidation_boundary(
    tokens: Seq<AccountKey>,
    quotes: Seq<Option<u64>>,
    debt: u64,
    cs: Seq<Collateral>,
    token: AccountKey,
    debt_to_cover: u64,
)
    requires
        debt_to_cover > 0,
        health_factor(tokens, quotes, debt, cs) is Ok,
        health_factor(tokens, quotes, debt, cs)->Ok_0 < MIN_HEALTH_FACTOR,
        quote_of(tokens, quotes, token) is Ok,
        token_amount(quote_of(tokens, quotes, token)->Ok_0, debt_to_cover) is Ok,
    ensures
        ({
            let base = token_amount(quote_of(tokens, quotes, token)->Ok_0, debt_to_cover)->Ok_0;
            let seized = base + base / 10;
            &&& seized <= u64::MAX ==> seizure(tokens, quotes, token, debt_to_cover) == Ok::<u64, DscError>(
                seized as u64,
            )
            &&& liquidate_result(tokens, quotes, debt, cs, token, debt_to_cover) matches Ok((total, _, _))
                ==> total == seized
            &&& seized <= u64::MAX && holding_of(cs, token) is Some && cs[holding_of(cs, token)->0].amount
                < seized ==> liquidate_result(tokens, quotes, debt, cs, token, debt_to_cover) == Err::<
                (u64, u64, Seq<Collateral>),
                DscError,
            >(DscError::InsufficientCollateral)
        }),
{
}

/// Redeeming an amount of an asset and depositing it again restores the
/// holdings exactly.
pub proof fn law_redeem_then_deposit_restores(
    tokens: Seq<AccountKey>,
    quotes: Seq<Option<u64>>,
    debt: u64,
    cs: Seq<Collateral>,
    token: AccountKey,
    amount: u64,
)
    requires
        redeem_result(tokens, quotes, debt, cs, token, amount) is Ok,
        deposit_result(tokens, quotes, debt, redeem_result(tokens, quotes, debt, cs, token, amount)->Ok_0, token, amount) is Ok,
    ensures
        deposit_result(tokens, quotes, debt, redeem_result(tokens, quotes, debt, cs, token, amount)->Ok_0, token, amount)->Ok_0
            == cs,
{
    let mid = redeem_result(tokens, quotes, debt, cs, token, amount)->Ok_0;
    let i = holding_of(cs, token)->0;
    lemma_holding_in(cs, token, cs.len() as int);
    lemma_holding_in_same_tokens(cs, mid, token, cs.len() as int);
    assert(credit(mid, token, amount) == Ok::<Seq<Collateral>, DscError>(
        mid.update(i, Collateral { token, amount: cs[i].amount }),
    ));
    assert(mid.update(i, Collateral { token, amount: cs[i].amount }) =~= cs);
}

/// A deposit or a redemption of an asset that the registry does not approve
/// fails with `NotAllowedToken`.
pub proof fn law_unapproved_asset_rejected(
    tokens: Seq<AccountKey>,
    quotes: Seq<Option<u64>>,
    debt: u64,
    cs: Seq<Collateral>,
    token: AccountKey,
    amount: u64,
)
    requires
        amount > 0,
        index_of(tokens, token) is None,
        holdings_wf(tokens, cs),
    ensures
        deposit_result(tokens, quotes, debt, cs, token, amount) == Err::<Seq<Collateral>, DscError>(
            DscError::NotAllowedToken,
        ),
        redeem_result(tokens, quotes, debt, cs, token, amount) == Err::<Seq<Collateral>, DscError>(
            DscError::NotAllowedToken,
        ),
{
    lemma_holding_in(cs, token, cs.len() as int);
    assert(debit(cs, token, amount) == Err::<Seq<Collateral>, DscError>(DscError::NotAllowedToken));
}

} // verus!
