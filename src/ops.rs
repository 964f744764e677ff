//! The five operations on a position. Each one either commits in full and
//! returns the custody movements to carry out, or fails and leaves the
//! position exactly as it was.
use vstd::prelude::*;
use crate::health::{calculate_health_factor, get_token_amount_from_usd, health_factor, quote_of, token_amount};
use crate::registry::{find_holding, holding_of, index_of, lemma_holding_in};
use crate::types::{AccountKey, Collateral, CustodyAction, DscError, DscState, UserPosition};
use crate::{LIQUIDATION_BONUS, LIQUIDATION_PRECISION, MIN_HEALTH_FACTOR};

verus! {

/// Holdings name each asset at most once, and only approved assets.
pub open spec fn holdings_wf(tokens: Seq<AccountKey>, cs: Seq<Collateral>) -> bool {
    &&& forall|i: int, j: int| 0 <= i < j < cs.len() ==> cs[i].token != cs[j].token
    &&& forall|i: int| 0 <= i < cs.len() ==> index_of(tokens, cs[i].token) is Some
}

impl UserPosition {
    /// A fresh position of `user`, with no debt and no holdings.
    pub fn new(user: AccountKey) -> (r: UserPosition)
        ensures
            r.user == user,
            r.dsc_minted == 0,
            r.collateral@.len() == 0,
    {
        UserPosition { user, dsc_minted: 0, collateral: Vec::new() }
    }

    /// The holdings are consistent with the registry.
    pub open spec fn wf(&self, state: &DscState) -> bool {
        holdings_wf(state.collateral_tokens@, self.collateral@)
    }
}

/// The holdings after adding `amount` of `token`: the existing entry grows, or
/// a new entry is appended.
pub open spec fn credit(cs: Seq<Collateral>, token: AccountKey, amount: u64) -> Result<Seq<Collateral>, DscError> {
    match holding_of(cs, token) {
        Some(i) => if cs[i].amount + amount > u64::MAX {
            Err(DscError::ArithmeticOverflow)
        } else {
            Ok(cs.update(i, Collateral { token, amount: (cs[i].amount + amount) as u64 }))
        },
        None => Ok(cs.push(Collateral { token, amount })),
    }
}

/// The holdings after taking `amount` of `token` out of its entry.
pub open spec fn debit(cs: Seq<Collateral>, token: AccountKey, amount: u64) -> Result<Seq<Collateral>, DscError> {
    match holding_of(cs, token) {
        None => Err(DscError::NotAllowedToken),
        Some(i) => if cs[i].amount < amount {
            Err(DscError::InsufficientCollateral)
        } else {
            Ok(cs.update(i, Collateral { token, amount: (cs[i].amount - amount) as u64 }))
        },
    }
}

/// The solvency gate: the health factor can be computed and is at least 1.0.
pub open spec fn solvency(
    tokens: Seq<AccountKey>,
    quotes: Seq<Option<u64>>,
    debt: u64,
    cs: Seq<Collateral>,
) -> Result<(), DscError> {
    match health_factor(tokens, quotes, debt, cs) {
        Err(e) => Err(e),
        Ok(h) => if h < MIN_HEALTH_FACTOR {
            Err(DscError::BreaksHealthFactor)
        } else {
            Ok(())
        },
    }
}

/// The holdings after a deposit, or its error.
pub open spec fn deposit_result(
    tokens: Seq<AccountKey>,
    quotes: Seq<Option<u64>>,
    debt: u64,
    cs: Seq<Collateral>,
    token: AccountKey,
    amount: u64,
) -> Result<Seq<Collateral>, DscError> {
    if amount == 0 {
        Err(DscError::NeedMoreThanZero)
    } else if index_of(tokens, token) is None {
        Err(DscError::NotAllowedToken)
    } else {
        match credit(cs, token, amount) {
            Err(e) => Err(e),
            Ok(ncs) => match solvency(tokens, quotes, debt, ncs) {
                Err(e) => Err(e),
                Ok(_) => Ok(ncs),
            },
        }
    }
}

/// The debt after a mint, or its error.
pub open spec fn mint_result(
    tokens: Seq<AccountKey>,
    quotes: Seq<Option<u64>>,
    debt: u64,
    cs: Seq<Collateral>,
    amount: u64,
) -> Result<u64, DscError> {
    if amount == 0 {
        Err(DscError::NeedMoreThanZero)
    } else if debt + amount > u64::MAX {
        Err(DscError::ArithmeticOverflow)
    } else {
        match solvency(tokens, quotes, (debt + amount) as u64, cs) {
            Err(e) => Err(e),
            Ok(_) => Ok((debt + amount) as u64),
        }
    }
}

/// The holdings after a redemption, or its error.
pub open spec fn redeem_result(
    tokens: Seq<AccountKey>,
    quotes: Seq<Option<u64>>,
    debt: u64,
    cs: Seq<Collateral>,
    token: AccountKey,
    amount: u64,
) -> Result<Seq<Collateral>, DscError> {
    if amount == 0 {
        Err(DscError::NeedMoreThanZero)
    } else {
        match debit(cs, token, amount) {
            Err(e) => Err(e),
            Ok(ncs) => match solvency(tokens, quotes, debt, ncs) {
                Err(e) => Err(e),
                Ok(_) => Ok(ncs),
            },
        }
    }
}

/// The debt after a burn, or its error.
pub open spec fn burn_result(debt: u64, amount: u64) -> Result<u64, DscError> {
    if amount == 0 {
        Err(DscError::NeedMoreThanZero)
    } else if debt < amount {
        Err(DscError::InsufficientDebt)
    } else {
        Ok((debt - amount) as u64)
    }
}

/// `base` plus the liquidation bonus on it.
pub open spec fn with_bonus(base: u64) -> Result<u64, DscError> {
    let total: nat = base as nat + (base as nat) * (LIQUIDATION_BONUS as nat) / (LIQUIDATION_PRECISION as nat);
    if total > u64::MAX {
        Err(DscError::ArithmeticOverflow)
    } else {
        Ok(total as u64)
    }
}

/// The collateral seized for covering `debt_to_cover`: its equivalent in
/// `token` plus the bonus.
pub open spec fn seizure(
    tokens: Seq<AccountKey>,
    quotes: Seq<Option<u64>>,
    token: AccountKey,
    debt_to_cover: u64,
) -> Result<u64, DscError> {
    match quote_of(tokens, quotes, token) {
        Err(e) => Err(e),
        Ok(p) => match token_amount(p, debt_to_cover) {
            Err(e) => Err(e),
            Ok(base) => with_bonus(base),
        },
    }
}

/// The outcome of a liquidation: the collateral seized, the new debt and the
/// new holdings; or its error.
pub open spec fn liquidate_result(
    tokens: Seq<AccountKey>,
    quotes: Seq<Option<u64>>,
    debt: u64,
    cs: Seq<Collateral>,
    token: AccountKey,
    debt_to_cover: u64,
) -> Result<(u64, u64, Seq<Collateral>), DscError> {
    if debt_to_cover == 0 {
        Err(DscError::NeedMoreThanZero)
    } else {
        match health_factor(tokens, quotes, debt, cs) {
            Err(e) => Err(e),
            Ok(start) => if start >= MIN_HEALTH_FACTOR {
                Err(DscError::HealthFactorOk)
            } else {
                match seizure(tokens, quotes, token, debt_to_cover) {
                    Err(e) => Err(e),
                    Ok(total) => match debit(cs, token, total) {
                        Err(e) => Err(e),
                        Ok(ncs) => if debt < debt_to_cover {
                            Err(DscError::InsufficientDebt)
                        } else {
                            match health_factor(tokens, quotes, (debt - debt_to_cover) as u64, ncs) {
                                Err(e) => Err(e),
                                Ok(end) => if end <= start {
                                    Err(DscError::HealthFactorNotImproved)
                                } else {
                                    Ok((total, (debt - debt_to_cover) as u64, ncs))
                                },
                            }
                        },
                    },
                }
            },
        }
    }
}

/// A copy of `cs` with entry `i` replaced by `c`.
fn replaced(cs: &Vec<Collateral>, i: usize, c: Collateral) -> (r: Vec<Collateral>)
    requires
        i < cs@.len(),
    ensures
        r@ == cs@.update(i as int, c),
{
    let mut v: Vec<Collateral> = Vec::new();
    let mut j: usize = 0;
    while j < cs.len()
        invariant
            j <= cs@.len(),
            i < cs@.len(),
            v@ == cs@.update(i as int, c).subrange(0, j as int),
        decreases cs.len() - j,
    {
        if j == i {
            v.push(c);
        } else {
            v.push(cs[j]);
        }
        j = j + 1;
        assert(v@ =~= cs@.update(i as int, c).subrange(0, j as int));
    }
    assert(v@ =~= cs@.update(i as int, c));
    v
}

/// A copy of `cs` with `c` appended.
fn appended(cs: &Vec<Collateral>, c: Collateral) -> (r: Vec<Collateral>)
    ensures
        r@ == cs@.push(c),
{
    let mut v: Vec<Collateral> = Vec::new();
    let mut j: usize = 0;
    while j < cs.len()
        invariant
            j <= cs@.len(),
            v@ == cs@.subrange(0, j as int),
        decreases cs.len() - j,
    {
        v.push(cs[j]);
        j = j + 1;
        assert(v@ =~= cs@.subrange(0, j as int));
    }
    assert(cs@.subrange(0, cs@.len() as int) =~= cs@);
    v.push(c);
    v
}

/// The holdings with `amount` of `token` added, built apart from `cs`.
pub fn credited(cs: &Vec<Collateral>, token: AccountKey, amount: u64) -> (r: Result<Vec<Collateral>, DscError>)
    ensures
        match r {
            Ok(v) => credit(cs@, token, amount) == Ok::<Seq<Collateral>, DscError>(v@),
            Err(e) => credit(cs@, token, amount) == Err::<Seq<Collateral>, DscError>(e),
        },
{
    match find_holding(cs, token) {
        Some(i) => match cs[i].amount.checked_add(amount) {
            None => Err(DscError::ArithmeticOverflow),
            Some(a) => Ok(replaced(cs, i, Collateral { token, amount: a })),
        },
        None => Ok(appended(cs, Collateral { token, amount })),
    }
}

/// The holdings with `amount` of `token` taken out, built apart from `cs`.
pub fn debited(cs: &Vec<Collateral>, token: AccountKey, amount: u64) -> (r: Result<Vec<Collateral>, DscError>)
    ensures
        match r {
            Ok(v) => debit(cs@, token, amount) == Ok::<Seq<Collateral>, DscError>(v@),
            Err(e) => debit(cs@, token, amount) == Err::<Seq<Collateral>, DscError>(e),
        },
{
    match find_holding(cs, token) {
        None => Err(DscError::NotAllowedToken),
        Some(i) => if cs[i].amount < amount {
            Err(DscError::InsufficientCollateral)
        } else {
            Ok(replaced(cs, i, Collateral { token, amount: cs[i].amount - amount }))
        },
    }
}

/// Checks the solvency gate on a prospective state.
pub fn check_solvency(
    state: &DscState,
    quotes: &Vec<Option<u64>>,
    debt: u64,
    cs: &Vec<Collateral>,
) -> (r: Result<(), DscError>)
    ensures
        r == solvency(state.collateral_tokens@, quotes@, debt, cs@),
{
    let h = calculate_health_factor(state, quotes, debt, cs)?;
    if h < MIN_HEALTH_FACTOR {
        Err(DscError::BreaksHealthFactor)
    } else {
        Ok(())
    }
}

/// Adds `amount` of `token` to the position of `user`, who becomes its owner
/// if it has none. On success the caller moves the deposit into the vault.
pub fn deposit_collateral(
    state: &DscState,
    quotes: &Vec<Option<u64>>,
    position: &mut UserPosition,
    user: AccountKey,
    token: AccountKey,
    amount: u64,
) -> (r: Result<Vec<CustodyAction>, DscError>)
    ensures
        match deposit_result(
            state.collateral_tokens@,
            quotes@,
            old(position).dsc_minted,
            old(position).collateral@,
            token,
            amount,
        ) {
            Ok(ncs) => r is Ok && r->Ok_0@ == seq![CustodyAction::TransferToVault { token, from: user, amount }]
                && final(position).collateral@ == ncs && final(position).dsc_minted == old(position).dsc_minted
                && final(position).user == (if old(position).user == AccountKey::zero_spec() {
                user
            } else {
                old(position).user
            }),
            Err(e) => r == Err::<Vec<CustodyAction>, DscError>(e) && *final(position) == *old(position),
        },
{
    if amount == 0 {
        return Err(DscError::NeedMoreThanZero);
    }
    if !state.is_approved(token) {
        return Err(DscError::NotAllowedToken);
    }
    let ncs = credited(&position.collateral, token, amount)?;
    check_solvency(state, quotes, position.dsc_minted, &ncs)?;
    position.collateral = ncs;
    if position.user == AccountKey::zero() {
        position.user = user;
    }
    Ok(vec![CustodyAction::TransferToVault { token, from: user, amount }])
}

/// Adds `amount` to the position's debt. On success the caller issues the
/// debt token to the owner.
pub fn mint_dsc(state: &DscState, quotes: &Vec<Option<u64>>, position: &mut UserPosition, amount: u64) -> (r:
    Result<Vec<CustodyAction>, DscError>)
    ensures
        match mint_result(state.collateral_tokens@, quotes@, old(position).dsc_minted, old(position).collateral@, amount) {
            Ok(d) => r is Ok && r->Ok_0@ == seq![CustodyAction::MintDebt { to: old(position).user, amount }]
                && final(position).dsc_minted == d && final(position).collateral == old(position).collateral
                && final(position).user == old(position).user,
            Err(e) => r == Err::<Vec<CustodyAction>, DscError>(e) && *final(position) == *old(position),
        },
{
    if amount == 0 {
        return Err(DscError::NeedMoreThanZero);
    }
    let debt = match position.dsc_minted.checked_add(amount) {
        Some(d) => d,
        None => return Err(DscError::ArithmeticOverflow),
    };
    check_solvency(state, quotes, debt, &position.collateral)?;
    position.dsc_minted = debt;
    Ok(vec![CustodyAction::MintDebt { to: position.user, amount }])
}

/// Takes `amount` of `token` out of the position. On success the caller moves
/// it from the vault to the owner.
pub fn redeem_collateral(
    state: &DscState,
    quotes: &Vec<Option<u64>>,
    position: &mut UserPosition,
    token: AccountKey,
    amount: u64,
) -> (r: Result<Vec<CustodyAction>, DscError>)
    ensures
        match redeem_result(
            state.collateral_tokens@,
            quotes@,
            old(position).dsc_minted,
            old(position).collateral@,
            token,
            amount,
        ) {
            Ok(ncs) => r is Ok && r->Ok_0@ == seq![CustodyAction::TransferFromVault { token, to: old(position).user, amount }]
                && final(position).collateral@ == ncs && final(position).dsc_minted == old(position).dsc_minted
                && final(position).user == old(position).user,
            Err(e) => r == Err::<Vec<CustodyAction>, DscError>(e) && *final(position) == *old(position),
        },
{
    if amount == 0 {
        return Err(DscError::NeedMoreThanZero);
    }
    let ncs = debited(&position.collateral, token, amount)?;
    check_solvency(state, quotes, position.dsc_minted, &ncs)?;
    position.collateral = ncs;
    Ok(vec![CustodyAction::TransferFromVault { token, to: position.user, amount }])
}

/// Takes `amount` off the position's debt. On success the caller destroys
/// that much of the owner's debt token.
pub fn burn_dsc(position: &mut UserPosition, amount: u64) -> (r: Result<Vec<CustodyAction>, DscError>)
    ensures
        match burn_result(old(position).dsc_minted, amount) {
            Ok(d) => r is Ok && r->Ok_0@ == seq![CustodyAction::BurnDebt { from: old(position).user, amount }]
                && final(position).dsc_minted == d && final(position).collateral == old(position).collateral
                && final(position).user == old(position).user,
            Err(e) => r == Err::<Vec<CustodyAction>, DscError>(e) && *final(position) == *old(position),
        },
{
    if amount == 0 {
        return Err(DscError::NeedMoreThanZero);
    }
    if position.dsc_minted < amount {
        return Err(DscError::InsufficientDebt);
    }
    position.dsc_minted = position.dsc_minted - amount;
    Ok(vec![CustodyAction::BurnDebt { from: position.user, amount }])
}

/// Repays `debt_to_cover` of an undercollateralized position on its owner's
/// behalf, in exchange for its equivalent in `collateral_token` plus the
/// bonus. On success the caller moves the seized collateral from the vault to
/// the liquidator and destroys `debt_to_cover` of the liquidator's debt token.
pub fn liquidate(
    state: &DscState,
    quotes: &Vec<Option<u64>>,
    position: &mut UserPosition,
    liquidator: AccountKey,
    debt_to_cover: u64,
    collateral_token: AccountKey,
) -> (r: Result<Vec<CustodyAction>, DscError>)
    ensures
        match liquidate_result(
            state.collateral_tokens@,
            quotes@,
            old(position).dsc_minted,
            old(position).collateral@,
            collateral_token,
            debt_to_cover,
        ) {
            Ok((total, d, ncs)) => r is Ok && r->Ok_0@ == seq![
                CustodyAction::TransferFromVault { token: collateral_token, to: liquidator, amount: total },
                CustodyAction::BurnDebt { from: liquidator, amount: debt_to_cover },
            ] && final(position).dsc_minted == d && final(position).collateral@ == ncs
                && final(position).user == old(position).user,
            Err(e) => r == Err::<Vec<CustodyAction>, DscError>(e) && *final(position) == *old(position),
        },
{
    if debt_to_cover == 0 {
        return Err(DscError::NeedMoreThanZero);
    }
    let start = calculate_health_factor(state, quotes, position.dsc_minted, &position.collateral)?;
    if start >= MIN_HEALTH_FACTOR {
        return Err(DscError::HealthFactorOk);
    }
    let base = get_token_amount_from_usd(state, quotes, collateral_token, debt_to_cover)?;
    let bonus: u64 = base / 10;
    assert(bonus as nat == (base as nat) * (LIQUIDATION_BONUS as nat) / (LIQUIDATION_PRECISION as nat));
    let total = match base.checked_add(bonus) {
        Some(t) => t,
        None => return Err(DscError::ArithmeticOverflow),
    };
    let ncs = debited(&position.collateral, collateral_token, total)?;
    if position.dsc_minted < debt_to_cover {
        return Err(DscError::InsufficientDebt);
    }
    let debt = position.dsc_minted - debt_to_cover;
    let end = calculate_health_factor(state, quotes, debt, &ncs)?;
    if end <= start {
        return Err(DscError::HealthFactorNotImproved);
    }
    position.dsc_minted = debt;
    position.collateral = ncs;
    Ok(vec![
        CustodyAction::TransferFromVault { token: collateral_token, to: liquidator, amount: total },
        CustodyAction::BurnDebt { from: liquidator, amount: debt_to_cover },
    ])
}

} // verus!
