//! The collateral registry: which assets are approved and which price feed
//! belongs to each; and the search for an asset among keys or holdings.
use vstd::prelude::*;
use crate::types::{AccountKey, Collateral, DscError, DscState};

verus! {

/// The first index below `n` at which `s` holds `k`, if any.
pub open spec fn position_in(s: Seq<AccountKey>, k: AccountKey, n: int) -> Option<int>
    decreases n,
{
    if n <= 0 {
        None
    } else {
        match position_in(s, k, n - 1) {
            Some(i) => Some(i),
            None => if s[n - 1] == k { Some(n - 1) } else { None },
        }
    }
}

/// The first index below `n` at which `cs` holds an entry for `k`, if any.
pub open spec fn holding_in(cs: Seq<Collateral>, k: AccountKey, n: int) -> Option<int>
    decreases n,
{
    if n <= 0 {
        None
    } else {
        match holding_in(cs, k, n - 1) {
            Some(i) => Some(i),
            None => if cs[n - 1].token == k { Some(n - 1) } else { None },
        }
    }
}

/// The index of `k` in `s`, if it is there.
pub open spec fn index_of(s: Seq<AccountKey>, k: AccountKey) -> Option<int> {
    position_in(s, k, s.len() as int)
}

/// The index of the holding of `k` in `cs`, if there is one.
pub open spec fn holding_of(cs: Seq<Collateral>, k: AccountKey) -> Option<int> {
    holding_in(cs, k, cs.len() as int)
}

pub proof fn lemma_position_in(s: Seq<AccountKey>, k: AccountKey, n: int)
    requires
        0 <= n <= s.len(),
    ensures
        match position_in(s, k, n) {
            Some(i) => 0 <= i < n && s[i] == k && forall|j: int| 0 <= j < i ==> s[j] != k,
            None => forall|j: int| 0 <= j < n ==> s[j] != k,
        },
    decreases n,
{
    if n > 0 {
        lemma_position_in(s, k, n - 1);
    }
}

pub proof fn lemma_holding_in(cs: Seq<Collateral>, k: AccountKey, n: int)
    requires
        0 <= n <= cs.len(),
    ensures
        match holding_in(cs, k, n) {
            Some(i) => 0 <= i < n && cs[i].token == k && forall|j: int|
                0 <= j < i ==> cs[j].token != k,
            None => forall|j: int| 0 <= j < n ==> cs[j].token != k,
        },
    decreases n,
{
    if n > 0 {
        lemma_holding_in(cs, k, n - 1);
    }
}

/// Two holding sequences with the same tokens at every index find a token at
/// the same index.
pub proof fn lemma_holding_in_same_tokens(a: Seq<Collateral>, b: Seq<Collateral>, k: AccountKey, n: int)
    requires
        0 <= n <= a.len(),
        a.len() == b.len(),
        forall|j: int| 0 <= j < a.len() ==> a[j].token == b[j].token,
    ensures
        holding_in(a, k, n) == holding_in(b, k, n),
    decreases n,
{
    if n > 0 {
        lemma_holding_in_same_tokens(a, b, k, n - 1);
    }
}

/// A match found within a prefix stays the first match of any longer prefix.
pub proof fn lemma_position_in_stable(s: Seq<AccountKey>, k: AccountKey, m: int, n: int)
    requires
        m <= n,
        position_in(s, k, m) is Some,
    ensures
        position_in(s, k, n) == position_in(s, k, m),
    decreases n - m,
{
    if m < n {
        lemma_position_in_stable(s, k, m, n - 1);
    }
}

/// A match found within a prefix stays the first match of any longer prefix.
pub proof fn lemma_holding_in_stable(cs: Seq<Collateral>, k: AccountKey, m: int, n: int)
    requires
        m <= n,
        holding_in(cs, k, m) is Some,
    ensures
        holding_in(cs, k, n) == holding_in(cs, k, m),
    decreases n - m,
{
    if m < n {
        lemma_holding_in_stable(cs, k, m, n - 1);
    }
}

/// Finds the first index of `k` in `s`.
pub fn find_key(s: &Vec<AccountKey>, k: AccountKey) -> (r: Option<usize>)
    ensures
        match r {
            Some(i) => index_of(s@, k) == Some(i as int),
            None => index_of(s@, k) is None,
        },
        r matches Some(i) ==> i < s@.len() && s@[i as int] == k,
{
    let mut i: usize = 0;
    while i < s.len()
        invariant
            i <= s.len(),
            position_in(s@, k, i as int) is None,
        decreases s.len() - i,
    {
        if s[i] == k {
            proof {
                lemma_position_in_stable(s@, k, i + 1, s@.len() as int);
            }
            return Some(i);
        }
        i = i + 1;
    }
    None
}

/// Finds the index of the holding of `k` in `cs`.
pub fn find_holding(cs: &Vec<Collateral>, k: AccountKey) -> (r: Option<usize>)
    ensures
        match r {
            Some(i) => holding_of(cs@, k) == Some(i as int),
            None => holding_of(cs@, k) is None,
        },
        r matches Some(i) ==> i < cs@.len() && cs@[i as int].token == k,
{
    let mut i: usize = 0;
    while i < cs.len()
        invariant
            i <= cs.len(),
            holding_in(cs@, k, i as int) is None,
        decreases cs.len() - i,
    {
        if cs[i].token == k {
            proof {
                lemma_holding_in_stable(cs@, k, i + 1, cs@.len() as int);
            }
            return Some(i);
        }
        i = i + 1;
    }
    None
}

impl DscState {
    /// Approved assets and price feeds are paired by index.
    pub open spec fn wf(&self) -> bool {
        self.collateral_tokens@.len() == self.price_feeds@.len()
    }

    /// Whether `token` is an approved collateral asset.
    pub open spec fn approves(&self, token: AccountKey) -> bool {
        index_of(self.collateral_tokens@, token) is Some
    }

    /// Whether `token` is an approved collateral asset.
    pub fn is_approved(&self, token: AccountKey) -> (r: bool)
        ensures
            r == self.approves(token),
    {
        find_key(&self.collateral_tokens, token).is_some()
    }

    /// The price feed of `token`.
    pub fn lookup_feed(&self, token: AccountKey) -> (r: Result<AccountKey, DscError>)
        requires
            self.wf(),
        ensures
            match index_of(self.collateral_tokens@, token) {
                Some(i) => r == Ok::<AccountKey, DscError>(self.price_feeds@[i]),
                None => r == Err::<AccountKey, DscError>(DscError::NotAllowedToken),
            },
    {
        match find_key(&self.collateral_tokens, token) {
            Some(i) => {
                proof {
                    lemma_position_in(self.collateral_tokens@, token, self.collateral_tokens@.len() as int);
                }
                Ok(self.price_feeds[i])
            },
            None => Err(DscError::NotAllowedToken),
        }
    }
}

/// Installs the registry: approved assets paired by index with their price
/// feeds, and the debt token's mint.
pub fn initialize(
    collateral_tokens: Vec<AccountKey>,
    price_feeds: Vec<AccountKey>,
    dsc_mint: AccountKey,
) -> (r: Result<DscState, DscError>)
    ensures
        collateral_tokens@.len() != price_feeds@.len() ==> r == Err::<DscState, DscError>(
            DscError::TokenAndPriceFeedLengthMismatch,
        ),
        collateral_tokens@.len() == price_feeds@.len() ==> r is Ok,
        r matches Ok(st) ==> st.wf() && st.collateral_tokens@ == collateral_tokens@
            && st.price_feeds@ == price_feeds@ && st.dsc_mint == dsc_mint,
{
    if collateral_tokens.len() != price_feeds.len() {
        return Err(DscError::TokenAndPriceFeedLengthMismatch);
    }
    Ok(DscState { collateral_tokens, price_feeds, dsc_mint })
}

} // verus!
