//! The explicit store handle: all market state as plain values, threaded
//! through every operation as a parameter.
//!
//! Keyed collections are vectors of entries with unique keys; the
//! surrounding execution environment persists a store mutated by a
//! successful operation and discards it after a failed one.
use vstd::prelude::*;

use crate::error::{ContractError, ErrorClass};
use crate::math;
use crate::msg::{PoolStats, SwapStats};
use crate::state::models::{MarketStats, OhlcBar, Pool, PoolAccount, PoolInfo, TraderInfo, TraderStats};
use crate::token::Token;

verus! {

/// Identifier of a pool: assigned sequentially from zero at creation,
/// capped at this type's maximum representable value.
pub type PoolId = u8;

/// Per (trader, pool) balance record.
#[derive(Debug)]
pub struct AccountEntry {
    pub owner: String,
    pub pool_id: PoolId,
    pub account: PoolAccount,
}

/// Per-trader aggregate record.
#[derive(Debug)]
pub struct TraderEntry {
    pub owner: String,
    pub info: TraderInfo,
}

/// Aggregate record of one ordered (from, to) pool pair.
#[derive(Clone, Copy, Debug, PartialEq, Eq, Structural)]
pub struct SwapStatsEntry {
    pub from_pool: PoolId,
    pub to_pool: PoolId,
    pub stats: SwapStats,
}

/// One OHLC bar of one pool; the bucket key is `(pool_id, bar.t)`.
#[derive(Clone, Copy, Debug, PartialEq, Eq, Structural)]
pub struct OhlcEntry {
    pub pool_id: PoolId,
    pub bar: OhlcBar,
}

/// The whole market state.
#[derive(Debug)]
pub struct Store {
    pub quote_token: Token,
    pub quote_decimals: u8,
    pub quote_symbol: String,
    /// Buy fee, fixed-point parts-per-million of each instruction amount.
    pub buy_fee_pct: u128,
    /// Sell fee, parts-per-million of the aggregate output of a batch.
    pub sell_fee_pct: u128,
    /// Swap fee, parts-per-million of the intermediate quote amount.
    pub swap_fee_pct: u128,
    pub fee_manager_addr: String,
    pub operator_addr: Option<String>,
    pub start_time: u64,
    pub stop_time: u64,
    pub market_stats: MarketStats,
    pub pools: Vec<Pool>,
    pub pool_infos: Vec<PoolInfo>,
    pub pool_stats: Vec<PoolStats>,
    pub pool_accounts: Vec<AccountEntry>,
    pub trader_infos: Vec<TraderEntry>,
    pub swap_stats: Vec<SwapStatsEntry>,
    pub pool_ohlc_bars: Vec<OhlcEntry>,
    pub has_claimed: Vec<String>,
}

/// The mathematical content of a [`Store`]: every vector as a sequence.
#[verifier::ext_equal]
pub struct StoreS {
    pub quote_token: Token,
    pub quote_decimals: u8,
    pub quote_symbol: String,
    pub buy_fee_pct: u128,
    pub sell_fee_pct: u128,
    pub swap_fee_pct: u128,
    pub fee_manager_addr: String,
    pub operator_addr: Option<String>,
    pub start_time: u64,
    pub stop_time: u64,
    pub market_stats: MarketStats,
    pub pools: Seq<Pool>,
    pub pool_infos: Seq<PoolInfo>,
    pub pool_stats: Seq<PoolStats>,
    pub pool_accounts: Seq<AccountEntry>,
    pub trader_infos: Seq<TraderEntry>,
    pub swap_stats: Seq<SwapStatsEntry>,
    pub pool_ohlc_bars: Seq<OhlcEntry>,
    pub has_claimed: Seq<String>,
}

impl View for Store {
    type V = StoreS;

    open spec fn view(&self) -> StoreS {
        StoreS {
            quote_token: self.quote_token,
            quote_decimals: self.quote_decimals,
            quote_symbol: self.quote_symbol,
            buy_fee_pct: self.buy_fee_pct,
            sell_fee_pct: self.sell_fee_pct,
            swap_fee_pct: self.swap_fee_pct,
            fee_manager_addr: self.fee_manager_addr,
            operator_addr: self.operator_addr,
            start_time: self.start_time,
            stop_time: self.stop_time,
            market_stats: self.market_stats,
            pools: self.pools@,
            pool_infos: self.pool_infos@,
            pool_stats: self.pool_stats@,
            pool_accounts: self.pool_accounts@,
            trader_infos: self.trader_infos@,
            swap_stats: self.swap_stats@,
            pool_ohlc_bars: self.pool_ohlc_bars@,
            has_claimed: self.has_claimed@,
        }
    }
}

// ---------------------------------------------------------------------------
// Keys and lookups
// ---------------------------------------------------------------------------

pub open spec fn acct_key(e: AccountEntry) -> (Seq<char>, PoolId) {
    (e.owner@, e.pool_id)
}

pub open spec fn accounts_unique(s: Seq<AccountEntry>) -> bool {
    forall|i: int, j: int| 0 <= i < j < s.len() ==> #[trigger] acct_key(s[i]) != #[trigger] acct_key(s[j])
}

pub open spec fn has_account(s: Seq<AccountEntry>, key: (Seq<char>, PoolId)) -> bool {
    exists|i: int| 0 <= i < s.len() && #[trigger] acct_key(s[i]) == key
}

/// The index of the entry with `key`, or -1 when there is none.
pub open spec fn account_index(s: Seq<AccountEntry>, key: (Seq<char>, PoolId)) -> int {
    if has_account(s, key) {
        choose|i: int| 0 <= i < s.len() && #[trigger] acct_key(s[i]) == key
    } else {
        -1
    }
}

/// The recorded balance under `key`, if an account exists.
pub open spec fn account_balance(s: Seq<AccountEntry>, key: (Seq<char>, PoolId)) -> Option<u128> {
    if has_account(s, key) {
        Some(s[account_index(s, key)].account.balance)
    } else {
        None
    }
}

pub open spec fn trader_key(e: TraderEntry) -> Seq<char> {
    e.owner@
}

pub open spec fn traders_unique(s: Seq<TraderEntry>) -> bool {
    forall|i: int, j: int| 0 <= i < j < s.len() ==> #[trigger] trader_key(s[i]) != #[trigger] trader_key(s[j])
}

pub open spec fn has_trader(s: Seq<TraderEntry>, key: Seq<char>) -> bool {
    exists|i: int| 0 <= i < s.len() && #[trigger] trader_key(s[i]) == key
}

pub open spec fn trader_index(s: Seq<TraderEntry>, key: Seq<char>) -> int {
    if has_trader(s, key) {
        choose|i: int| 0 <= i < s.len() && #[trigger] trader_key(s[i]) == key
    } else {
        -1
    }
}

pub open spec fn swap_key(e: SwapStatsEntry) -> (PoolId, PoolId) {
    (e.from_pool, e.to_pool)
}

pub open spec fn swap_stats_unique(s: Seq<SwapStatsEntry>) -> bool {
    forall|i: int, j: int| 0 <= i < j < s.len() ==> #[trigger] swap_key(s[i]) != #[trigger] swap_key(s[j])
}

pub open spec fn has_swap_stats(s: Seq<SwapStatsEntry>, key: (PoolId, PoolId)) -> bool {
    exists|i: int| 0 <= i < s.len() && #[trigger] swap_key(s[i]) == key
}

pub open spec fn swap_stats_index(s: Seq<SwapStatsEntry>, key: (PoolId, PoolId)) -> int {
    if has_swap_stats(s, key) {
        choose|i: int| 0 <= i < s.len() && #[trigger] swap_key(s[i]) == key
    } else {
        -1
    }
}

pub open spec fn ohlc_key(e: OhlcEntry) -> (PoolId, u64) {
    (e.pool_id, e.bar.t)
}

pub open spec fn ohlc_unique(s: Seq<OhlcEntry>) -> bool {
    forall|i: int, j: int| 0 <= i < j < s.len() ==> #[trigger] ohlc_key(s[i]) != #[trigger] ohlc_key(s[j])
}

pub open spec fn has_ohlc(s: Seq<OhlcEntry>, key: (PoolId, u64)) -> bool {
    exists|i: int| 0 <= i < s.len() && #[trigger] ohlc_key(s[i]) == key
}

pub open spec fn ohlc_index(s: Seq<OhlcEntry>, key: (PoolId, u64)) -> int {
    if has_ohlc(s, key) {
        choose|i: int| 0 <= i < s.len() && #[trigger] ohlc_key(s[i]) == key
    } else {
        -1
    }
}

pub open spec fn claimed_key(e: String) -> Seq<char> {
    e@
}

pub open spec fn claimed_unique(s: Seq<String>) -> bool {
    forall|i: int, j: int| 0 <= i < j < s.len() ==> #[trigger] claimed_key(s[i]) != #[trigger] claimed_key(s[j])
}

pub open spec fn has_claimed_flag(s: Seq<String>, key: Seq<char>) -> bool {
    exists|i: int| 0 <= i < s.len() && #[trigger] claimed_key(s[i]) == key
}

/// Well-formedness of the whole store: the per-pool collections line up
/// with the pool list, every keyed collection has unique keys, accounts
/// refer to existing pools, and every pool satisfies the curve invariant.
pub open spec fn store_wf(s: StoreS) -> bool {
    &&& s.pool_infos.len() == s.pools.len()
    &&& s.pool_stats.len() == s.pools.len()
    &&& s.pools.len() <= 256
    &&& accounts_unique(s.pool_accounts)
    &&& forall|j: int| 0 <= j < s.pool_accounts.len()
        ==> (#[trigger] s.pool_accounts[j]).pool_id < s.pools.len()
    &&& traders_unique(s.trader_infos)
    &&& swap_stats_unique(s.swap_stats)
    &&& ohlc_unique(s.pool_ohlc_bars)
    &&& claimed_unique(s.has_claimed)
    &&& forall|p: int| 0 <= p < s.pools.len() ==> (#[trigger] s.pools[p]).curve_wf()
}

// ---------------------------------------------------------------------------
// Runtime check of well-formedness
// ---------------------------------------------------------------------------

fn accounts_unique_check(v: &Vec<AccountEntry>) -> (r: bool)
    ensures
        r == accounts_unique(v@),
{
    let n = v.len();
    let mut i: usize = 0;
    while i < n
        invariant
            n == v@.len(),
            i <= n,
            forall|x: int, y: int| 0 <= x < y < n && x < i ==> #[trigger] acct_key(v@[x])
                != #[trigger] acct_key(v@[y]),
        decreases n - i,
    {
        let mut j: usize = i + 1;
        while j < n
            invariant
                n == v@.len(),
                i < j <= n,
                forall|y: int| i < y < j ==> #[trigger] acct_key(v@[y]) != acct_key(v@[i as int]),
            decreases n - j,
        {
            if v[j].pool_id == v[i].pool_id && v[j].owner.eq(&v[i].owner) {
                proof {
                    assert(acct_key(v@[i as int]) == acct_key(v@[j as int]));
                }
                return false;
            }
            j += 1;
        }
        i += 1;
    }
    true
}

fn traders_unique_check(v: &Vec<TraderEntry>) -> (r: bool)
    ensures
        r == traders_unique(v@),
{
    let n = v.len();
    let mut i: usize = 0;
    while i < n
        invariant
            n == v@.len(),
            i <= n,
            forall|x: int, y: int| 0 <= x < y < n && x < i ==> #[trigger] trader_key(v@[x])
                != #[trigger] trader_key(v@[y]),
        decreases n - i,
    {
        let mut j: usize = i + 1;
        while j < n
            invariant
                n == v@.len(),
                i < j <= n,
                forall|y: int| i < y < j ==> #[trigger] trader_key(v@[y]) != trader_key(
                    v@[i as int],
                ),
            decreases n - j,
        {
            if v[j].owner.eq(&v[i].owner) {
                proof {
                    assert(trader_key(v@[i as int]) == trader_key(v@[j as int]));
                }
                return false;
            }
            j += 1;
        }
        i += 1;
    }
    true
}

fn swap_stats_unique_check(v: &Vec<SwapStatsEntry>) -> (r: bool)
    ensures
        r == swap_stats_unique(v@),
{
    let n = v.len();
    let mut i: usize = 0;
    while i < n
        invariant
            n == v@.len(),
            i <= n,
            forall|x: int, y: int| 0 <= x < y < n && x < i ==> #[trigger] swap_key(v@[x])
                != #[trigger] swap_key(v@[y]),
        decreases n - i,
    {
        let mut j: usize = i + 1;
        while j < n
            invariant
                n == v@.len(),
                i < j <= n,
                forall|y: int| i < y < j ==> #[trigger] swap_key(v@[y]) != swap_key(v@[i as int]),
            decreases n - j,
        {
            if v[j].from_pool == v[i].from_pool && v[j].to_pool == v[i].to_pool {
                proof {
                    assert(swap_key(v@[i as int]) == swap_key(v@[j as int]));
                }
                return false;
            }
            j += 1;
        }
        i += 1;
    }
    true
}

fn ohlc_unique_check(v: &Vec<OhlcEntry>) -> (r: bool)
    ensures
        r == ohlc_unique(v@),
{
    let n = v.len();
    let mut i: usize = 0;
    while i < n
        invariant
            n == v@.len(),
            i <= n,
            forall|x: int, y: int| 0 <= x < y < n && x < i ==> #[trigger] ohlc_key(v@[x])
                != #[trigger] ohlc_key(v@[y]),
        decreases n - i,
    {
        let mut j: usize = i + 1;
        while j < n
            invariant
                n == v@.len(),
                i < j <= n,
                forall|y: int| i < y < j ==> #[trigger] ohlc_key(v@[y]) != ohlc_key(v@[i as int]),
            decreases n - j,
        {
            if v[j].pool_id == v[i].pool_id && v[j].bar.t == v[i].bar.t {
                proof {
                    assert(ohlc_key(v@[i as int]) == ohlc_key(v@[j as int]));
                }
                return false;
            }
            j += 1;
        }
        i += 1;
    }
    true
}

fn claimed_unique_check(v: &Vec<String>) -> (r: bool)
    ensures
        r == claimed_unique(v@),
{
    let n = v.len();
    let mut i: usize = 0;
    while i < n
        invariant
            n == v@.len(),
            i <= n,
            forall|x: int, y: int| 0 <= x < y < n && x < i ==> #[trigger] claimed_key(v@[x])
                != #[trigger] claimed_key(v@[y]),
        decreases n - i,
    {
        let mut j: usize = i + 1;
        while j < n
            invariant
                n == v@.len(),
                i < j <= n,
                forall|y: int| i < y < j ==> #[trigger] claimed_key(v@[y]) != claimed_key(
                    v@[i as int],
                ),
            decreases n - j,
        {
            if v[j].eq(&v[i]) {
                proof {
                    assert(claimed_key(v@[i as int]) == claimed_key(v@[j as int]));
                }
                return false;
            }
            j += 1;
        }
        i += 1;
    }
    true
}

/// Whether one pool satisfies the curve invariant.
fn pool_curve_check(p: &Pool) -> (r: bool)
    ensures
        r == p.curve_wf(),
{
    let genesis = math::mul_u256(p.supply, p.offset);
    proof {
        genesis.lemma_limbs();
        p.k.lemma_limbs();
    }
    if !(genesis.hi == p.k.hi && genesis.lo == p.k.lo) {
        return false;
    }
    let product = math::mul_u256(p.reserves.base, p.reserves.quote);
    proof {
        product.lemma_le(p.k);
    }
    product.hi < p.k.hi || (product.hi == p.k.hi && product.lo <= p.k.lo)
}

impl Store {
    /// Whether this store satisfies the well-formedness invariant that
    /// every trade and settlement operation requires. Stores produced by
    /// initialization and maintained by the operations always do; a host
    /// that obtained a store from anywhere else can test it first.
    pub fn check_wf(&self) -> (r: bool)
        ensures
            r == store_wf(self@),
    {
        if self.pool_infos.len() != self.pools.len() {
            return false;
        }
        if self.pool_stats.len() != self.pools.len() {
            return false;
        }
        if self.pools.len() > 256 {
            return false;
        }
        if !accounts_unique_check(&self.pool_accounts) {
            return false;
        }
        let n = self.pool_accounts.len();
        let mut i: usize = 0;
        while i < n
            invariant
                n == self.pool_accounts@.len(),
                i <= n,
                forall|j: int| 0 <= j < i ==> (#[trigger] self.pool_accounts@[j]).pool_id
                    < self.pools@.len(),
            decreases n - i,
        {
            if (self.pool_accounts[i].pool_id as usize) >= self.pools.len() {
                return false;
            }
            i += 1;
        }
        if !traders_unique_check(&self.trader_infos) {
            return false;
        }
        if !swap_stats_unique_check(&self.swap_stats) {
            return false;
        }
        if !ohlc_unique_check(&self.pool_ohlc_bars) {
            return false;
        }
        if !claimed_unique_check(&self.has_claimed) {
            return false;
        }
        let np = self.pools.len();
        let mut p: usize = 0;
        while p < np
            invariant
                np == self.pools@.len(),
                p <= np,
                forall|j: int| 0 <= j < p ==> (#[trigger] self.pools@[j]).curve_wf(),
            decreases np - p,
        {
            if !pool_curve_check(&self.pools[p]) {
                return false;
            }
            p += 1;
        }
        true
    }
}

// ---------------------------------------------------------------------------
// Exec lookups
// ---------------------------------------------------------------------------

impl Pool {
    /// The pool with the given identifier, or a not-found error.
    pub fn load(pools: &Vec<Pool>, id: PoolId) -> (r: Result<Pool, ContractError>)
        ensures
            (id as int) < pools@.len() ==> (r matches Ok(p) && p == pools@[id as int]),
            (id as int) >= pools@.len() ==> (r matches Err(e) && e is Std),
    {
        if (id as usize) < pools.len() {
            Ok(pools[id as usize])
        } else {
            Err(ContractError::Std { msg: "pool not found".to_owned() })
        }
    }
}

/// The index of the (owner, pool) account, if one exists.
pub fn find_account(accounts: &Vec<AccountEntry>, owner: &String, pool_id: PoolId) -> (r: Option<
    usize,
>)
    requires
        accounts_unique(accounts@),
    ensures
        match r {
            Some(i) => 0 <= i < accounts@.len() && acct_key(accounts@[i as int]) == (owner@, pool_id)
                && account_index(accounts@, (owner@, pool_id)) == i,
            None => !has_account(accounts@, (owner@, pool_id)),
        },
{
    let ghost key = (owner@, pool_id);
    let n = accounts.len();
    let mut i: usize = 0;
    while i < n
        invariant
            n == accounts@.len(),
            i <= n,
            accounts_unique(accounts@),
            forall|j: int| 0 <= j < i ==> #[trigger] acct_key(accounts@[j]) != key,
            key == (owner@, pool_id),
        decreases n - i,
    {
        let e = &accounts[i];
        if e.pool_id == pool_id && e.owner.eq(owner) {
            proof {
                assert(acct_key(accounts@[i as int]) == key);
                assert(has_account(accounts@, key));
                let c = account_index(accounts@, key);
                assert(0 <= c < accounts@.len() && acct_key(accounts@[c]) == key);
                if c != i as int {
                    assert(false);
                }
            }
            return Some(i);
        }
        i += 1;
    }
    None
}

/// The index of a trader's record, if one exists.
pub fn find_trader(traders: &Vec<TraderEntry>, owner: &String) -> (r: Option<usize>)
    requires
        traders_unique(traders@),
    ensures
        match r {
            Some(i) => 0 <= i < traders@.len() && trader_key(traders@[i as int]) == owner@
                && trader_index(traders@, owner@) == i,
            None => !has_trader(traders@, owner@),
        },
{
    let n = traders.len();
    let mut i: usize = 0;
    while i < n
        invariant
            n == traders@.len(),
            i <= n,
            traders_unique(traders@),
            forall|j: int| 0 <= j < i ==> #[trigger] trader_key(traders@[j]) != owner@,
        decreases n - i,
    {
        if traders[i].owner.eq(owner) {
            proof {
                assert(trader_key(traders@[i as int]) == owner@);
                assert(has_trader(traders@, owner@));
                let c = trader_index(traders@, owner@);
                assert(0 <= c < traders@.len() && trader_key(traders@[c]) == owner@);
                if c != i as int {
                    assert(false);
                }
            }
            return Some(i);
        }
        i += 1;
    }
    None
}

/// Whether `owner` has already claimed.
pub fn claimed_contains(claimed: &Vec<String>, owner: &String) -> (r: bool)
    ensures
        r == has_claimed_flag(claimed@, owner@),
{
    let n = claimed.len();
    let mut i: usize = 0;
    while i < n
        invariant
            n == claimed@.len(),
            i <= n,
            forall|j: int| 0 <= j < i ==> #[trigger] claimed_key(claimed@[j]) != owner@,
        decreases n - i,
    {
        if claimed[i].eq(owner) {
            proof {
                assert(claimed_key(claimed@[i as int]) == owner@);
            }
            return true;
        }
        i += 1;
    }
    false
}

// ---------------------------------------------------------------------------
// Account upsert
// ---------------------------------------------------------------------------

impl PoolAccount {
    /// What crediting (or debiting) `delta` against the (owner, pool)
    /// account yields. An account is created lazily on the first nonzero
    /// credit; a debit against a missing account is refused, and a debit
    /// beyond the recorded balance is refused — a balance never goes
    /// negative.
    pub open spec fn spec_upsert(
        s: Seq<AccountEntry>,
        owner: String,
        pool_id: PoolId,
        delta: u128,
        is_positive: bool,
    ) -> Result<(Seq<AccountEntry>, PoolAccount), ErrorClass> {
        let key = (owner@, pool_id);
        if has_account(s, key) {
            let i = account_index(s, key);
            let bal = s[i].account.balance;
            if is_positive {
                if bal + delta > u128::MAX {
                    Err(ErrorClass::Internal)
                } else {
                    let a = PoolAccount { balance: (bal + delta) as u128 };
                    Ok((s.update(i, AccountEntry { account: a, ..s[i] }), a))
                }
            } else {
                if bal < delta {
                    Err(ErrorClass::InsufficientBalance)
                } else {
                    let a = PoolAccount { balance: (bal - delta) as u128 };
                    Ok((s.update(i, AccountEntry { account: a, ..s[i] }), a))
                }
            }
        } else {
            if is_positive {
                if delta == 0 {
                    Ok((s, PoolAccount { balance: 0 }))
                } else {
                    let a = PoolAccount { balance: delta };
                    Ok((s.push(AccountEntry { owner, pool_id, account: a }), a))
                }
            } else {
                Err(ErrorClass::NotAuthorized)
            }
        }
    }

    /// Create or update the (owner, pool) account by `balance_delta`.
    pub fn upsert(
        accounts: &mut Vec<AccountEntry>,
        owner: &String,
        pool_id: PoolId,
        balance_delta: u128,
        is_positive_delta: bool,
    ) -> (r: Result<PoolAccount, ContractError>)
        requires
            accounts_unique(old(accounts)@),
        ensures
            accounts_unique(final(accounts)@),
            match PoolAccount::spec_upsert(
                old(accounts)@,
                *owner,
                pool_id,
                balance_delta,
                is_positive_delta,
            ) {
                Ok(pr) => r matches Ok(a) && a == pr.1 && final(accounts)@ == pr.0,
                Err(k) => r matches Err(e) && e.class() == k && final(accounts)@ == old(accounts)@,
            },
    {
        match find_account(accounts, owner, pool_id) {
            Some(i) => {
                let bal = accounts[i].account.balance;
                let nb: u128 = if is_positive_delta {
                    match math::add_u128(bal, balance_delta) {
                        Ok(v) => v,
                        Err(e) => {
                            return Err(e);
                        },
                    }
                } else {
                    if bal < balance_delta {
                        return Err(ContractError::InsufficientBalance {
                            msg: "insufficient balance in pool".to_owned(),
                        });
                    }
                    bal - balance_delta
                };
                accounts[i].account.balance = nb;
                proof {
                    let s2 = accounts@;
                    let s1 = old(accounts)@;
                    assert forall|x: int, y: int| 0 <= x < y < s2.len() implies #[trigger] acct_key(
                        s2[x],
                    ) != #[trigger] acct_key(s2[y]) by {
                        assert(acct_key(s1[x]) != acct_key(s1[y]));
                        assert(acct_key(s2[x]) == acct_key(s1[x]));
                        assert(acct_key(s2[y]) == acct_key(s1[y]));
                    }
                }
                Ok(PoolAccount { balance: nb })
            },
            None => {
                if is_positive_delta {
                    if balance_delta == 0 {
                        Ok(PoolAccount { balance: 0 })
                    } else {
                        let e = AccountEntry {
                            owner: owner.clone(),
                            pool_id,
                            account: PoolAccount { balance: balance_delta },
                        };
                        accounts.push(e);
                        proof {
                            let s2 = accounts@;
                            let s1 = old(accounts)@;
                            assert forall|x: int, y: int| 0 <= x < y < s2.len()
                                implies #[trigger] acct_key(s2[x]) != #[trigger] acct_key(
                                s2[y],
                            ) by {
                                if y < s2.len() - 1 {
                                    assert(acct_key(s1[x]) != acct_key(s1[y]));
                                } else {
                                    assert(acct_key(s2[y]) == (owner@, pool_id));
                                    assert(acct_key(s2[x]) == acct_key(s1[x]));
                                }
                            }
                        }
                        Ok(PoolAccount { balance: balance_delta })
                    }
                } else {
                    Err(ContractError::NotAuthorized {
                        msg: "account not found for pool".to_owned(),
                    })
                }
            },
        }
    }
}

// ---------------------------------------------------------------------------
// Trader records
// ---------------------------------------------------------------------------

/// What recording one buy of `quote_in` (net of fees) on a trader yields:
/// the buy counter and the quote-in counter grow; a missing record is
/// created with a buy count of one.
pub open spec fn spec_trader_record_buy(
    s: Seq<TraderEntry>,
    owner: String,
    quote_in: u128,
) -> Result<(Seq<TraderEntry>, TraderInfo), ErrorClass> {
    if has_trader(s, owner@) {
        let i = trader_index(s, owner@);
        let st = s[i].info.stats;
        if st.num_buys + 1 > u32::MAX || st.quote_amount_in + quote_in > u128::MAX {
            Err(ErrorClass::Internal)
        } else {
            let info = TraderInfo {
                stats: TraderStats {
                    num_buys: (st.num_buys + 1) as u32,
                    quote_amount_in: (st.quote_amount_in + quote_in) as u128,
                    ..st
                },
            };
            Ok((s.update(i, TraderEntry { info, ..s[i] }), info))
        }
    } else {
        let info = TraderInfo {
            stats: TraderStats {
                amount_claimed: 0,
                quote_amount_out: 0,
                quote_amount_in: quote_in,
                num_sells: 0,
                num_buys: 1,
            },
        };
        Ok((s.push(TraderEntry { owner, info }), info))
    }
}

/// Record one buy on the trader's aggregate record.
pub fn trader_record_buy(traders: &mut Vec<TraderEntry>, owner: &String, quote_in: u128) -> (r:
    Result<TraderInfo, ContractError>)
    requires
        traders_unique(old(traders)@),
    ensures
        traders_unique(final(traders)@),
        match spec_trader_record_buy(old(traders)@, *owner, quote_in) {
            Ok(pr) => r matches Ok(info) && info == pr.1 && final(traders)@ == pr.0,
            Err(k) => r matches Err(e) && e.class() == k && final(traders)@ == old(traders)@,
        },
{
    match find_trader(traders, owner) {
        Some(i) => {
            let st = traders[i].info.stats;
            let nb = math::add_u32(st.num_buys, 1)?;
            let qi = math::add_u128(st.quote_amount_in, quote_in)?;
            let info = TraderInfo { stats: TraderStats { num_buys: nb, quote_amount_in: qi, ..st } };
            traders[i].info = info;
            proof {
                let s2 = traders@;
                let s1 = old(traders)@;
                assert forall|x: int, y: int| 0 <= x < y < s2.len() implies #[trigger] trader_key(
                    s2[x],
                ) != #[trigger] trader_key(s2[y]) by {
                    assert(trader_key(s1[x]) != trader_key(s1[y]));
                    assert(trader_key(s2[x]) == trader_key(s1[x]));
                    assert(trader_key(s2[y]) == trader_key(s1[y]));
                }
            }
            Ok(info)
        },
        None => {
            let info = TraderInfo {
                stats: TraderStats {
                    amount_claimed: 0,
                    quote_amount_out: 0,
                    quote_amount_in: quote_in,
                    num_sells: 0,
                    num_buys: 1,
                },
            };
            traders.push(TraderEntry { owner: owner.clone(), info });
            proof {
                let s2 = traders@;
                let s1 = old(traders)@;
                assert forall|x: int, y: int| 0 <= x < y < s2.len() implies #[trigger] trader_key(
                    s2[x],
                ) != #[trigger] trader_key(s2[y]) by {
                    if y < s2.len() - 1 {
                        assert(trader_key(s1[x]) != trader_key(s1[y]));
                    } else {
                        assert(trader_key(s2[y]) == owner@);
                        assert(trader_key(s2[x]) == trader_key(s1[x]));
                    }
                }
            }
            Ok(info)
        },
    }
}

/// What recording one sell with net payout `quote_out` on a trader
/// yields: the sell counter and the quote-out counter grow; a missing
/// record is created with a sell count of one.
pub open spec fn spec_trader_record_sell(
    s: Seq<TraderEntry>,
    owner: String,
    quote_out: u128,
) -> Result<(Seq<TraderEntry>, TraderInfo), ErrorClass> {
    if has_trader(s, owner@) {
        let i = trader_index(s, owner@);
        let st = s[i].info.stats;
        if st.num_sells + 1 > u32::MAX || st.quote_amount_out + quote_out > u128::MAX {
            Err(ErrorClass::Internal)
        } else {
            let info = TraderInfo {
                stats: TraderStats {
                    num_sells: (st.num_sells + 1) as u32,
                    quote_amount_out: (st.quote_amount_out + quote_out) as u128,
                    ..st
                },
            };
            Ok((s.update(i, TraderEntry { info, ..s[i] }), info))
        }
    } else {
        let info = TraderInfo {
            stats: TraderStats {
                amount_claimed: 0,
                quote_amount_out: quote_out,
                quote_amount_in: 0,
                num_sells: 1,
                num_buys: 0,
            },
        };
        Ok((s.push(TraderEntry { owner, info }), info))
    }
}

/// Record one sell on the trader's aggregate record.
pub fn trader_record_sell(traders: &mut Vec<TraderEntry>, owner: &String, quote_out: u128) -> (r:
    Result<TraderInfo, ContractError>)
    requires
        traders_unique(old(traders)@),
    ensures
        traders_unique(final(traders)@),
        match spec_trader_record_sell(old(traders)@, *owner, quote_out) {
            Ok(pr) => r matches Ok(info) && info == pr.1 && final(traders)@ == pr.0,
            Err(k) => r matches Err(e) && e.class() == k && final(traders)@ == old(traders)@,
        },
{
    match find_trader(traders, owner) {
        Some(i) => {
            let st = traders[i].info.stats;
            let ns = math::add_u32(st.num_sells, 1)?;
            let qo = math::add_u128(st.quote_amount_out, quote_out)?;
            let info = TraderInfo {
                stats: TraderStats { num_sells: ns, quote_amount_out: qo, ..st },
            };
            traders[i].info = info;
            proof {
                let s2 = traders@;
                let s1 = old(traders)@;
                assert forall|x: int, y: int| 0 <= x < y < s2.len() implies #[trigger] trader_key(
                    s2[x],
                ) != #[trigger] trader_key(s2[y]) by {
                    assert(trader_key(s1[x]) != trader_key(s1[y]));
                    assert(trader_key(s2[x]) == trader_key(s1[x]));
                    assert(trader_key(s2[y]) == trader_key(s1[y]));
                }
            }
            Ok(info)
        },
        None => {
            let info = TraderInfo {
                stats: TraderStats {
                    amount_claimed: 0,
                    quote_amount_out: quote_out,
                    quote_amount_in: 0,
                    num_sells: 1,
                    num_buys: 0,
                },
            };
            traders.push(TraderEntry { owner: owner.clone(), info });
            proof {
                let s2 = traders@;
                let s1 = old(traders)@;
                assert forall|x: int, y: int| 0 <= x < y < s2.len() implies #[trigger] trader_key(
                    s2[x],
                ) != #[trigger] trader_key(s2[y]) by {
                    if y < s2.len() - 1 {
                        assert(trader_key(s1[x]) != trader_key(s1[y]));
                    } else {
                        assert(trader_key(s2[y]) == owner@);
                        assert(trader_key(s2[x]) == trader_key(s1[x]));
                    }
                }
            }
            Ok(info)
        },
    }
}

/// What adding a settled payout to a trader's running total yields; the
/// record must already exist.
pub open spec fn spec_trader_record_claim(
    s: Seq<TraderEntry>,
    owner: String,
    claim_amount: u128,
) -> Result<(Seq<TraderEntry>, TraderInfo), ErrorClass> {
    if has_trader(s, owner@) {
        let i = trader_index(s, owner@);
        let st = s[i].info.stats;
        if st.amount_claimed + claim_amount > u128::MAX {
            Err(ErrorClass::Internal)
        } else {
            let info = TraderInfo {
                stats: TraderStats {
                    amount_claimed: (st.amount_claimed + claim_amount) as u128,
                    ..st
                },
            };
            Ok((s.update(i, TraderEntry { info, ..s[i] }), info))
        }
    } else {
        Err(ErrorClass::NotAuthorized)
    }
}

/// Add a settled payout to the trader's running total.
pub fn trader_record_claim(traders: &mut Vec<TraderEntry>, owner: &String, claim_amount: u128) -> (r:
    Result<TraderInfo, ContractError>)
    requires
        traders_unique(old(traders)@),
    ensures
        traders_unique(final(traders)@),
        match spec_trader_record_claim(old(traders)@, *owner, claim_amount) {
            Ok(pr) => r matches Ok(info) && info == pr.1 && final(traders)@ == pr.0,
            Err(k) => r matches Err(e) && e.class() == k && final(traders)@ == old(traders)@,
        },
{
    match find_trader(traders, owner) {
        Some(i) => {
            let st = traders[i].info.stats;
            let ac = math::add_u128(st.amount_claimed, claim_amount)?;
            let info = TraderInfo { stats: TraderStats { amount_claimed: ac, ..st } };
            traders[i].info = info;
            proof {
                let s2 = traders@;
                let s1 = old(traders)@;
                assert forall|x: int, y: int| 0 <= x < y < s2.len() implies #[trigger] trader_key(
                    s2[x],
                ) != #[trigger] trader_key(s2[y]) by {
                    assert(trader_key(s1[x]) != trader_key(s1[y]));
                    assert(trader_key(s2[x]) == trader_key(s1[x]));
                    assert(trader_key(s2[y]) == trader_key(s1[y]));
                }
            }
            Ok(info)
        },
        None => Err(ContractError::NotAuthorized {
            msg: "no trader associated with sender".to_owned(),
        }),
    }
}

// ---------------------------------------------------------------------------
// Swap statistics
// ---------------------------------------------------------------------------

/// What folding one reallocation into the (from, to) pair's aggregate
/// yields; a missing pair starts from zero.
pub open spec fn spec_swap_stats_record(
    s: Seq<SwapStatsEntry>,
    from_pool: PoolId,
    to_pool: PoolId,
    in_amount: u128,
    out_amount: u128,
) -> Result<Seq<SwapStatsEntry>, ErrorClass> {
    let key = (from_pool, to_pool);
    let cur: SwapStats = if has_swap_stats(s, key) {
        s[swap_stats_index(s, key)].stats
    } else {
        SwapStats {
            n: 0,
            in_amount: math::U256 { hi: 0, lo: 0 },
            out_amount: math::U256 { hi: 0, lo: 0 },
        }
    };
    if cur.in_amount.as_int() + in_amount > math::u256_max() || cur.out_amount.as_int() + out_amount
        > math::u256_max() || cur.n + 1 > u32::MAX {
        Err(ErrorClass::Internal)
    } else {
        let st = SwapStats {
            n: (cur.n + 1) as u32,
            in_amount: math::spec_u256_sum(cur.in_amount, in_amount),
            out_amount: math::spec_u256_sum(cur.out_amount, out_amount),
        };
        if has_swap_stats(s, key) {
            Ok(s.update(swap_stats_index(s, key), SwapStatsEntry { from_pool, to_pool, stats: st }))
        } else {
            Ok(s.push(SwapStatsEntry { from_pool, to_pool, stats: st }))
        }
    }
}

/// Fold one reallocation of `in_amount` from-pool base against `out_amount`
/// to-pool base into the ordered pair's aggregate record.
pub fn swap_stats_record(
    entries: &mut Vec<SwapStatsEntry>,
    from_pool: PoolId,
    to_pool: PoolId,
    in_amount: u128,
    out_amount: u128,
) -> (r: Result<(), ContractError>)
    requires
        swap_stats_unique(old(entries)@),
    ensures
        swap_stats_unique(final(entries)@),
        match spec_swap_stats_record(old(entries)@, from_pool, to_pool, in_amount, out_amount) {
            Ok(s2) => r is Ok && final(entries)@ == s2,
            Err(k) => r matches Err(e) && e.class() == k && final(entries)@ == old(entries)@,
        },
{
    let found = find_swap_stats(entries, from_pool, to_pool);
    let cur: SwapStats = match found {
        Some(i) => entries[i].stats,
        None => SwapStats {
            n: 0,
            in_amount: math::U256 { hi: 0, lo: 0 },
            out_amount: math::U256 { hi: 0, lo: 0 },
        },
    };
    let ia = math::add_u256(cur.in_amount, in_amount)?;
    let oa = math::add_u256(cur.out_amount, out_amount)?;
    let n = math::add_u32(cur.n, 1)?;
    let st = SwapStats { n, in_amount: ia, out_amount: oa };
    match found {
        Some(i) => {
            entries[i] = SwapStatsEntry { from_pool, to_pool, stats: st };
            proof {
                let s2 = entries@;
                let s1 = old(entries)@;
                assert forall|x: int, y: int| 0 <= x < y < s2.len() implies #[trigger] swap_key(
                    s2[x],
                ) != #[trigger] swap_key(s2[y]) by {
                    assert(swap_key(s1[x]) != swap_key(s1[y]));
                    assert(swap_key(s2[x]) == swap_key(s1[x]));
                    assert(swap_key(s2[y]) == swap_key(s1[y]));
                }
                assert(entries@ =~= spec_swap_stats_record(
                    old(entries)@,
                    from_pool,
                    to_pool,
                    in_amount,
                    out_amount,
                )->Ok_0);
            }
            Ok(())
        },
        None => {
            entries.push(SwapStatsEntry { from_pool, to_pool, stats: st });
            proof {
                let s2 = entries@;
                let s1 = old(entries)@;
                assert forall|x: int, y: int| 0 <= x < y < s2.len() implies #[trigger] swap_key(
                    s2[x],
                ) != #[trigger] swap_key(s2[y]) by {
                    if y < s2.len() - 1 {
                        assert(swap_key(s1[x]) != swap_key(s1[y]));
                    } else {
                        assert(swap_key(s2[y]) == (from_pool, to_pool));
                        assert(swap_key(s2[x]) == swap_key(s1[x]));
                    }
                }
            }
            Ok(())
        },
    }
}

/// The index of the (from, to) pair's aggregate record, if one exists.
fn find_swap_stats(entries: &Vec<SwapStatsEntry>, from_pool: PoolId, to_pool: PoolId) -> (r: Option<
    usize,
>)
    requires
        swap_stats_unique(entries@),
    ensures
        match r {
            Some(i) => 0 <= i < entries@.len() && swap_key(entries@[i as int]) == (
                from_pool,
                to_pool,
            ) && swap_stats_index(entries@, (from_pool, to_pool)) == i,
            None => !has_swap_stats(entries@, (from_pool, to_pool)),
        },
{
    let n = entries.len();
    let mut i: usize = 0;
    while i < n
        invariant
            n == entries@.len(),
            i <= n,
            swap_stats_unique(entries@),
            forall|j: int| 0 <= j < i ==> #[trigger] swap_key(entries@[j]) != (from_pool, to_pool),
        decreases n - i,
    {
        if entries[i].from_pool == from_pool && entries[i].to_pool == to_pool {
            proof {
                assert(swap_key(entries@[i as int]) == (from_pool, to_pool));
                assert(has_swap_stats(entries@, (from_pool, to_pool)));
                let c = swap_stats_index(entries@, (from_pool, to_pool));
                assert(0 <= c < entries@.len() && swap_key(entries@[c]) == (from_pool, to_pool));
                if c != i as int {
                    assert(false);
                }
            }
            return Some(i);
        }
        i += 1;
    }
    None
}

// ---------------------------------------------------------------------------
// OHLC bars
// ---------------------------------------------------------------------------

/// The index of the (pool, bucket) bar, if one exists.
fn find_ohlc(bars: &Vec<OhlcEntry>, pool_id: PoolId, t: u64) -> (r: Option<usize>)
    requires
        ohlc_unique(bars@),
    ensures
        match r {
            Some(i) => 0 <= i < bars@.len() && ohlc_key(bars@[i as int]) == (pool_id, t)
                && ohlc_index(bars@, (pool_id, t)) == i,
            None => !has_ohlc(bars@, (pool_id, t)),
        },
{
    let n = bars.len();
    let mut i: usize = 0;
    while i < n
        invariant
            n == bars@.len(),
            i <= n,
            ohlc_unique(bars@),
            forall|j: int| 0 <= j < i ==> #[trigger] ohlc_key(bars@[j]) != (pool_id, t),
        decreases n - i,
    {
        if bars[i].pool_id == pool_id && bars[i].bar.t == t {
            proof {
                assert(ohlc_key(bars@[i as int]) == (pool_id, t));
                assert(has_ohlc(bars@, (pool_id, t)));
                let c = ohlc_index(bars@, (pool_id, t));
                assert(0 <= c < bars@.len() && ohlc_key(bars@[c]) == (pool_id, t));
                if c != i as int {
                    assert(false);
                }
            }
            return Some(i);
        }
        i += 1;
    }
    None
}

impl OhlcBar {
    /// What folding one trade into the (pool, minute-bucket) bar yields:
    /// the bucket key is `time - time % 60`, a missing bar is created, an
    /// existing one is widened.
    pub open spec fn spec_upsert(
        bars: Seq<OhlcEntry>,
        pool_id: PoolId,
        time: u64,
        price: u128,
        amount: u128,
    ) -> Result<(Seq<OhlcEntry>, OhlcBar), ErrorClass> {
        let t = (time - time % 60) as u64;
        let key = (pool_id, t);
        let cur: OhlcBar = if has_ohlc(bars, key) {
            bars[ohlc_index(bars, key)].bar
        } else {
            OhlcBar { o: 0, c: 0, h: 0, l: 0, v: 0, t, n: 0 }
        };
        match cur.spec_record(price, amount) {
            None => Err(ErrorClass::Internal),
            Some(b2) => if has_ohlc(bars, key) {
                Ok((bars.update(ohlc_index(bars, key), OhlcEntry { pool_id, bar: b2 }), b2))
            } else {
                Ok((bars.push(OhlcEntry { pool_id, bar: b2 }), b2))
            },
        }
    }

    /// Update or add the historical trading bar of `pool_id` for the
    /// minute bucket containing `time`.
    pub fn upsert(
        bars: &mut Vec<OhlcEntry>,
        pool_id: PoolId,
        time: u64,
        price: u128,
        amount: u128,
    ) -> (r: Result<OhlcBar, ContractError>)
        requires
            ohlc_unique(old(bars)@),
        ensures
            ohlc_unique(final(bars)@),
            match OhlcBar::spec_upsert(old(bars)@, pool_id, time, price, amount) {
                Ok(pr) => r matches Ok(b) && b == pr.1 && final(bars)@ == pr.0,
                Err(k) => r matches Err(e) && e.class() == k && final(bars)@ == old(bars)@,
            },
    {
        let t = time - (time % 60);
        let found = find_ohlc(bars, pool_id, t);
        let cur: OhlcBar = match found {
            Some(i) => bars[i].bar,
            None => OhlcBar::new(t),
        };
        let b2 = cur.record(price, amount)?;
        match found {
            Some(i) => {
                bars[i] = OhlcEntry { pool_id, bar: b2 };
                proof {
                    let s2 = bars@;
                    let s1 = old(bars)@;
                    assert(b2.t == t);
                    assert forall|x: int, y: int| 0 <= x < y < s2.len() implies #[trigger] ohlc_key(
                        s2[x],
                    ) != #[trigger] ohlc_key(s2[y]) by {
                        assert(ohlc_key(s1[x]) != ohlc_key(s1[y]));
                        assert(ohlc_key(s2[x]) == ohlc_key(s1[x]));
                        assert(ohlc_key(s2[y]) == ohlc_key(s1[y]));
                    }
                }
                Ok(b2)
            },
            None => {
                bars.push(OhlcEntry { pool_id, bar: b2 });
                proof {
                    let s2 = bars@;
                    let s1 = old(bars)@;
                    assert(b2.t == t);
                    assert forall|x: int, y: int| 0 <= x < y < s2.len() implies #[trigger] ohlc_key(
                        s2[x],
                    ) != #[trigger] ohlc_key(s2[y]) by {
                        if y < s2.len() - 1 {
                            assert(ohlc_key(s1[x]) != ohlc_key(s1[y]));
                        } else {
                            assert(ohlc_key(s2[y]) == (pool_id, t));
                            assert(ohlc_key(s2[x]) == ohlc_key(s1[x]));
                        }
                    }
                }
                Ok(b2)
            },
        }
    }
}

// ---------------------------------------------------------------------------
// Copies
// ---------------------------------------------------------------------------

/// An owned copy of an optional string.
pub fn dup_opt_string(v: &Option<String>) -> (r: Option<String>)
    ensures
        r == *v,
{
    match v {
        Some(s) => Some(s.clone()),
        None => None,
    }
}

/// An element-wise copy of a vector of plain values.
pub fn copy_vec<T: Copy>(v: &Vec<T>) -> (r: Vec<T>)
    ensures
        r@ == v@,
{
    let n = v.len();
    let mut r: Vec<T> = Vec::new();
    let mut i: usize = 0;
    while i < n
        invariant
            n == v@.len(),
            i <= n,
            r@ == v@.subrange(0, i as int),
        decreases n - i,
    {
        r.push(v[i]);
        proof {
            assert(r@ =~= v@.subrange(0, (i + 1) as int));
        }
        i += 1;
    }
    proof {
        assert(v@.subrange(0, n as int) =~= v@);
    }
    r
}

/// An element-wise copy of the account ledger.
pub fn dup_accounts(v: &Vec<AccountEntry>) -> (r: Vec<AccountEntry>)
    ensures
        r@ == v@,
{
    let n = v.len();
    let mut r: Vec<AccountEntry> = Vec::new();
    let mut i: usize = 0;
    while i < n
        invariant
            n == v@.len(),
            i <= n,
            r@ == v@.subrange(0, i as int),
        decreases n - i,
    {
        let e = AccountEntry {
            owner: v[i].owner.clone(),
            pool_id: v[i].pool_id,
            account: v[i].account,
        };
        proof {
            assert(e == v@[i as int]);
        }
        r.push(e);
        proof {
            assert(r@ =~= v@.subrange(0, (i + 1) as int));
        }
        i += 1;
    }
    proof {
        assert(v@.subrange(0, n as int) =~= v@);
    }
    r
}

/// An element-wise copy of the trader records.
pub fn dup_traders(v: &Vec<TraderEntry>) -> (r: Vec<TraderEntry>)
    ensures
        r@ == v@,
{
    let n = v.len();
    let mut r: Vec<TraderEntry> = Vec::new();
    let mut i: usize = 0;
    while i < n
        invariant
            n == v@.len(),
            i <= n,
            r@ == v@.subrange(0, i as int),
        decreases n - i,
    {
        let e = TraderEntry { owner: v[i].owner.clone(), info: v[i].info };
        proof {
            assert(e == v@[i as int]);
        }
        r.push(e);
        proof {
            assert(r@ =~= v@.subrange(0, (i + 1) as int));
        }
        i += 1;
    }
    proof {
        assert(v@.subrange(0, n as int) =~= v@);
    }
    r
}

} // verus!
