//! The data model: pools under the constant-product curve, per-trader
//! records, statistics, and minute-bucketed OHLC bars.
use vstd::prelude::*;

use crate::error::ContractError;
use crate::math;
use crate::math::U256;

verus! {

/// Static configuration carried by the store; all market parameters live in
/// dedicated fields of the store itself.
#[derive(Debug)]
pub struct Config {}

/// Current balances of the two sides of a pool.
#[derive(Clone, Copy, Debug, PartialEq, Eq, Structural)]
pub struct PoolReserves {
    pub base: u128,
    pub quote: u128,
}

/// One constant-product reserve pool.
///
/// `k` is fixed at genesis as the product of the initial reserves and never
/// recomputed: accumulated floor-rounding makes the realized product drift
/// strictly downward from `k`, never upward, and that is intentional.
#[derive(Clone, Copy, Debug, PartialEq, Eq, Structural)]
pub struct Pool {
    pub reserves: PoolReserves,
    /// The initial quote reserve.
    pub offset: u128,
    /// The initial base reserve.
    pub supply: u128,
    /// The constant product `supply * offset`, 256 bits wide.
    pub k: U256,
}

/// Immutable display metadata of a pool, set once at creation.
#[derive(Debug)]
pub struct PoolInfo {
    pub symbol: String,
    pub name: String,
    pub description: Option<String>,
    pub image: Option<String>,
}

/// Global, singleton counters.
#[derive(Clone, Copy, Debug, PartialEq, Eq, Structural)]
pub struct MarketStats {
    /// Running total of settled payouts.
    pub amount_claimed: u128,
    /// Incremented exactly once per distinct trader, the first time their
    /// buy count transitions from zero to one.
    pub num_traders: u32,
}

/// Aggregate per-trader counters.
#[derive(Clone, Copy, Debug, PartialEq, Eq, Structural)]
pub struct TraderStats {
    pub amount_claimed: u128,
    pub quote_amount_in: u128,
    pub quote_amount_out: u128,
    pub num_buys: u32,
    pub num_sells: u32,
}

/// Per-trader record, created lazily on the trader's first trade.
#[derive(Clone, Copy, Debug, PartialEq, Eq, Structural)]
pub struct TraderInfo {
    pub stats: TraderStats,
}

/// Per (trader, pool) balance, created lazily on the first nonzero credit.
#[derive(Clone, Copy, Debug, PartialEq, Eq, Structural)]
pub struct PoolAccount {
    pub balance: u128,
}

/// One open/high/low/close/volume bar for a 60-second bucket starting at `t`.
#[derive(Clone, Copy, Debug, PartialEq, Eq, Structural)]
pub struct OhlcBar {
    pub o: u128,
    pub c: u128,
    pub h: u128,
    pub l: u128,
    pub v: u128,
    pub t: u64,
    pub n: u32,
}

/// `10^d`, the scale factor of a price with `d` decimals.
pub open spec fn spec_pow10(d: nat) -> int
    decreases d,
{
    if d == 0 {
        1
    } else {
        10 * spec_pow10((d - 1) as nat)
    }
}

/// `10^d` is positive.
pub proof fn lemma_pow10_pos(a: nat)
    ensures
        spec_pow10(a) >= 1,
    decreases a,
{
    if a > 0 {
        lemma_pow10_pos((a - 1) as nat);
    }
}

/// `10^d` never shrinks as `d` grows.
pub proof fn lemma_pow10_mono(a: nat, b: nat)
    requires
        a <= b,
    ensures
        spec_pow10(a) <= spec_pow10(b),
        spec_pow10(a) >= 1,
    decreases b,
{
    lemma_pow10_pos(a);
    if a < b {
        lemma_pow10_mono(a, (b - 1) as nat);
    }
}

/// `10^d` as a 128-bit value, failing closed when it does not fit.
pub fn pow10_u128(d: u8) -> (r: Result<u128, ContractError>)
    ensures
        spec_pow10(d as nat) <= u128::MAX ==> (r matches Ok(v) && v == spec_pow10(d as nat)),
        spec_pow10(d as nat) > u128::MAX ==> (r matches Err(e) && e is InternalError),
{
    let mut acc: u128 = 1;
    let mut i: u8 = 0;
    while i < d
        invariant
            i <= d,
            acc == spec_pow10(i as nat),
        decreases d - i,
    {
        if acc > u128::MAX / 10 {
            proof {
                lemma_pow10_mono((i + 1) as nat, d as nat);
            }
            return Err(ContractError::InternalError {
                msg: "decimal scale does not fit in u128".to_owned(),
            });
        }
        acc = acc * 10;
        i += 1;
    }
    Ok(acc)
}

impl Pool {
    /// The curve part of well-formedness: `k` records the genesis product
    /// and the realized product never exceeds it.
    pub open spec fn curve_wf(self) -> bool {
        &&& self.k.as_int() == self.supply * self.offset
        &&& self.reserves.base * self.reserves.quote <= self.k.as_int()
    }

    /// Well-formedness: the curve invariant, and no more base has left the
    /// pool than the supply it was seeded with.
    pub open spec fn wf(self) -> bool {
        &&& self.curve_wf()
        &&& self.reserves.base <= self.supply
    }

    /// A successful curve step keeps the realized product at or below `k`
    /// and never touches the genesis data; a buy can only lower the base
    /// reserve, a sell can only lower the quote reserve.
    pub proof fn lemma_swap_preserves_curve(self, in_amount: u128, is_buy: bool)
        requires
            self.curve_wf(),
        ensures
            match self.spec_swap(in_amount, is_buy) {
                Some(st) => st.0.curve_wf() && st.0.supply == self.supply && st.0.offset
                    == self.offset && st.0.k == self.k && (is_buy ==> st.0.reserves.base
                    <= self.reserves.base) && (!is_buy ==> st.0.reserves.quote
                    <= self.reserves.quote),
                None => true,
            },
    {
        let k = self.k.as_int();
        self.k.lemma_bounds();
        if is_buy {
            let nq = self.reserves.quote + in_amount;
            if nq <= u128::MAX && nq != 0 {
                vstd::arithmetic::div_mod::lemma_fundamental_div_mod(k, nq);
                vstd::arithmetic::div_mod::lemma_mod_bound(k, nq);
                assert((k / nq) * nq <= k) by (nonlinear_arith)
                    requires
                        k == nq * (k / nq) + (k % nq),
                        (k % nq) >= 0,
                ;
            }
        } else {
            let nb = self.reserves.base + in_amount;
            if nb <= u128::MAX && nb != 0 {
                vstd::arithmetic::div_mod::lemma_fundamental_div_mod(k, nb);
                vstd::arithmetic::div_mod::lemma_mod_bound(k, nb);
                assert(nb * (k / nb) <= k) by (nonlinear_arith)
                    requires
                        k == nb * (k / nb) + (k % nb),
                        (k % nb) >= 0,
                ;
            }
        }
    }

    /// What one curve step computes, if every checked operation passes.
    ///
    /// Buying moves `in_amount` quote in: the new base reserve is
    /// `floor(k / new_quote)` and the difference leaves the pool. Selling
    /// is the mirror image.
    pub open spec fn spec_swap(self, in_amount: u128, is_buy: bool) -> Option<(Pool, u128)> {
        if is_buy {
            let nq = self.reserves.quote + in_amount;
            if nq > u128::MAX || nq == 0 {
                None
            } else {
                let nb = self.k.as_int() / nq;
                if nb > self.reserves.base {
                    None
                } else {
                    Some((
                        Pool {
                            reserves: PoolReserves { base: nb as u128, quote: nq as u128 },
                            ..self
                        },
                        (self.reserves.base - nb) as u128,
                    ))
                }
            }
        } else {
            let nb = self.reserves.base + in_amount;
            if nb > u128::MAX || nb == 0 {
                None
            } else {
                let nq = self.k.as_int() / nb;
                if nq > self.reserves.quote {
                    None
                } else {
                    Some((
                        Pool {
                            reserves: PoolReserves { base: nb as u128, quote: nq as u128 },
                            ..self
                        },
                        (self.reserves.quote - nq) as u128,
                    ))
                }
            }
        }
    }

    /// Swap is the shared primitive of `buy` and `sell`: it commits the new
    /// reserve pair and returns the amount that leaves the pool.
    pub fn swap(&mut self, in_amount: u128, is_buy: bool) -> (r: Result<u128, ContractError>)
        ensures
            match old(self).spec_swap(in_amount, is_buy) {
                Some(step) => r matches Ok(v) && v == step.1 && *final(self) == step.0,
                None => r matches Err(e) && e is InternalError && *final(self) == *old(self),
            },
    {
        let (new_quote_reserve, new_base_reserve, out_amount) = if is_buy {
            let nq = math::add_u128(self.reserves.quote, in_amount)?;
            let nb_wide = math::div_u256(&self.k, nq)?;
            let nb = math::u256_to_u128(&nb_wide)?;
            let out = math::sub_u128(self.reserves.base, nb)?;
            (nq, nb, out)
        } else {
            let nb = math::add_u128(self.reserves.base, in_amount)?;
            let nq_wide = math::div_u256(&self.k, nb)?;
            let nq = math::u256_to_u128(&nq_wide)?;
            let out = math::sub_u128(self.reserves.quote, nq)?;
            (nq, nb, out)
        };
        self.reserves.base = new_base_reserve;
        self.reserves.quote = new_quote_reserve;
        Ok(out_amount)
    }

    /// Buy trades quote tokens for buy-in to the pool.
    pub fn buy(&mut self, in_amount: u128) -> (r: Result<u128, ContractError>)
        ensures
            match old(self).spec_swap(in_amount, true) {
                Some(step) => r matches Ok(v) && v == step.1 && *final(self) == step.0,
                None => r matches Err(e) && e is InternalError && *final(self) == *old(self),
            },
    {
        self.swap(in_amount, true)
    }

    /// Sell trades pool buy-in back for quote tokens.
    pub fn sell(&mut self, in_amount: u128) -> (r: Result<u128, ContractError>)
        ensures
            match old(self).spec_swap(in_amount, false) {
                Some(step) => r matches Ok(v) && v == step.1 && *final(self) == step.0,
                None => r matches Err(e) && e is InternalError && *final(self) == *old(self),
            },
    {
        self.swap(in_amount, false)
    }

    /// The pool invariant is preserved by every successful curve step: the
    /// realized product stays at or below `k` and both reserves stay
    /// non-negative. For a sell, the base reserve stays within the supply
    /// as long as no more base is returned than has left the pool — which
    /// the account ledger guarantees, since balances are only ever
    /// credited with curve output.
    pub proof fn lemma_swap_preserves_wf(self, in_amount: u128, is_buy: bool)
        requires
            self.wf(),
            !is_buy ==> self.reserves.base + in_amount <= self.supply,
        ensures
            match self.spec_swap(in_amount, is_buy) {
                Some(st) => st.0.wf(),
                None => true,
            },
    {
        self.lemma_swap_preserves_curve(in_amount, is_buy);
    }

    /// Rounding favors the pool: buying and then immediately selling back
    /// the exact output never yields more quote than was paid in.
    pub proof fn lemma_round_trip(self, in_amount: u128)
        requires
            self.curve_wf(),
        ensures
            match self.spec_swap(in_amount, true) {
                Some(st) => match st.0.spec_swap(st.1, false) {
                    Some(back) => back.1 <= in_amount,
                    None => true,
                },
                None => true,
            },
    {
        let k = self.k.as_int();
        let b = self.reserves.base as int;
        let q = self.reserves.quote as int;
        self.k.lemma_bounds();
        match self.spec_swap(in_amount, true) {
            Some(st) => {
                let nq = q + in_amount;
                let nb = k / nq;
                match st.0.spec_swap(st.1, false) {
                    Some(back) => {
                        // Selling the exact output restores the base
                        // reserve, so the new quote reserve is k / b.
                        assert(nb + st.1 == b);
                        assert(q * b <= k);
                        vstd::arithmetic::div_mod::lemma_div_is_ordered(q * b, k, b);
                        vstd::arithmetic::div_mod::lemma_div_by_multiple(q, b);
                        assert(q <= k / b);
                    },
                    None => {},
                }
            },
            None => {},
        }
    }

    /// The current quote price scaled by `10^decimals`:
    /// `floor(quote * 10^decimals / base)`.
    pub open spec fn spec_quote_price(self, quote_decimals: u8) -> Option<u128> {
        if spec_pow10(quote_decimals as nat) > u128::MAX {
            None
        } else {
            math::spec_mul_ratio(
                self.reserves.quote,
                spec_pow10(quote_decimals as nat) as u128,
                self.reserves.base,
            )
        }
    }

    pub fn calc_quote_price(&self, quote_decimals: u8) -> (r: Result<u128, ContractError>)
        ensures
            match self.spec_quote_price(quote_decimals) {
                Some(v) => r matches Ok(p) && p == v,
                None => r matches Err(e) && e is InternalError,
            },
    {
        let scale = pow10_u128(quote_decimals)?;
        math::mul_ratio_u128(self.reserves.quote, scale, self.reserves.base)
    }
}

impl OhlcBar {
    /// An empty bar for the bucket starting at `t`.
    pub fn new(t: u64) -> (r: OhlcBar)
        ensures
            r == (OhlcBar { o: 0, c: 0, h: 0, l: 0, v: 0, t, n: 0 }),
    {
        OhlcBar { o: 0, c: 0, h: 0, l: 0, v: 0, t, n: 0 }
    }

    /// What folding one trade into this bar yields: the first trade in a
    /// bucket defines the open; later trades only widen the range and move
    /// the close.
    pub open spec fn spec_record(self, price: u128, amount: u128) -> Option<OhlcBar> {
        if self.v + amount > u128::MAX || self.n + 1 > u32::MAX {
            None
        } else {
            let ranged = if self.n > 0 {
                OhlcBar {
                    h: if price > self.h { price } else { self.h },
                    l: if price < self.l { price } else { self.l },
                    ..self
                }
            } else {
                OhlcBar { o: price, h: price, l: price, ..self }
            };
            Some(OhlcBar {
                c: price,
                v: (self.v + amount) as u128,
                n: (self.n + 1) as u32,
                ..ranged
            })
        }
    }

    /// Fold one trade at `price` with volume `amount` into this bar.
    pub fn record(self, price: u128, amount: u128) -> (r: Result<OhlcBar, ContractError>)
        ensures
            match self.spec_record(price, amount) {
                Some(b) => r matches Ok(v) && v == b,
                None => r matches Err(e) && e is InternalError,
            },
    {
        let mut bar = self;
        if bar.n > 0 {
            if price > bar.h {
                bar.h = price;
            }
            if price < bar.l {
                bar.l = price;
            }
        } else {
            bar.o = price;
            bar.h = price;
            bar.l = price;
        }
        bar.c = price;
        bar.v = math::add_u128(bar.v, amount)?;
        bar.n = math::add_u32(bar.n, 1)?;
        Ok(bar)
    }
}

} // verus!
