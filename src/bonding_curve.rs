use vstd::prelude::*;

use crate::errors::AgentFactoryError;

verus! {

/// Lamports in one SOL.
pub const LAMPORTS_PER_SOL: u64 = 1_000_000_000;

/// Base units in one whole token (nine decimals).
pub const TOKEN_DECIMALS: u64 = 1_000_000_000;

/// Fixed-point scale of prices: lamports per whole token.
pub const PRICE_SCALE: u64 = 1_000_000_000;

/// Reserve state of one market priced by the constant-product rule.
///
/// The virtual reserves only price trades; the real reserves track what the
/// pool actually holds.
#[derive(Debug, Clone, Copy, PartialEq, Eq, Structural)]
pub struct BondingCurve {
    pub virtual_sol_reserves: u64,
    pub virtual_token_reserves: u64,
    pub real_sol_reserves: u64,
    pub real_token_reserves: u64,
    pub graduation_threshold: u64,
    pub bonding_curve_supply: u64,
    pub total_supply: u64,
}

impl BondingCurve {
    /// The launch state of every market: 30 SOL and 1.073B tokens of virtual
    /// reserves, 800M tokens in the pool, 1B tokens in all, graduation at
    /// 30,000 SOL.
    pub open spec fn launch() -> BondingCurve {
        BondingCurve {
            virtual_sol_reserves: 30_000_000_000,
            virtual_token_reserves: 1_073_000_000_000_000_000,
            real_sol_reserves: 0,
            real_token_reserves: 800_000_000_000_000_000,
            graduation_threshold: 30_000_000_000_000,
            bonding_curve_supply: 800_000_000_000_000_000,
            total_supply: 1_000_000_000_000_000_000,
        }
    }

    /// A curve in its launch state.
    pub fn new() -> (r: BondingCurve)
        ensures
            r == BondingCurve::launch(),
            r.wf(),
    {
        BondingCurve {
            virtual_sol_reserves: 30 * LAMPORTS_PER_SOL,
            virtual_token_reserves: 1_073_000_000 * TOKEN_DECIMALS,
            real_sol_reserves: 0,
            real_token_reserves: 800_000_000 * TOKEN_DECIMALS,
            graduation_threshold: 30_000 * LAMPORTS_PER_SOL,
            bonding_curve_supply: 800_000_000 * TOKEN_DECIMALS,
            total_supply: 1_000_000_000 * TOKEN_DECIMALS,
        }
    }

    /// The pool never holds more tokens than its supply.
    pub open spec fn wf(self) -> bool {
        self.real_token_reserves <= self.bonding_curve_supply
    }

    /// The constant product `k` of the virtual reserves.
    pub open spec fn product(self) -> int {
        self.virtual_sol_reserves * self.virtual_token_reserves
    }

    /// Tokens paid out for `sol_amount` lamports: the virtual token reserve
    /// minus what keeps the product once the SOL reserve has grown.
    pub open spec fn buy_output(self, sol_amount: u64) -> int {
        self.virtual_token_reserves - self.product() / (self.virtual_sol_reserves + sol_amount)
    }

    /// What `calculate_buy` returns.
    pub open spec fn buy_quote(self, sol_amount: u64) -> Result<u64, AgentFactoryError> {
        let new_sol = self.virtual_sol_reserves + sol_amount;
        if new_sol > u64::MAX || new_sol == 0 {
            Err(AgentFactoryError::MathOverflow)
        } else {
            Ok(self.buy_output(sol_amount) as u64)
        }
    }

    /// Tokens bought for `sol_amount` lamports, by the constant-product rule.
    pub fn calculate_buy(&self, sol_amount: u64) -> (r: Result<u64, AgentFactoryError>)
        ensures
            r == self.buy_quote(sol_amount),
            r is Ok ==> 0 <= self.buy_output(sol_amount) <= self.virtual_token_reserves,
    {
        let vs = self.virtual_sol_reserves;
        let vt = self.virtual_token_reserves;
        if vs > u64::MAX - sol_amount {
            return Err(AgentFactoryError::MathOverflow);
        }
        let new_sol = vs + sol_amount;
        if new_sol == 0 {
            return Err(AgentFactoryError::MathOverflow);
        }
        proof {
            lemma_product_fits(vs, vt);
            lemma_div_shrinks(vs as int, vt as int, new_sol as int);
        }
        let product: u128 = (vs as u128) * (vt as u128);
        let new_token = (product / (new_sol as u128)) as u64;
        // The quotient is at most `vt`, as the proof above shows; the guard
        // stays so that no reordering of this code can underflow.
        if new_token > vt {
            return Err(AgentFactoryError::InsufficientLiquidity);
        }
        Ok(vt - new_token)
    }

    /// Lamports paid out for `token_amount` tokens: the virtual SOL reserve
    /// minus what keeps the product once the token reserve has grown.
    pub open spec fn sell_output(self, token_amount: u64) -> int {
        self.virtual_sol_reserves - self.product() / (self.virtual_token_reserves + token_amount)
    }

    /// What `calculate_sell` returns.
    pub open spec fn sell_quote(self, token_amount: u64) -> Result<u64, AgentFactoryError> {
        let new_token = self.virtual_token_reserves + token_amount;
        if new_token > u64::MAX || new_token == 0 {
            Err(AgentFactoryError::MathOverflow)
        } else {
            Ok(self.sell_output(token_amount) as u64)
        }
    }

    /// Lamports returned for `token_amount` tokens, by the constant-product rule.
    pub fn calculate_sell(&self, token_amount: u64) -> (r: Result<u64, AgentFactoryError>)
        ensures
            r == self.sell_quote(token_amount),
            r is Ok ==> 0 <= self.sell_output(token_amount) <= self.virtual_sol_reserves,
    {
        let vs = self.virtual_sol_reserves;
        let vt = self.virtual_token_reserves;
        if vt > u64::MAX - token_amount {
            return Err(AgentFactoryError::MathOverflow);
        }
        let new_token = vt + token_amount;
        if new_token == 0 {
            return Err(AgentFactoryError::MathOverflow);
        }
        proof {
            lemma_product_fits(vs, vt);
            assert(vs * vt == vt * vs) by (nonlinear_arith);
            lemma_div_shrinks(vt as int, vs as int, new_token as int);
        }
        let product: u128 = (vs as u128) * (vt as u128);
        let new_sol = (product / (new_token as u128)) as u64;
        // The quotient is at most `vs`, as the proof above shows.
        if new_sol > vs {
            return Err(AgentFactoryError::InsufficientLiquidity);
        }
        Ok(vs - new_sol)
    }

    /// The curve after a buy of `tokens_out` tokens for `sol_amount` lamports,
    /// or the failure of the first checked step that does not fit.
    pub open spec fn after_buy(self, sol_amount: u64, tokens_out: u64) -> Result<BondingCurve, AgentFactoryError> {
        if self.virtual_sol_reserves + sol_amount > u64::MAX
            || self.virtual_token_reserves < tokens_out
            || self.real_sol_reserves + sol_amount > u64::MAX
            || self.real_token_reserves < tokens_out {
            Err(AgentFactoryError::MathOverflow)
        } else {
            Ok(BondingCurve {
                virtual_sol_reserves: (self.virtual_sol_reserves + sol_amount) as u64,
                virtual_token_reserves: (self.virtual_token_reserves - tokens_out) as u64,
                real_sol_reserves: (self.real_sol_reserves + sol_amount) as u64,
                real_token_reserves: (self.real_token_reserves - tokens_out) as u64,
                ..self
            })
        }
    }

    /// The curve after a sale of `token_amount` tokens for `sol_out` lamports,
    /// or the failure of the first checked step that does not fit. A sale that
    /// would leave more tokens in the pool than its supply is refused.
    pub open spec fn after_sell(self, token_amount: u64, sol_out: u64) -> Result<BondingCurve, AgentFactoryError> {
        if self.virtual_token_reserves + token_amount > u64::MAX
            || self.virtual_sol_reserves < sol_out
            || self.real_token_reserves + token_amount > u64::MAX
            || self.real_sol_reserves < sol_out {
            Err(AgentFactoryError::MathOverflow)
        } else if self.real_token_reserves + token_amount > self.bonding_curve_supply {
            Err(AgentFactoryError::InvalidSellAmount)
        } else {
            Ok(BondingCurve {
                virtual_token_reserves: (self.virtual_token_reserves + token_amount) as u64,
                virtual_sol_reserves: (self.virtual_sol_reserves - sol_out) as u64,
                real_token_reserves: (self.real_token_reserves + token_amount) as u64,
                real_sol_reserves: (self.real_sol_reserves - sol_out) as u64,
                ..self
            })
        }
    }

    /// Moves the reserves by a settled buy. On failure nothing changes.
    pub fn update_after_buy(&mut self, sol_amount: u64, tokens_out: u64) -> (r: Result<(), AgentFactoryError>)
        ensures
            match old(self).after_buy(sol_amount, tokens_out) {
                Ok(next) => r is Ok && *final(self) == next,
                Err(e) => r == Err::<(), AgentFactoryError>(e) && *final(self) == *old(self),
            },
    {
        if self.virtual_sol_reserves > u64::MAX - sol_amount
            || self.virtual_token_reserves < tokens_out
            || self.real_sol_reserves > u64::MAX - sol_amount
            || self.real_token_reserves < tokens_out {
            return Err(AgentFactoryError::MathOverflow);
        }
        self.virtual_sol_reserves = self.virtual_sol_reserves + sol_amount;
        self.virtual_token_reserves = self.virtual_token_reserves - tokens_out;
        self.real_sol_reserves = self.real_sol_reserves + sol_amount;
        self.real_token_reserves = self.real_token_reserves - tokens_out;
        Ok(())
    }

    /// Moves the reserves by a settled sale. On failure nothing changes.
    pub fn update_after_sell(&mut self, token_amount: u64, sol_out: u64) -> (r: Result<(), AgentFactoryError>)
        ensures
            match old(self).after_sell(token_amount, sol_out) {
                Ok(next) => r is Ok && *final(self) == next,
                Err(e) => r == Err::<(), AgentFactoryError>(e) && *final(self) == *old(self),
            },
    {
        if self.virtual_token_reserves > u64::MAX - token_amount
            || self.virtual_sol_reserves < sol_out
            || self.real_token_reserves > u64::MAX - token_amount
            || self.real_sol_reserves < sol_out {
            return Err(AgentFactoryError::MathOverflow);
        }
        if self.real_token_reserves + token_amount > self.bonding_curve_supply {
            return Err(AgentFactoryError::InvalidSellAmount);
        }
        self.virtual_token_reserves = self.virtual_token_reserves + token_amount;
        self.virtual_sol_reserves = self.virtual_sol_reserves - sol_out;
        self.real_token_reserves = self.real_token_reserves + token_amount;
        self.real_sol_reserves = self.real_sol_reserves - sol_out;
        Ok(())
    }

    /// Price in lamports per whole token, truncated to 64 bits as the
    /// division leaves it; zero when the token reserve is empty.
    pub open spec fn price(self) -> u64 {
        if self.virtual_token_reserves == 0 {
            0
        } else {
            (((self.virtual_sol_reserves * PRICE_SCALE) / (self.virtual_token_reserves as int))
                % 0x1_0000_0000_0000_0000) as u64
        }
    }

    /// Tokens sold out of the pool so far; zero if the pool holds more than
    /// its supply.
    pub open spec fn circulating_supply(self) -> int {
        if self.bonding_curve_supply >= self.real_token_reserves {
            self.bonding_curve_supply - self.real_token_reserves
        } else {
            0
        }
    }

    /// Market capitalisation in lamports, truncated to 64 bits.
    pub open spec fn market_cap(self) -> u64 {
        (((self.circulating_supply() * self.price()) / (PRICE_SCALE as int)) % 0x1_0000_0000_0000_0000) as u64
    }

    /// Current price: `virtual_sol * PRICE_SCALE / virtual_token`.
    pub fn get_current_price(&self) -> (r: u64)
        ensures
            r == self.price(),
    {
        if self.virtual_token_reserves == 0 {
            return 0;
        }
        proof {
            lemma_product_fits(self.virtual_sol_reserves, PRICE_SCALE);
        }
        let scaled: u128 = (self.virtual_sol_reserves as u128) * (PRICE_SCALE as u128);
        let q: u128 = scaled / (self.virtual_token_reserves as u128);
        (q % 0x1_0000_0000_0000_0000u128) as u64
    }

    /// Market cap: tokens sold out of the pool times the current price.
    pub fn get_market_cap(&self) -> (r: u64)
        ensures
            r == self.market_cap(),
    {
        let price = self.get_current_price();
        let circulating: u64 = if self.bonding_curve_supply >= self.real_token_reserves {
            self.bonding_curve_supply - self.real_token_reserves
        } else {
            0
        };
        proof {
            lemma_product_fits(circulating, price);
        }
        let value: u128 = (circulating as u128) * (price as u128);
        let q: u128 = value / (PRICE_SCALE as u128);
        (q % 0x1_0000_0000_0000_0000u128) as u64
    }
}

impl Default for BondingCurve {
    fn default() -> (r: BondingCurve)
        ensures
            r == BondingCurve::launch(),
    {
        BondingCurve::new()
    }
}

/// For fixed reserves, more SOL never buys fewer tokens; it buys strictly
/// more while `(vs + a) * (vs + b)` stays within the product `k`. A buy pays
/// out less than the whole virtual token reserve exactly when the new SOL
/// reserve does not exceed `k`.
pub proof fn lemma_buy_quote_monotonic(curve: BondingCurve, a: u64, b: u64)
    requires
        0 < a < b,
        curve.virtual_sol_reserves + b <= u64::MAX,
    ensures
        curve.buy_quote(a) is Ok,
        curve.buy_quote(b) is Ok,
        curve.buy_quote(a)->Ok_0 <= curve.buy_quote(b)->Ok_0,
        (curve.virtual_sol_reserves + a) * (curve.virtual_sol_reserves + b) <= curve.product()
            ==> curve.buy_quote(a)->Ok_0 < curve.buy_quote(b)->Ok_0,
        curve.buy_quote(a)->Ok_0 < curve.virtual_token_reserves
            <==> curve.virtual_sol_reserves + a <= curve.product(),
{
    let vs = curve.virtual_sol_reserves as int;
    let vt = curve.virtual_token_reserves as int;
    let k = curve.product();
    let na = vs + a;
    let nb = vs + b;
    lemma_div_shrinks(vs, vt, na);
    lemma_div_shrinks(vs, vt, nb);
    assert(k >= 0) by (nonlinear_arith)
        requires k == vs * vt, vs >= 0, vt >= 0;
    vstd::arithmetic::div_mod::lemma_div_is_ordered_by_denominator(k, na, nb);
    if na * nb <= k {
        lemma_floor_gap(k, na, nb);
    }
    if na <= k {
        vstd::arithmetic::div_mod::lemma_div_non_zero(k, na);
    } else {
        vstd::arithmetic::div_mod::lemma_basic_div(k, na);
    }
}

/// Every successful reserve update keeps the pool within its supply.
pub proof fn lemma_updates_keep_supply(curve: BondingCurve, amount: u64, paid: u64)
    requires
        curve.wf(),
    ensures
        curve.after_buy(paid, amount) matches Ok(next) ==> next.wf(),
        curve.after_sell(amount, paid) matches Ok(next) ==> next.wf(),
{
}

/// Settling a quoted buy at its full amount keeps the constant product up to
/// what the division drops: `k - (vs + sol) < k' <= k`.
pub proof fn lemma_buy_keeps_product(curve: BondingCurve, sol_amount: u64)
    requires
        curve.buy_quote(sol_amount) is Ok,
        curve.after_buy(sol_amount, curve.buy_quote(sol_amount)->Ok_0) is Ok,
    ensures
        ({
            let next = curve.after_buy(sol_amount, curve.buy_quote(sol_amount)->Ok_0)->Ok_0;
            &&& curve.product() - (curve.virtual_sol_reserves + sol_amount) < next.product()
            &&& next.product() <= curve.product()
        }),
{
    let n = curve.virtual_sol_reserves + sol_amount;
    let k = curve.product();
    lemma_div_shrinks(curve.virtual_sol_reserves as int, curve.virtual_token_reserves as int, n);
    vstd::arithmetic::div_mod::lemma_fundamental_div_mod(k, n);
    assert(n * (k / n) == (k / n) * n) by (nonlinear_arith);
}

/// Settling a quoted sale at its full amount keeps the constant product up to
/// what the division drops: `k - (vt + tokens) < k' <= k`.
pub proof fn lemma_sell_keeps_product(curve: BondingCurve, token_amount: u64)
    requires
        curve.sell_quote(token_amount) is Ok,
        curve.after_sell(token_amount, curve.sell_quote(token_amount)->Ok_0) is Ok,
    ensures
        ({
            let next = curve.after_sell(token_amount, curve.sell_quote(token_amount)->Ok_0)->Ok_0;
            &&& curve.product() - (curve.virtual_token_reserves + token_amount) < next.product()
            &&& next.product() <= curve.product()
        }),
{
    let n = curve.virtual_token_reserves + token_amount;
    let k = curve.product();
    assert(k == curve.virtual_token_reserves * curve.virtual_sol_reserves) by (nonlinear_arith)
        requires k == curve.virtual_sol_reserves * curve.virtual_token_reserves;
    lemma_div_shrinks(curve.virtual_token_reserves as int, curve.virtual_sol_reserves as int, n);
    vstd::arithmetic::div_mod::lemma_fundamental_div_mod(k, n);
    assert(n * (k / n) == (k / n) * n) by (nonlinear_arith);
}

/// `k / a` exceeds `k / b` when `a < b` and `a * b <= k`.
proof fn lemma_floor_gap(k: int, a: int, b: int)
    requires
        0 < a < b,
        a * b <= k,
    ensures
        k / a > k / b,
{
    let q = k / b;
    vstd::arithmetic::div_mod::lemma_fundamental_div_mod(k, b);
    vstd::arithmetic::div_mod::lemma_div_is_ordered(a * b, k, b);
    vstd::arithmetic::div_mod::lemma_div_multiples_vanish(a, b);
    assert(a * b == b * a) by (nonlinear_arith);
    assert(q >= a);
    assert(b * q <= k);
    assert(a * (q + 1) <= k) by (nonlinear_arith)
        requires q >= a, b * q <= k, a < b, a > 0;
    vstd::arithmetic::div_mod::lemma_div_is_ordered(a * (q + 1), k, a);
    vstd::arithmetic::div_mod::lemma_div_multiples_vanish(q + 1, a);
}

/// The product of two `u64` values fits in a `u128`.
proof fn lemma_product_fits(a: u64, b: u64)
    ensures
        0 <= a * b <= u128::MAX,
{
    assert(0 <= a * b <= u64::MAX * u64::MAX) by (nonlinear_arith);
}

/// `a * b / n` is at most `b` when the divisor is at least `a`.
proof fn lemma_div_shrinks(a: int, b: int, n: int)
    requires
        0 <= a <= n,
        0 < n,
        0 <= b,
    ensures
        0 <= (a * b) / n <= b,
{
    assert(0 <= a * b <= n * b) by (nonlinear_arith)
        requires 0 <= a <= n, 0 <= b;
    vstd::arithmetic::div_mod::lemma_div_pos_is_pos(a * b, n);
    vstd::arithmetic::div_mod::lemma_div_is_ordered(a * b, n * b, n);
    vstd::arithmetic::div_mod::lemma_div_multiples_vanish(b, n);
}

} // verus!
