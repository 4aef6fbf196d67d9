//! Laws of the quotes: what a trade can never do, whatever the reserves and fees.

use vstd::arithmetic::div_mod::{lemma_div_is_ordered, lemma_div_pos_is_pos, lemma_fundamental_div_mod};
use vstd::prelude::*;

use crate::math::amm::{
    base_for_quote, effective_quote, pool_buy, pool_market_cap_check, pool_sell, pool_sell_inverse,
    quote_for_base, quote_from_base, raw_cost, AmmContext,
};
use crate::math::bonding_curve::{
    cost_before_fees, lemma_product_out_bounds, lesser, net_of_fees, product_out, quote_fee,
    quote_fee_bps, sol_for_tokens, sol_from_tokens, tokens_for_sol, tokens_to_sell, total_curve_bps,
};
use crate::math::fees::{ceiling, curve_fee_bps, fee, has_tier, BondingCurveFeeBps};
use crate::math::utils::mul_div;
use crate::math::QuoteError;
use crate::pubkey::DEFAULT_KEY;
use crate::state::{BondingCurve, FeeConfig, Global};

verus! {

/// A quotient is the greatest number whose product with the divisor stays within
/// the dividend.
proof fn lemma_quotient(a: int, d: int)
    requires
        0 <= a,
        0 < d,
    ensures
        0 <= a / d,
        d * (a / d) <= a < d * (a / d) + d,
{
    lemma_fundamental_div_mod(a, d);
    lemma_div_pos_is_pos(a, d);
}

/// `q <= a / d` wherever `d * q` stays within `a`.
proof fn lemma_quotient_at_least(a: int, d: int, q: int)
    requires
        0 <= a,
        0 < d,
        d * q <= a,
    ensures
        q <= a / d,
{
    lemma_quotient(a, d);
    let p = a / d;
    assert(q <= p) by (nonlinear_arith)
        requires
            d * q <= a,
            a < d * p + d,
            0 < d,
    ;
}

/// `a / d <= q` wherever `a` stays within `d * q`.
proof fn lemma_quotient_at_most(a: int, d: int, q: int)
    requires
        0 <= a,
        0 < d,
        a <= d * q,
    ensures
        a / d <= q,
{
    lemma_quotient(a, d);
    let p = a / d;
    assert(p <= q) by (nonlinear_arith)
        requires
            a <= d * q,
            d * p <= a,
            0 < d,
    ;
}

/// A trade against a constant-product curve never lowers the product of its reserves.
pub proof fn law_product_never_falls(reserve_in: int, reserve_out: int, input: int)
    requires
        0 < reserve_in,
        0 <= reserve_out,
        0 <= input,
    ensures
        (reserve_in + input) * (reserve_out - product_out(reserve_in, reserve_out, input))
            >= reserve_in * reserve_out,
{
    let d = reserve_in + input;
    let out = product_out(reserve_in, reserve_out, input);
    assert(0 <= input * reserve_out) by (nonlinear_arith)
        requires
            0 <= input,
            0 <= reserve_out,
    ;
    lemma_quotient(input * reserve_out, d);
    assert(d * (reserve_out - out) >= reserve_in * reserve_out) by (nonlinear_arith)
        requires
            d == reserve_in + input,
            d * out <= input * reserve_out,
    ;
}

/// Selling back at once what was bought never returns more than was paid.
pub proof fn law_round_trip_never_profits(reserve_in: int, reserve_out: int, input: int)
    requires
        0 < reserve_in,
        0 < reserve_out,
        0 <= input,
    ensures
        ({
            let bought = product_out(reserve_in, reserve_out, input);
            product_out(reserve_out - bought, reserve_in + input, bought) <= input
        }),
{
    let d = reserve_in + input;
    let bought = product_out(reserve_in, reserve_out, input);
    assert(0 <= input * reserve_out) by (nonlinear_arith)
        requires
            0 <= input,
            0 <= reserve_out,
    ;
    lemma_quotient(input * reserve_out, d);
    assert(0 <= bought * d && bought * d <= reserve_out * input) by (nonlinear_arith)
        requires
            0 <= bought,
            0 < d,
            d * bought <= input * reserve_out,
    ;
    lemma_quotient_at_most(bought * d, reserve_out, input);
}

/// A larger input never gives less.
pub proof fn law_output_grows_with_input(
    reserve_in: int,
    reserve_out: int,
    input: int,
    more: int,
)
    requires
        0 < reserve_in,
        0 <= reserve_out,
        0 <= input <= more,
    ensures
        product_out(reserve_in, reserve_out, input) <= product_out(reserve_in, reserve_out, more),
{
    let d = reserve_in + input;
    let e = reserve_in + more;
    let out = product_out(reserve_in, reserve_out, input);
    assert(0 <= input * reserve_out && 0 <= more * reserve_out) by (nonlinear_arith)
        requires
            0 <= input <= more,
            0 <= reserve_out,
    ;
    lemma_quotient(input * reserve_out, d);
    lemma_product_out_bounds(reserve_in, reserve_out, input);
    assert(e * out <= more * reserve_out) by (nonlinear_arith)
        requires
            d * out <= input * reserve_out,
            d == reserve_in + input,
            e == reserve_in + more,
            input <= more,
            out <= reserve_out,
    ;
    lemma_quotient_at_least(more * reserve_out, e, out);
}

/// A deeper quote side pays more for the same sale and sells less for the same payment.
pub proof fn law_depth_favours_sellers(base: int, shallow: int, deep: int, amount: int)
    requires
        0 < base,
        0 < shallow <= deep,
        0 <= amount,
    ensures
        product_out(base, shallow, amount) <= product_out(base, deep, amount),
        product_out(deep, base, amount) <= product_out(shallow, base, amount),
{
    assert(0 <= amount * shallow <= amount * deep && 0 <= amount * base) by (nonlinear_arith)
        requires
            0 < base,
            0 < shallow <= deep,
            0 <= amount,
    ;
    lemma_div_is_ordered(amount * shallow, amount * deep, base + amount);
    vstd::arithmetic::div_mod::lemma_div_is_ordered_by_denominator(
        amount * base,
        shallow + amount,
        deep + amount,
    );
}

/// What the inverse of a sale asks for is the right number of tokens up to
/// rounding: that many fetch no more than the target, one more fetches it.
pub proof fn law_inverse_brackets_the_target(sol_reserve: u64, token_reserve: u64, sol_out: u64)
    requires
        0 < token_reserve,
        sol_out < sol_reserve,
    ensures
        tokens_to_sell(sol_reserve as int, token_reserve as int, sol_out as int) matches Ok(tokens)
            && {
            &&& product_out(token_reserve as int, sol_reserve as int, tokens as int) <= sol_out
            &&& sol_out <= product_out(token_reserve as int, sol_reserve as int, tokens + 1)
        },
{
    let s = sol_out as int;
    let vs = sol_reserve as int;
    let vt = token_reserve as int;
    assert(0 <= s * vt <= u64::MAX * u64::MAX) by (nonlinear_arith)
        requires
            0 <= s <= u64::MAX,
            0 <= vt <= u64::MAX,
    ;
    lemma_quotient(s * vt, vs - s);
    let t = s * vt / (vs - s);
    assert(s * vt <= (vs - s) * (s * vt)) by (nonlinear_arith)
        requires
            1 <= vs - s,
            0 <= s * vt,
    ;
    lemma_quotient_at_most(s * vt, vs - s, s * vt);
    assert(t * vs <= (vt + t) * s && 0 <= t * vs) by (nonlinear_arith)
        requires
            (vs - s) * t <= s * vt,
            0 <= t,
            0 <= vs,
    ;
    lemma_quotient_at_most(t * vs, vt + t, s);
    let u = t + 1;
    assert((vt + u) * s <= u * vs && 0 <= u * vs) by (nonlinear_arith)
        requires
            s * vt < (vs - s) * t + (vs - s),
            u == t + 1,
            0 <= t,
            0 <= vs,
    ;
    lemma_quotient_at_least(u * vs, vt + u, s);
}

/// A quote without fees is the constant-product output, and never overflows.
pub proof fn law_fee_less_quote(reserve_in: u64, reserve_out: u64, input: u64)
    requires
        0 < reserve_in + input,
    ensures
        mul_div(input as int, reserve_out as int, reserve_in + input) == Ok::<u128, QuoteError>(
            product_out(reserve_in as int, reserve_out as int, input as int) as u128,
        ),
        0 <= product_out(reserve_in as int, reserve_out as int, input as int) <= reserve_out,
{
    assert(0 <= input * reserve_out <= u64::MAX * u64::MAX) by (nonlinear_arith)
        requires
            0 <= input <= u64::MAX,
            0 <= reserve_out <= u64::MAX,
    ;
    lemma_product_out_bounds(reserve_in as int, reserve_out as int, input as int);
}

/// Where the virtual figure is zero, a pool prices on its raw balance.
pub proof fn law_no_virtual_reserves(quote: u64)
    requires
        0 < quote,
    ensures
        effective_quote(quote, 0) == Ok::<u64, QuoteError>(quote),
{
}

/// Pricing on a raw balance and a virtual figure is pricing on their sum.
pub proof fn law_prices_on_effective_reserves(
    base: u64,
    quote: u64,
    virtual_quote: i128,
    amount: u64,
    target: u128,
    bps: u16,
)
    ensures
        effective_quote(quote, virtual_quote) matches Ok(effective) ==> {
            &&& pool_sell(base, quote, virtual_quote, amount) == pool_sell(
                base,
                effective,
                0,
                amount,
            )
            &&& pool_buy(base, quote, virtual_quote, amount) == pool_buy(base, effective, 0, amount)
            &&& pool_sell_inverse(base, quote, virtual_quote, amount) == pool_sell_inverse(
                base,
                effective,
                0,
                amount,
            )
            &&& pool_market_cap_check(base, quote, virtual_quote, target, bps)
                == pool_market_cap_check(base, effective, 0, target, bps)
        },
{
}

/// The same context with the sum of its quote reserves as the raw balance.
pub open spec fn with_effective_reserve<'a>(ctx: AmmContext<'a>, effective: u64) -> AmmContext<'a> {
    AmmContext { quote_reserve: effective, virtual_quote_reserves: 0, ..ctx }
}

/// Quotes with fees price on the sum too.
pub proof fn law_contexts_price_on_effective_reserves(ctx: AmmContext<'_>, amount: u64)
    ensures
        effective_quote(ctx.quote_reserve, ctx.virtual_quote_reserves) matches Ok(effective) ==> {
            &&& base_for_quote(&ctx, amount) == base_for_quote(
                &with_effective_reserve(ctx, effective),
                amount,
            )
            &&& quote_for_base(&ctx, amount) == quote_for_base(
                &with_effective_reserve(ctx, effective),
                amount,
            )
            &&& quote_from_base(&ctx, amount) == quote_from_base(
                &with_effective_reserve(ctx, effective),
                amount,
            )
        },
{
    if let Ok(effective) = effective_quote(ctx.quote_reserve, ctx.virtual_quote_reserves) {
        let other = with_effective_reserve(ctx, effective);
        assert(ctx.checked_quote() == other.checked_quote());
        assert(ctx.canonical() == other.canonical());
        assert(forall|q: int| ctx.fee_bps(q) == other.fee_bps(q));
    }
}

/// A higher virtual figure pays sellers more and sells buyers less; a lower one,
/// negative included, the reverse.
pub proof fn law_virtual_reserves_shift_depth(
    base: u64,
    quote: u64,
    lower: i128,
    higher: i128,
    amount: u64,
)
    requires
        0 < base,
        lower <= higher,
        effective_quote(quote, lower) is Ok,
        effective_quote(quote, higher) is Ok,
    ensures
        pool_sell(base, quote, lower, amount) matches Ok(less) && pool_sell(
            base,
            quote,
            higher,
            amount,
        ) matches Ok(more) && less <= more,
        pool_buy(base, quote, lower, amount) matches Ok(more) && pool_buy(
            base,
            quote,
            higher,
            amount,
        ) matches Ok(less) && less <= more,
{
    let shallow = (quote + lower) as u64;
    let deep = (quote + higher) as u64;
    law_fee_less_quote(base, shallow, amount);
    law_fee_less_quote(base, deep, amount);
    law_fee_less_quote(shallow, base, amount);
    law_fee_less_quote(deep, base, amount);
    law_depth_favours_sellers(base as int, shallow as int, deep as int, amount as int);
}

/// Buying from a curve without fees and selling back at once never profits.
pub proof fn law_curve_round_trip_never_profits(sol_reserve: u64, token_reserve: u64, sol_in: u64)
    requires
        0 < sol_reserve,
        0 < token_reserve,
        sol_reserve + sol_in <= u64::MAX,
    ensures
        mul_div(sol_in as int, token_reserve as int, sol_reserve + sol_in) matches Ok(tokens) && {
            &&& tokens <= token_reserve
            &&& mul_div(
                tokens as int,
                sol_reserve + sol_in,
                token_reserve - tokens + tokens,
            ) matches Ok(sol_back) && sol_back <= sol_in
        },
{
    law_fee_less_quote(sol_reserve, token_reserve, sol_in);
    let tokens = product_out(sol_reserve as int, token_reserve as int, sol_in as int);
    law_fee_less_quote(
        (token_reserve - tokens) as u64,
        (sol_reserve + sol_in) as u64,
        tokens as u64,
    );
    law_round_trip_never_profits(sol_reserve as int, token_reserve as int, sol_in as int);
}

/// Nothing in gives nothing out, and a migrated curve quotes zero.
pub proof fn law_zero_quotes(
    global: &Global,
    fee_config: Option<&FeeConfig>,
    curve: &BondingCurve,
    mint_supply: u64,
    amount: u64,
)
    requires
        amount == 0 || curve.virtual_token_reserves == 0,
    ensures
        tokens_for_sol(global, fee_config, curve, mint_supply, amount) == Ok::<u64, QuoteError>(0),
        sol_for_tokens(global, fee_config, curve, mint_supply, amount) == Ok::<u64, QuoteError>(0),
        sol_from_tokens(global, fee_config, curve, mint_supply, amount) == Ok::<u64, QuoteError>(0),
{
}

/// A curve never sells more than it really holds, nor pays out more than its
/// virtual quote reserves.
pub proof fn law_curve_never_overdraws(
    global: &Global,
    fee_config: Option<&FeeConfig>,
    curve: &BondingCurve,
    mint_supply: u64,
    amount: u64,
)
    ensures
        tokens_for_sol(global, fee_config, curve, mint_supply, amount) matches Ok(tokens) ==> tokens
            <= curve.real_token_reserves,
        sol_from_tokens(global, fee_config, curve, mint_supply, amount) matches Ok(sol) ==> sol
            <= curve.virtual_quote_reserves,
{
    if amount != 0 && curve.virtual_token_reserves != 0 {
        let gross = product_out(
            curve.virtual_token_reserves as int,
            curve.virtual_quote_reserves as int,
            amount as int,
        );
        lemma_product_out_bounds(
            curve.virtual_token_reserves as int,
            curve.virtual_quote_reserves as int,
            amount as int,
        );
        let bps = quote_fee_bps(global, fee_config, curve, mint_supply);
        lemma_quote_fee_nonnegative(curve, bps, gross);
        if curve.virtual_quote_reserves != 0 {
            let total = total_curve_bps(
                curve,
                curve_fee_bps(
                    global,
                    fee_config,
                    mint_supply as int,
                    curve.virtual_quote_reserves as int,
                    curve.virtual_token_reserves as int,
                ),
            );
            lemma_div_pos_is_pos((amount - 1) * 10_000, total + 10_000);
            lemma_product_out_bounds(
                curve.virtual_quote_reserves as int,
                curve.virtual_token_reserves as int,
                net_of_fees(amount as int, total),
            );
        }
    }
}

proof fn lemma_fee_nonnegative(amount: int, bps: int)
    requires
        0 <= amount,
        0 <= bps,
    ensures
        0 <= fee(amount, bps),
{
    assert(0 <= amount * bps) by (nonlinear_arith)
        requires
            0 <= amount,
            0 <= bps,
    ;
}

proof fn lemma_quote_fee_nonnegative(curve: &BondingCurve, bps: BondingCurveFeeBps, amount: int)
    requires
        0 <= amount,
    ensures
        0 <= quote_fee(curve, bps, amount),
{
    lemma_fee_nonnegative(amount, bps.protocol_fee_bps as int);
    lemma_fee_nonnegative(amount, bps.creator_fee_bps as int);
}

/// The same curve without a creator.
pub open spec fn without_creator(curve: &BondingCurve) -> BondingCurve {
    BondingCurve { creator: DEFAULT_KEY, ..*curve }
}

/// Without a creator no creator fee is taken: a sale pays at least as much, and
/// fails on no input on which it succeeds with one.
pub proof fn law_no_creator_no_creator_fee(
    global: &Global,
    fee_config: Option<&FeeConfig>,
    curve: &BondingCurve,
    mint_supply: u64,
    amount: u64,
)
    ensures
        sol_from_tokens(global, fee_config, curve, mint_supply, amount) matches Ok(with) ==> {
            sol_from_tokens(
                global,
                fee_config,
                &without_creator(curve),
                mint_supply,
                amount,
            ) matches Ok(without) && with <= without
        },
        forall|bps: BondingCurveFeeBps, gross: int|
            #[trigger] quote_fee(&without_creator(curve), bps, gross) == fee(
                gross,
                bps.protocol_fee_bps as int,
            ),
{
    let bare = without_creator(curve);
    if amount != 0 && curve.virtual_token_reserves != 0 {
        let gross = product_out(
            curve.virtual_token_reserves as int,
            curve.virtual_quote_reserves as int,
            amount as int,
        );
        lemma_product_out_bounds(
            curve.virtual_token_reserves as int,
            curve.virtual_quote_reserves as int,
            amount as int,
        );
        let bps = quote_fee_bps(global, fee_config, curve, mint_supply);
        assert(bps == quote_fee_bps(global, fee_config, &bare, mint_supply));
        lemma_fee_nonnegative(gross, bps.protocol_fee_bps as int);
        lemma_fee_nonnegative(gross, bps.creator_fee_bps as int);
        assert(quote_fee(&bare, bps, gross) <= quote_fee(curve, bps, gross));
    }
}

/// A purchase of a fixed amount is charged at least what the amount costs before fees.
pub proof fn law_purchases_pay_at_least_the_cost(
    global: &Global,
    fee_config: Option<&FeeConfig>,
    curve: &BondingCurve,
    mint_supply: u64,
    ctx: &AmmContext<'_>,
    amount: u64,
)
    requires
        amount > 0,
        curve.virtual_token_reserves > 0,
    ensures
        sol_for_tokens(global, fee_config, curve, mint_supply, amount) matches Ok(total) ==> total
            >= cost_before_fees(curve, lesser(amount as int, curve.real_token_reserves as int)),
        quote_for_base(ctx, amount) matches Ok(r) ==> ctx.checked_quote() matches Ok(quote)
            && r.total_quote_in >= r.raw_quote_in == raw_cost(
            quote as int,
            ctx.base_reserve as int,
            amount as int,
        ),
{
    let tokens = lesser(amount as int, curve.real_token_reserves as int);
    if tokens < curve.virtual_token_reserves {
        let d = curve.virtual_token_reserves - tokens;
        assert(0 <= tokens * curve.virtual_quote_reserves) by (nonlinear_arith)
            requires
                0 <= tokens,
                0 <= curve.virtual_quote_reserves,
        ;
        lemma_div_pos_is_pos(tokens * curve.virtual_quote_reserves, d);
        lemma_quote_fee_nonnegative(
            curve,
            quote_fee_bps(global, fee_config, curve, mint_supply),
            cost_before_fees(curve, tokens),
        );
    }
    if let Ok(quote) = ctx.checked_quote() {
        if amount < ctx.base_reserve {
            let d = ctx.base_reserve - amount;
            let n = quote * amount;
            assert(0 <= n) by (nonlinear_arith)
                requires
                    0 <= quote,
                    0 <= amount,
                    n == quote * amount,
            ;
            lemma_div_pos_is_pos(n + d - 1, d);
            let raw = raw_cost(quote as int, ctx.base_reserve as int, amount as int);
            let bps = ctx.fee_bps(quote as int);
            lemma_fee_nonnegative(raw, bps.lp_fee_bps as int);
            lemma_fee_nonnegative(raw, bps.protocol_fee_bps as int);
            lemma_fee_nonnegative(raw, bps.creator_fee_bps as int);
        }
    }
}

/// A sale fails for its fees only with a degenerate fee table: one without a tier, or
/// with fees of more than a hundred percent. Dust sells for nothing instead.
pub proof fn law_fees_exceed_only_degenerately(
    global: &Global,
    fee_config: Option<&FeeConfig>,
    curve: &BondingCurve,
    mint_supply: u64,
    ctx: &AmmContext<'_>,
    amount: u64,
)
    ensures
        sol_from_tokens(global, fee_config, curve, mint_supply, amount) == Err::<u64, QuoteError>(
            QuoteError::FeesExceedOutput,
        ) ==> !has_tier(fee_config) || quote_fee_bps(
            global,
            fee_config,
            curve,
            mint_supply,
        ).degenerate(),
        (quote_from_base(ctx, amount) matches Err(e) && e == QuoteError::FeesExceedOutput) ==> (
        !ctx.has_fees() || (ctx.checked_quote() matches Ok(quote) && ctx.fee_bps(
            quote as int,
        ).degenerate())),
{
}

/// A pool sells less than it holds, and pays out at most its effective quote
/// reserve; fees are taken off a sale and added to a purchase.
pub proof fn law_pool_never_overdraws(ctx: &AmmContext<'_>, amount: u64)
    ensures
        base_for_quote(ctx, amount) matches Ok(r) ==> r.base_amount_out < ctx.base_reserve
            && r.effective_quote <= amount,
        quote_from_base(ctx, amount) matches Ok(r) ==> ctx.checked_quote() matches Ok(quote)
            && r.final_quote_out <= r.raw_quote_out <= quote,
        quote_for_base(ctx, amount) is Ok ==> amount < ctx.base_reserve,
{
    if let Ok(quote) = ctx.checked_quote() {
        let base = ctx.base_reserve as int;
        let q = quote as int;
        let bps = ctx.fee_bps(q);
        let raw = product_out(base, q, amount as int);
        lemma_product_out_bounds(base, q, amount as int);
        lemma_fee_nonnegative(raw, bps.lp_fee_bps as int);
        lemma_fee_nonnegative(raw, bps.protocol_fee_bps as int);
        lemma_fee_nonnegative(raw, bps.creator_fee_bps as int);
        let total = ctx.total_bps(bps);
        let net = amount * 10_000 / (10_000 + total);
        lemma_quotient(amount * 10_000, 10_000 + total);
        assert(amount * 10_000 <= (10_000 + total) * amount) by (nonlinear_arith)
            requires
                0 <= total,
                0 <= amount,
        ;
        lemma_quotient_at_most(amount * 10_000, 10_000 + total, amount as int);
        let out = product_out(q, base, net);
        assert(0 <= net * base && net * base < (q + net) * base) by (nonlinear_arith)
            requires
                0 <= net,
                0 < q,
                0 < base,
        ;
        lemma_quotient(net * base, q + net);
        assert(out < base) by (nonlinear_arith)
            requires
                (q + net) * out <= net * base,
                net * base < (q + net) * base,
                0 < q + net,
        ;
    }
}

/// The price of a fixed amount of tokens, before fees, never lowers the product of
/// the pool's reserves.
pub proof fn law_purchase_covers_its_cost(quote: int, base: int, base_out: int)
    requires
        0 <= quote,
        0 <= base_out < base,
    ensures
        (quote + raw_cost(quote, base, base_out)) * (base - base_out) >= quote * base,
{
    let d = base - base_out;
    let n = quote * base_out;
    assert(0 <= n) by (nonlinear_arith)
        requires
            0 <= quote,
            0 <= base_out,
            n == quote * base_out,
    ;
    let raw = ceiling(n, d);
    lemma_quotient(n + d - 1, d);
    assert((quote + raw) * d >= quote * base) by (nonlinear_arith)
        requires
            n + d - 1 < d * raw + d,
            n == quote * base_out,
            d == base - base_out,
    ;
}

/// The price of a fixed amount of tokens on a curve, before fees, never lowers the
/// product of its virtual reserves.
pub proof fn law_curve_purchase_covers_its_cost(curve: &BondingCurve, tokens: int)
    requires
        0 <= tokens < curve.virtual_token_reserves,
    ensures
        (curve.virtual_quote_reserves + cost_before_fees(curve, tokens)) * (
        curve.virtual_token_reserves - tokens) >= curve.virtual_quote_reserves
            * curve.virtual_token_reserves,
{
    let q = curve.virtual_quote_reserves as int;
    let v = curve.virtual_token_reserves as int;
    let d = v - tokens;
    let cost = cost_before_fees(curve, tokens);
    assert(0 <= tokens * q) by (nonlinear_arith)
        requires
            0 <= tokens,
            0 <= q,
    ;
    lemma_quotient(tokens * q, d);
    assert((q + cost) * d >= q * v) by (nonlinear_arith)
        requires
            tokens * q < d * (cost - 1) + d,
            d == v - tokens,
    ;
}

/// The payment of a purchase that reaches the curve, fees taken off.
pub open spec fn payment_to_curve(
    global: &Global,
    fee_config: Option<&FeeConfig>,
    curve: &BondingCurve,
    mint_supply: u64,
    sol_amount: u64,
) -> int {
    net_of_fees(
        sol_amount as int,
        total_curve_bps(
            curve,
            curve_fee_bps(
                global,
                fee_config,
                mint_supply as int,
                curve.virtual_quote_reserves as int,
                curve.virtual_token_reserves as int,
            ),
        ),
    )
}

proof fn lemma_payment_to_curve(
    global: &Global,
    fee_config: Option<&FeeConfig>,
    curve: &BondingCurve,
    mint_supply: u64,
    sol_amount: u64,
)
    requires
        sol_amount > 0,
    ensures
        0 <= payment_to_curve(global, fee_config, curve, mint_supply, sol_amount) < sol_amount,
{
    let total = total_curve_bps(
        curve,
        curve_fee_bps(
            global,
            fee_config,
            mint_supply as int,
            curve.virtual_quote_reserves as int,
            curve.virtual_token_reserves as int,
        ),
    );
    let whole = (sol_amount - 1) * 10_000;
    assert(whole <= (total + 10_000) * (sol_amount - 1)) by (nonlinear_arith)
        requires
            whole == (sol_amount - 1) * 10_000,
            0 <= total,
            0 <= sol_amount - 1,
    ;
    lemma_quotient(whole, total + 10_000);
    lemma_quotient_at_most(whole, total + 10_000, sol_amount - 1);
}

/// Fees never favour the trader: with them a purchase gives no more tokens, and a sale
/// no more lamports, than without.
pub proof fn law_fees_never_favour_the_trader(
    global: &Global,
    fee_config: Option<&FeeConfig>,
    curve: &BondingCurve,
    mint_supply: u64,
    amount: u64,
)
    requires
        amount > 0,
    ensures
        tokens_for_sol(global, fee_config, curve, mint_supply, amount) matches Ok(tokens) ==> tokens
            <= product_out(
            curve.virtual_quote_reserves as int,
            curve.virtual_token_reserves as int,
            amount as int,
        ),
        sol_from_tokens(global, fee_config, curve, mint_supply, amount) matches Ok(sol) ==> sol
            <= product_out(
            curve.virtual_token_reserves as int,
            curve.virtual_quote_reserves as int,
            amount as int,
        ),
{
    let q = curve.virtual_quote_reserves as int;
    let v = curve.virtual_token_reserves as int;
    let net = payment_to_curve(global, fee_config, curve, mint_supply, amount);
    lemma_payment_to_curve(global, fee_config, curve, mint_supply, amount);
    lemma_product_out_bounds(q, v, amount as int);
    lemma_product_out_bounds(v, q, amount as int);
    if q > 0 {
        lemma_product_out_bounds(q, v, net);
        law_output_grows_with_input(q, v, net, amount as int);
    }
    let gross = product_out(v, q, amount as int);
    lemma_quote_fee_nonnegative(
        curve,
        quote_fee_bps(global, fee_config, curve, mint_supply),
        gross,
    );
}

/// The curve after a purchase that paid `payment` into it and took `tokens` out.
pub open spec fn after_purchase(curve: &BondingCurve, payment: u64, tokens: u64) -> BondingCurve {
    BondingCurve {
        virtual_quote_reserves: (curve.virtual_quote_reserves + payment) as u64,
        virtual_token_reserves: (curve.virtual_token_reserves - tokens) as u64,
        ..*curve
    }
}

/// Buying and selling back at once loses: whatever the fees, the sale returns less
/// than was paid.
pub proof fn law_buy_and_sell_back_loses(
    global: &Global,
    fee_config: Option<&FeeConfig>,
    curve: &BondingCurve,
    mint_supply: u64,
    sol_amount: u64,
)
    requires
        sol_amount > 0,
        curve.virtual_token_reserves > 0,
        curve.virtual_quote_reserves + sol_amount <= u64::MAX,
    ensures
        tokens_for_sol(global, fee_config, curve, mint_supply, sol_amount) matches Ok(tokens) ==> ({
            let payment = payment_to_curve(global, fee_config, curve, mint_supply, sol_amount);
            sol_from_tokens(
                global,
                fee_config,
                &after_purchase(curve, payment as u64, tokens),
                mint_supply,
                tokens,
            ) matches Ok(back) ==> back < sol_amount
        }),
{
    if let Ok(tokens) = tokens_for_sol(global, fee_config, curve, mint_supply, sol_amount) {
        let q = curve.virtual_quote_reserves as int;
        let v = curve.virtual_token_reserves as int;
        let t = tokens as int;
        let net = payment_to_curve(global, fee_config, curve, mint_supply, sol_amount);
        lemma_payment_to_curve(global, fee_config, curve, mint_supply, sol_amount);
        let after = after_purchase(curve, net as u64, tokens);
        let bps = quote_fee_bps(global, fee_config, &after, mint_supply);
        lemma_product_out_bounds(q, v, net);
        let d = q + net;
        assert(0 <= net * v) by (nonlinear_arith)
            requires
                0 <= net,
                0 <= v,
        ;
        lemma_quotient(net * v, d);
        let most = product_out(q, v, net);
        assert(t <= most <= v);
        if t < v && t > 0 {
            assert(0 <= t * d && t * d <= v * net) by (nonlinear_arith)
                requires
                    0 <= t <= most,
                    0 < d,
                    d * most <= net * v,
            ;
            lemma_quotient_at_most(t * d, v, net);
            let gross = product_out(v - t, d, t);
            assert(gross == t * d / v);
            lemma_product_out_bounds(v - t, d, t);
            lemma_quote_fee_nonnegative(&after, bps, gross);
        }
    }
}

/// The pool after a purchase that paid `payment` into it and took `base_out` out.
pub open spec fn pool_after_purchase<'a>(ctx: AmmContext<'a>, payment: u64, base_out: u64) -> AmmContext<
    'a,
> {
    AmmContext {
        quote_reserve: (ctx.quote_reserve + payment) as u64,
        base_reserve: (ctx.base_reserve - base_out) as u64,
        ..ctx
    }
}

/// In a pool too, selling back at once what was bought never returns more than was paid.
pub proof fn law_pool_round_trip_never_profits(ctx: AmmContext<'_>, quote_in: u64)
    requires
        ctx.quote_reserve + quote_in <= u64::MAX,
        ctx.checked_quote() matches Ok(quote) ==> quote + quote_in <= u64::MAX,
    ensures
        base_for_quote(&ctx, quote_in) matches Ok(bought) ==> (quote_from_base(
            &pool_after_purchase(ctx, bought.effective_quote, bought.base_amount_out),
            bought.base_amount_out,
        ) matches Ok(sold) ==> sold.final_quote_out <= quote_in),
{
    if let Ok(bought) = base_for_quote(&ctx, quote_in) {
        law_pool_never_overdraws(&ctx, quote_in);
        let q = ctx.checked_quote()->Ok_0 as int;
        let b = ctx.base_reserve as int;
        let out = bought.base_amount_out;
        let net = quote_in * 10_000 / (10_000 + ctx.total_bps(ctx.fee_bps(q)));
        let after = pool_after_purchase(ctx, bought.effective_quote, out);
        lemma_quotient(quote_in * 10_000, 10_000 + ctx.total_bps(ctx.fee_bps(q)));
        assert(quote_in * 10_000 <= (10_000 + ctx.total_bps(ctx.fee_bps(q))) * quote_in)
            by (nonlinear_arith)
            requires
                0 <= quote_in,
                0 <= ctx.total_bps(ctx.fee_bps(q)),
        ;
        lemma_quotient_at_most(
            quote_in * 10_000,
            10_000 + ctx.total_bps(ctx.fee_bps(q)),
            quote_in as int,
        );
        assert(bought.effective_quote == net);
        lemma_product_out_bounds(q, b, net);
        assert(out == product_out(q, b, net));
        assert(after.checked_quote() == Ok::<u64, QuoteError>((q + net) as u64));
        law_round_trip_never_profits(q, b, net);
        let raw = product_out(b - out, q + net, out as int);
        assert(raw <= net);
        law_pool_never_overdraws(&after, out);
        lemma_product_out_bounds(b - out, q + net, out as int);
    }
}

} // verus!
