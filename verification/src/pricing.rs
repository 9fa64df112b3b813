//! The unit price curve.

use vstd::prelude::*;
use vstd::arithmetic::mul::*;
use vstd::arithmetic::power::*;
use crate::error::ErrorCode;
use crate::product::Product;

verus! {

/// Base price of the standard curve: 6,000 yield tokens of six decimals.
pub const COW_BASE_PRICE: u64 = 6_000_000_000;

/// Pivot of the standard curve, in cows.
pub const PRICE_PIVOT: u64 = 3_000;

/// The price of one cow as a function of the number of cows ever sold:
/// `base_price * (1 + (cows / pivot) ^ steepness)`, rounded down, where the
/// steepness is the ratio of two whole numbers.
#[derive(Clone, Copy, Debug)]
pub struct PriceCurve {
    base_price: u64,
    pivot: u64,
    steepness_num: u8,
    steepness_den: u8,
}

impl PriceCurve {
    #[verifier::type_invariant]
    spec fn inv(self) -> bool {
        self.pivot > 0 && self.steepness_num > 0 && self.steepness_den > 0
    }

    /// Whether the curve is usable: its pivot and both parts of its
    /// steepness are positive. Every curve that `new` returns is.
    pub closed spec fn valid(&self) -> bool {
        self.pivot > 0 && self.steepness_num > 0 && self.steepness_den > 0
    }

    /// Price of a cow while none has been sold.
    pub closed spec fn spec_base_price(&self) -> u64 {
        self.base_price
    }

    /// Number of cows sold at which the price has doubled.
    pub closed spec fn spec_pivot(&self) -> u64 {
        self.pivot
    }

    /// Numerator of the steepness.
    pub closed spec fn spec_steepness_num(&self) -> u8 {
        self.steepness_num
    }

    /// Denominator of the steepness.
    pub closed spec fn spec_steepness_den(&self) -> u8 {
        self.steepness_den
    }

    /// Makes a curve. A pivot of zero, or a steepness with a zero numerator
    /// or denominator, is rejected with `InvalidAmount`.
    pub fn new(base_price: u64, pivot: u64, steepness_num: u8, steepness_den: u8) -> (r: Result<
        PriceCurve,
        ErrorCode,
    >)
        ensures
            match r {
                Ok(c) => {
                    &&& pivot > 0 && steepness_num > 0 && steepness_den > 0
                    &&& c.valid()
                    &&& c.spec_base_price() == base_price
                    &&& c.spec_pivot() == pivot
                    &&& c.spec_steepness_num() == steepness_num
                    &&& c.spec_steepness_den() == steepness_den
                },
                Err(e) => {
                    &&& pivot == 0 || steepness_num == 0 || steepness_den == 0
                    &&& e == ErrorCode::InvalidAmount
                },
            },
    {
        if pivot == 0 || steepness_num == 0 || steepness_den == 0 {
            return Err(ErrorCode::InvalidAmount);
        }
        Ok(PriceCurve { base_price, pivot, steepness_num, steepness_den })
    }

    /// The curve that the system was first run with: a base price of 6,000
    /// yield tokens of six decimals, doubled at 3,000 cows, steepness 2.
    pub fn standard() -> (c: PriceCurve)
        ensures
            c.valid(),
            c.spec_base_price() == COW_BASE_PRICE,
            c.spec_pivot() == PRICE_PIVOT,
            c.spec_steepness_num() == 2,
            c.spec_steepness_den() == 1,
    {
        PriceCurve {
            base_price: COW_BASE_PRICE,
            pivot: PRICE_PIVOT,
            steepness_num: 2,
            steepness_den: 1,
        }
    }

    /// Price of a cow while none has been sold.
    #[verifier::when_used_as_spec(spec_base_price)]
    pub fn base_price(&self) -> (r: u64)
        ensures
            r == self.spec_base_price(),
    {
        self.base_price
    }

    /// Number of cows sold at which the price has doubled.
    #[verifier::when_used_as_spec(spec_pivot)]
    pub fn pivot(&self) -> (r: u64)
        ensures
            r == self.spec_pivot(),
    {
        self.pivot
    }

    /// Numerator of the steepness.
    #[verifier::when_used_as_spec(spec_steepness_num)]
    pub fn steepness_num(&self) -> (r: u8)
        ensures
            r == self.spec_steepness_num(),
    {
        self.steepness_num
    }

    /// Denominator of the steepness.
    #[verifier::when_used_as_spec(spec_steepness_den)]
    pub fn steepness_den(&self) -> (r: u8)
        ensures
            r == self.spec_steepness_den(),
    {
        self.steepness_den
    }

    /// Whether a premium of `premium` over the base price is at most
    /// `base_price * (cows / pivot) ^ (num / den)`. Both sides are raised to
    /// the power `den` and cleared of the division, which leaves whole
    /// numbers only.
    pub open spec fn within_curve(&self, cows: int, premium: int) -> bool {
        pow(premium, self.steepness_den() as nat) * pow(
            self.pivot() as int,
            self.steepness_num() as nat,
        ) <= pow(self.base_price() as int, self.steepness_den() as nat) * pow(
            cows,
            self.steepness_num() as nat,
        )
    }

    /// Whether `premium` is `base_price * (cows / pivot) ^ (num / den)`
    /// rounded down: the largest whole number within the curve.
    pub open spec fn is_premium(&self, cows: int, premium: int) -> bool {
        premium >= 0 && self.within_curve(cows, premium) && !self.within_curve(cows, premium + 1)
    }

    /// What the curve adds to the base price once `cows` cows have been
    /// sold.
    pub open spec fn premium(&self, cows: int) -> int {
        choose|premium: int| self.is_premium(cows, premium)
    }

    /// Price of one cow once `cows` cows have been sold:
    /// `base_price * (1 + (cows / pivot) ^ (num / den))`, rounded down.
    pub open spec fn price(&self, cows: int) -> int {
        self.base_price() + self.premium(cows)
    }

    /// Computes the price of one cow once `global_cows` cows have been
    /// sold. While none has been sold it is the base price. Fails with
    /// `MathOverflow` exactly when the price is beyond 64 bits.
    pub fn calculate_cow_price(&self, global_cows: u64) -> (r: Result<u64, ErrorCode>)
        ensures
            match r {
                Ok(price) => price == self.price(global_cows as int),
                Err(e) => e == ErrorCode::MathOverflow && self.price(global_cows as int)
                    > u64::MAX,
            },
    {
        proof {
            use_type_invariant(self);
        }
        let ghost cows = global_cows as int;
        if global_cows == 0 || self.base_price == 0 {
            proof {
                self.lemma_flat(cows);
            }
            return Ok(self.base_price);
        }
        let target = power_pair(
            self.base_price,
            self.steepness_den,
            global_cows,
            self.steepness_num,
        );
        let limit: u64 = u64::MAX - self.base_price + 1;
        let at_limit = power_pair(limit, self.steepness_den, self.pivot, self.steepness_num);
        if at_limit.at_most(&target) {
            proof {
                self.lemma_premium_exists(cows);
                if self.premium(cows) < limit {
                    self.lemma_within_curve_downward(cows, self.premium(cows) + 1, limit as int);
                }
            }
            return Err(ErrorCode::MathOverflow);
        }
        let mut low: u64 = 0;
        let mut high: u64 = limit;
        proof {
            self.lemma_zero_within_curve(cows);
        }
        while high - low > 1
            invariant
                self.valid(),
                cows == global_cows as int,
                low < high <= limit,
                self.within_curve(cows, low as int),
                !self.within_curve(cows, high as int),
                target.factors() == self.steepness_den + self.steepness_num,
                target.value() == pow(self.base_price as int, self.steepness_den as nat) * pow(
                    cows,
                    self.steepness_num as nat,
                ),
            decreases high - low,
        {
            let middle: u64 = low + (high - low) / 2;
            let at_middle = power_pair(middle, self.steepness_den, self.pivot, self.steepness_num);
            if at_middle.at_most(&target) {
                low = middle;
            } else {
                high = middle;
            }
        }
        proof {
            self.lemma_premium_unique(cows, low as int);
        }
        Ok(self.base_price + low)
    }

    /// While no cow has been sold, and on a curve whose base price is zero,
    /// the curve adds nothing.
    proof fn lemma_flat(&self, cows: int)
        requires
            self.valid(),
            cows == 0 || self.base_price == 0,
        ensures
            self.premium(cows) == 0,
    {
        let num = self.steepness_num as nat;
        let den = self.steepness_den as nat;
        lemma0_pow(num);
        lemma0_pow(den);
        lemma1_pow(den);
        lemma_pow_positive(self.pivot as int, num);
        lemma_mul_basics(pow(self.pivot as int, num));
        lemma_mul_basics(pow(cows, num));
        lemma_mul_basics(pow(self.base_price as int, den));
        assert(self.is_premium(cows, 0));
        self.lemma_premium_unique(cows, 0);
    }

    /// A premium of zero is within the curve.
    proof fn lemma_zero_within_curve(&self, cows: int)
        requires
            self.valid(),
            cows >= 0,
        ensures
            self.within_curve(cows, 0),
    {
        let num = self.steepness_num as nat;
        let den = self.steepness_den as nat;
        lemma0_pow(den);
        lemma_mul_basics(pow(self.pivot as int, num));
        lemma_pow_nonnegative(self.base_price as int, den);
        lemma_pow_nonnegative(cows, num);
        lemma_mul_nonnegative(pow(self.base_price as int, den), pow(cows, num));
    }

    /// Under a premium that is within the curve, every smaller one is.
    proof fn lemma_within_curve_downward(&self, cows: int, smaller: int, larger: int)
        requires
            self.valid(),
            0 <= smaller <= larger,
            self.within_curve(cows, larger),
        ensures
            self.within_curve(cows, smaller),
    {
        let num = self.steepness_num as nat;
        let den = self.steepness_den as nat;
        lemma_pow_monotone(smaller, larger, den);
        lemma_pow_positive(self.pivot as int, num);
        lemma_mul_inequality(pow(smaller, den), pow(larger, den), pow(self.pivot as int, num));
    }

    /// A premium that is within the curve for some number of cows is within
    /// it for every larger number.
    proof fn lemma_within_curve_widens(&self, fewer: int, more: int, premium: int)
        requires
            self.valid(),
            0 <= fewer <= more,
            self.within_curve(fewer, premium),
        ensures
            self.within_curve(more, premium),
    {
        let num = self.steepness_num as nat;
        let den = self.steepness_den as nat;
        lemma_pow_monotone(fewer, more, num);
        lemma_pow_nonnegative(self.base_price as int, den);
        let weight = pow(self.base_price as int, den);
        let before = pow(fewer, num);
        let after = pow(more, num);
        assert(weight * before <= weight * after) by (nonlinear_arith)
            requires
                weight >= 0,
                before <= after,
        ;
    }

    /// While no cow has been sold, a cow costs the base price.
    pub proof fn lemma_price_at_zero(&self)
        requires
            self.valid(),
        ensures
            self.price(0) == self.base_price(),
    {
        self.lemma_flat(0);
    }

    /// The price never falls as more cows are sold.
    pub proof fn lemma_price_monotone(&self, fewer: int, more: int)
        requires
            self.valid(),
            0 <= fewer <= more,
        ensures
            self.price(fewer) <= self.price(more),
    {
        self.lemma_premium_exists(fewer);
        self.lemma_premium_exists(more);
        self.lemma_within_curve_widens(fewer, more, self.premium(fewer));
        if self.premium(more) < self.premium(fewer) {
            self.lemma_within_curve_downward(more, self.premium(more) + 1, self.premium(fewer));
        }
    }

    /// No more than one number is the premium.
    pub proof fn lemma_premium_unique(&self, cows: int, premium: int)
        requires
            self.valid(),
            self.is_premium(cows, premium),
        ensures
            self.premium(cows) == premium,
    {
        let chosen = self.premium(cows);
        assert(self.is_premium(cows, chosen));
        if chosen < premium {
            self.lemma_within_curve_downward(cows, chosen + 1, premium);
        } else if premium < chosen {
            self.lemma_within_curve_downward(cows, premium + 1, chosen);
        }
    }

    /// For every number of cows there is a premium.
    pub proof fn lemma_premium_exists(&self, cows: int)
        requires
            self.valid(),
            cows >= 0,
        ensures
            self.is_premium(cows, self.premium(cows)),
    {
        let num = self.steepness_num as nat;
        let den = self.steepness_den as nat;
        let bound = pow(self.base_price as int, den) * pow(cows, num);
        self.lemma_zero_within_curve(cows);
        lemma_pow_nonnegative(self.base_price as int, den);
        lemma_pow_nonnegative(cows, num);
        lemma_mul_nonnegative(pow(self.base_price as int, den), pow(cows, num));
        assert(!self.within_curve(cows, bound + 1)) by {
            lemma_pow_at_least_base(bound + 1, den);
            lemma_pow_positive(self.pivot as int, num);
            lemma_mul_increases(pow(self.pivot as int, num), pow(bound + 1, den));
            lemma_mul_is_commutative(pow(self.pivot as int, num), pow(bound + 1, den));
        }
        self.lemma_premium_between(cows, 0, bound + 1);
    }

    /// Between a premium within the curve and one beyond it lies the
    /// premium.
    proof fn lemma_premium_between(&self, cows: int, low: int, high: int)
        requires
            self.valid(),
            0 <= low < high,
            self.within_curve(cows, low),
            !self.within_curve(cows, high),
        ensures
            self.is_premium(cows, self.premium(cows)),
        decreases high - low,
    {
        if self.within_curve(cows, low + 1) {
            self.lemma_premium_between(cows, low + 1, high);
        } else {
            assert(self.is_premium(cows, low));
        }
    }
}

/// Computes `x` to the power `q`, times `y` to the power `p`.
fn power_pair(x: u64, q: u8, y: u64, p: u8) -> (r: Product)
    ensures
        r.value() == pow(x as int, q as nat) * pow(y as int, p as nat),
        r.factors() == q + p,
{
    let mut acc = Product::one();
    let mut i: u8 = 0;
    proof {
        lemma_pow0(x as int);
    }
    while i < q
        invariant
            i <= q,
            acc.value() == pow(x as int, i as nat),
            acc.factors() == i,
        decreases q - i,
    {
        acc = acc.times(x);
        proof {
            lemma_pow_adds(x as int, i as nat, 1);
            lemma_pow1(x as int);
        }
        i += 1;
    }
    let mut j: u8 = 0;
    proof {
        lemma_pow0(y as int);
        lemma_mul_basics(pow(x as int, q as nat));
    }
    while j < p
        invariant
            j <= p,
            acc.value() == pow(x as int, q as nat) * pow(y as int, j as nat),
            acc.factors() == q + j,
        decreases p - j,
    {
        acc = acc.times(y);
        proof {
            lemma_pow_adds(y as int, j as nat, 1);
            lemma_pow1(y as int);
            lemma_mul_is_associative(pow(x as int, q as nat), pow(y as int, j as nat), y as int);
        }
        j += 1;
    }
    acc
}

/// A power of a number that is not negative is not negative.
proof fn lemma_pow_nonnegative(b: int, e: nat)
    requires
        b >= 0,
    ensures
        pow(b, e) >= 0,
{
    if b == 0 {
        if e == 0 {
            lemma_pow0(b);
        } else {
            lemma0_pow(e);
        }
    } else {
        lemma_pow_positive(b, e);
    }
}

/// Of two numbers that are not negative, the larger has the larger power.
proof fn lemma_pow_monotone(a: int, b: int, e: nat)
    requires
        0 <= a <= b,
    ensures
        0 <= pow(a, e) <= pow(b, e),
    decreases e,
{
    if e == 0 {
        lemma_pow0(a);
        lemma_pow0(b);
    } else {
        lemma_pow_monotone(a, b, (e - 1) as nat);
        lemma_pow_adds(a, (e - 1) as nat, 1);
        lemma_pow_adds(b, (e - 1) as nat, 1);
        lemma_pow1(a);
        lemma_pow1(b);
        lemma_mul_upper_bound(pow(a, (e - 1) as nat), pow(b, (e - 1) as nat), a, b);
        lemma_mul_nonnegative(pow(a, (e - 1) as nat), a);
    }
}

/// A positive number is at most each of its powers to a positive exponent.
proof fn lemma_pow_at_least_base(b: int, e: nat)
    requires
        b >= 1,
        e >= 1,
    ensures
        pow(b, e) >= b,
{
    lemma_pow_adds(b, (e - 1) as nat, 1);
    lemma_pow1(b);
    lemma_pow_positive(b, (e - 1) as nat);
    lemma_mul_increases(pow(b, (e - 1) as nat), b);
}

} // verus!
