//! Products of 64-bit numbers, held exactly.
//!
//! The price curve compares powers of 64-bit numbers that are far beyond
//! 128 bits. A `Product` holds such a number in 64-bit limbs, the least
//! significant first, with one limb for each factor it was made of and one
//! more, so that two products of equally many factors have equally many
//! limbs.

use vstd::prelude::*;
use vstd::arithmetic::power::*;

verus! {

/// The weight of a limb relative to the one before it: two to the 64th.
pub open spec fn radix() -> int {
    0x1_0000_0000_0000_0000
}

/// The number that `limbs` stand for, the least significant limb first.
pub open spec fn limbs_value(limbs: Seq<u64>) -> int
    decreases limbs.len(),
{
    if limbs.len() == 0 {
        0
    } else {
        limbs_value(limbs.drop_last()) + limbs.last() * pow(radix(), (limbs.len() - 1) as nat)
    }
}

/// A product of 64-bit numbers.
pub struct Product {
    limbs: Vec<u64>,
}

impl Product {
    /// The number held.
    pub closed spec fn value(&self) -> int {
        limbs_value(self.limbs@)
    }

    /// How many factors the product was made of.
    pub closed spec fn factors(&self) -> int {
        self.limbs@.len() - 1
    }

    #[verifier::type_invariant]
    spec fn inv(self) -> bool {
        self.limbs@.len() >= 1
    }

    /// The empty product, one.
    pub fn one() -> (r: Product)
        ensures
            r.value() == 1,
            r.factors() == 0,
    {
        let mut limbs: Vec<u64> = Vec::new();
        limbs.push(1);
        proof {
            assert(limbs@.drop_last() =~= Seq::<u64>::empty());
            reveal_with_fuel(limbs_value, 2);
            lemma_pow0(radix());
        }
        Product { limbs }
    }

    /// The product with one more factor, `k`.
    pub fn times(&self, k: u64) -> (r: Product)
        ensures
            r.value() == self.value() * k,
            r.factors() == self.factors() + 1,
    {
        let n = self.limbs.len();
        let mut out: Vec<u64> = Vec::new();
        let mut carry: u64 = 0;
        let mut i: usize = 0;
        proof {
            assert(self.limbs@.take(0) =~= Seq::<u64>::empty());
        }
        while i < n
            invariant
                n == self.limbs@.len(),
                i <= n,
                out@.len() == i,
                limbs_value(out@) + carry * pow(radix(), i as nat) == limbs_value(
                    self.limbs@.take(i as int),
                ) * k,
            decreases n - i,
        {
            let limb = self.limbs[i];
            proof {
                lemma_limb_product_fits(limb, k, carry);
            }
            let t: u128 = limb as u128 * k as u128 + carry as u128;
            let low: u64 = (t % 0x1_0000_0000_0000_0000u128) as u64;
            let high: u64 = (t / 0x1_0000_0000_0000_0000u128) as u64;
            let ghost before = out@;
            let ghost weight = pow(radix(), i as nat);
            out.push(low);
            proof {
                assert(out@.drop_last() =~= before);
                assert(self.limbs@.take(i + 1).drop_last() =~= self.limbs@.take(i as int));
                lemma_pow_adds(radix(), i as nat, 1);
                lemma_pow1(radix());
                lemma_times_step(
                    limbs_value(before),
                    limbs_value(self.limbs@.take(i as int)),
                    limb as int,
                    k as int,
                    carry as int,
                    low as int,
                    high as int,
                    weight,
                );
            }
            carry = high;
            i += 1;
        }
        let ghost before = out@;
        out.push(carry);
        proof {
            assert(out@.drop_last() =~= before);
            assert(self.limbs@.take(n as int) =~= self.limbs@);
        }
        Product { limbs: out }
    }

    /// Whether this product is at most `other`, which was made of as many
    /// factors.
    pub fn at_most(&self, other: &Product) -> (r: bool)
        requires
            self.factors() == other.factors(),
        ensures
            r == (self.value() <= other.value()),
    {
        let n = self.limbs.len();
        let mut i: usize = n;
        while i > 0
            invariant
                n == self.limbs@.len(),
                n == other.limbs@.len(),
                i <= n,
                forall|j: int| i <= j < n ==> self.limbs@[j] == other.limbs@[j],
            decreases i,
        {
            i -= 1;
            let a = self.limbs[i];
            let b = other.limbs[i];
            if a != b {
                proof {
                    lemma_same_tail(self.limbs@, other.limbs@, i + 1);
                    lemma_leading_limb_decides(self.limbs@.take(i + 1), other.limbs@.take(i + 1));
                }
                return a < b;
            }
        }
        proof {
            assert(self.limbs@ =~= other.limbs@);
        }
        true
    }
}

/// One limb times a factor, plus a carry, fits in 128 bits.
proof fn lemma_limb_product_fits(limb: u64, k: u64, carry: u64)
    ensures
        limb * k + carry <= u128::MAX,
        (limb * k + carry) / radix() <= u64::MAX,
{
    assert(limb * k <= 0xffff_ffff_ffff_ffff * 0xffff_ffff_ffff_ffff) by (nonlinear_arith)
        requires
            0 <= limb <= 0xffff_ffff_ffff_ffff,
            0 <= k <= 0xffff_ffff_ffff_ffff,
    ;
}

/// One step of a multiplication limb by limb keeps the sum of what was
/// written and what is carried equal to the part multiplied so far.
proof fn lemma_times_step(
    written: int,
    read: int,
    limb: int,
    k: int,
    carry: int,
    low: int,
    high: int,
    weight: int,
)
    by (nonlinear_arith)
    requires
        written + carry * weight == read * k,
        low + high * radix() == limb * k + carry,
    ensures
        (written + low * weight) + high * (weight * radix()) == (read + limb * weight) * k,
{
}

/// The number that limbs stand for is not negative and is under the radix
/// to the power of their number.
proof fn lemma_limbs_bound(limbs: Seq<u64>)
    ensures
        0 <= limbs_value(limbs) < pow(radix(), limbs.len()),
    decreases limbs.len(),
{
    if limbs.len() == 0 {
        lemma_pow0(radix());
    } else {
        let n = (limbs.len() - 1) as nat;
        lemma_limbs_bound(limbs.drop_last());
        lemma_pow_adds(radix(), n, 1);
        lemma_pow1(radix());
        lemma_pow_positive(radix(), n);
        let weight = pow(radix(), n);
        let last = limbs.last() as int;
        assert(0 <= last * weight && last * weight + weight <= weight * radix())
            by (nonlinear_arith)
            requires
                0 <= last <= radix() - 1,
                weight > 0,
        ;
    }
}

/// Where two rows of limbs agree from index `from` upwards, their numbers
/// differ by what the limbs under `from` differ by.
proof fn lemma_same_tail(a: Seq<u64>, b: Seq<u64>, from: int)
    requires
        a.len() == b.len(),
        0 <= from <= a.len(),
        forall|j: int| from <= j < a.len() ==> a[j] == b[j],
    ensures
        limbs_value(a) - limbs_value(a.take(from)) == limbs_value(b) - limbs_value(b.take(from)),
    decreases a.len() - from,
{
    if from == a.len() {
        assert(a.take(from) =~= a);
        assert(b.take(from) =~= b);
    } else {
        lemma_same_tail(a.drop_last(), b.drop_last(), from);
        assert(a.drop_last().take(from) =~= a.take(from));
        assert(b.drop_last().take(from) =~= b.take(from));
    }
}

/// Of two rows of equally many limbs, the one with the smaller leading limb
/// stands for the smaller number.
proof fn lemma_leading_limb_decides(a: Seq<u64>, b: Seq<u64>)
    requires
        a.len() == b.len(),
        a.len() >= 1,
    ensures
        a.last() < b.last() ==> limbs_value(a) < limbs_value(b),
        a.last() > b.last() ==> limbs_value(a) > limbs_value(b),
{
    let n = (a.len() - 1) as nat;
    lemma_limbs_bound(a.drop_last());
    lemma_limbs_bound(b.drop_last());
    let weight = pow(radix(), n);
    let x = a.last() as int;
    let y = b.last() as int;
    assert(x < y ==> x * weight + weight <= y * weight) by (nonlinear_arith)
        requires
            weight >= 0,
    ;
    assert(x > y ==> y * weight + weight <= x * weight) by (nonlinear_arith)
        requires
            weight >= 0,
    ;
    lemma_pow_positive(radix(), n);
}

} // verus!
