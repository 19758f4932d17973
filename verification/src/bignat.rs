//! Natural numbers of unbounded size, held as little-endian 32-bit limbs.
use vstd::prelude::*;

verus! {

/// The radix of one limb.
pub open spec fn radix() -> nat {
    0x1_0000_0000
}

/// `radix()` raised to the power `k`.
pub open spec fn radix_pow(k: nat) -> nat
    decreases k,
{
    if k == 0 {
        1
    } else {
        radix() * radix_pow((k - 1) as nat)
    }
}

/// The number that a little-endian limb sequence stands for.
pub open spec fn limbs_value(s: Seq<u32>) -> nat
    decreases s.len(),
{
    if s.len() == 0 {
        0
    } else {
        limbs_value(s.drop_last()) + s.last() as nat * radix_pow((s.len() - 1) as nat)
    }
}

/// Appending a limb adds it at the next power of the radix.
proof fn lemma_value_push(s: Seq<u32>, x: u32)
    ensures
        limbs_value(s.push(x)) == limbs_value(s) + x as nat * radix_pow(s.len()),
{
    assert(s.push(x).drop_last() =~= s);
}

/// The value of a prefix grows by the next limb at its power.
proof fn lemma_value_take(s: Seq<u32>, i: int)
    requires
        0 <= i < s.len(),
    ensures
        limbs_value(s.take(i + 1)) == limbs_value(s.take(i)) + s[i] as nat * radix_pow(i as nat),
{
    assert(s.take(i + 1).drop_last() =~= s.take(i));
}

/// A sequence of `n` limbs stands for a number below `radix()` to the `n`.
proof fn lemma_value_bound(s: Seq<u32>)
    ensures
        limbs_value(s) < radix_pow(s.len()),
    decreases s.len(),
{
    if s.len() > 0 {
        lemma_value_bound(s.drop_last());
        let p = radix_pow((s.len() - 1) as nat);
        let v = limbs_value(s.drop_last());
        let x = s.last() as nat;
        assert(v + x * p < radix() * p) by (nonlinear_arith)
            requires
                v < p,
                x < 0x1_0000_0000,
                radix() == 0x1_0000_0000,
        ;
    }
}

/// The limb at position `i` of `s`, or zero past its end.
spec fn limb_or_zero(s: Seq<u32>, i: int) -> nat {
    if 0 <= i < s.len() {
        s[i] as nat
    } else {
        0
    }
}

/// The value of the first `i` limbs of `s`, where `i` may pass its end.
spec fn prefix_value(s: Seq<u32>, i: int) -> nat {
    if 0 <= i < s.len() {
        limbs_value(s.take(i))
    } else {
        limbs_value(s)
    }
}

/// The value of a prefix grows by the next limb, or by nothing past the end.
proof fn lemma_prefix_step(s: Seq<u32>, i: int)
    requires
        0 <= i,
    ensures
        prefix_value(s, i + 1) == prefix_value(s, i) + limb_or_zero(s, i) * radix_pow(i as nat),
{
    let p = radix_pow(i as nat);
    if i < s.len() {
        lemma_value_take(s, i);
        assert(limb_or_zero(s, i) == s[i] as nat);
        assert(prefix_value(s, i) == limbs_value(s.take(i)));
        if i + 1 == s.len() {
            assert(s.take(i + 1) =~= s);
        }
        assert(prefix_value(s, i + 1) == limbs_value(s.take(i + 1)));
    } else {
        assert(limb_or_zero(s, i) == 0);
        assert(0 * p == 0);
    }
}

/// Horner form: the first limb plus the radix times the value of the rest.
proof fn lemma_value_drop_first(s: Seq<u32>)
    requires
        s.len() > 0,
    ensures
        limbs_value(s) == s[0] as nat + radix() * limbs_value(s.drop_first()),
    decreases s.len(),
{
    if s.len() == 1 {
        assert(s.drop_last() =~= Seq::<u32>::empty());
        assert(s.drop_first() =~= Seq::<u32>::empty());
        assert(limbs_value(s.drop_last()) == 0);
        assert(radix_pow(0) == 1);
    } else {
        let t = s.drop_last();
        lemma_value_drop_first(t);
        assert(t.drop_first() =~= s.drop_first().drop_last());
        let k = (s.len() - 2) as nat;
        let p = radix_pow(k);
        let x = s.last() as nat;
        let v = limbs_value(t.drop_first());
        assert(radix_pow((s.len() - 1) as nat) == radix() * p);
        assert(s.drop_first().last() == s.last());
        assert(limbs_value(s.drop_first()) == v + x * p);
        assert(radix() * (v + x * p) == radix() * v + x * (radix() * p)) by (nonlinear_arith);
    }
}

/// The same number without zero limbs at the top.
fn trimmed(limbs: Vec<u32>) -> (r: Vec<u32>)
    ensures
        limbs_value(r@) == limbs_value(limbs@),
        r@.len() == 0 || r@.last() != 0,
{
    let mut out = limbs;
    while out.len() > 0 && out[out.len() - 1] == 0
        invariant
            limbs_value(out@) == limbs_value(limbs@),
        decreases out.len(),
    {
        proof {
            assert(0 * radix_pow((out@.len() - 1) as nat) == 0);
        }
        out.pop();
    }
    out
}

/// A natural number of unbounded size.
#[derive(Debug)]
pub struct BigNat {
    pub limbs: Vec<u32>,
}

impl BigNat {
    /// The number that `self` stands for.
    pub open spec fn value(&self) -> nat {
        limbs_value(self.limbs@)
    }

    /// The number zero.
    pub fn zero() -> (r: BigNat)
        ensures
            r.value() == 0,
    {
        BigNat { limbs: Vec::new() }
    }

    /// The number `x`.
    pub fn from_u64(x: u64) -> (r: BigNat)
        ensures
            r.value() == x,
    {
        let lo: u32 = (x % 0x1_0000_0000) as u32;
        let hi: u32 = (x / 0x1_0000_0000) as u32;
        let mut limbs: Vec<u32> = Vec::new();
        limbs.push(lo);
        limbs.push(hi);
        proof {
            let s0 = Seq::<u32>::empty();
            let s1 = s0.push(lo);
            lemma_value_push(s0, lo);
            lemma_value_push(s1, hi);
            assert(limbs@ =~= s1.push(hi));
            assert(limbs_value(s0) == 0);
            assert(radix_pow(0) == 1);
            assert(radix_pow(1) == radix() * radix_pow(0));
            assert(s0.len() == 0 && s1.len() == 1);
            assert(limbs_value(s1) == lo as nat);
            assert(limbs_value(s1.push(hi)) == lo as nat + hi as nat * 0x1_0000_0000);
        }
        BigNat { limbs: trimmed(limbs) }
    }

    /// The sum of two numbers.
    pub fn add(&self, other: &BigNat) -> (r: BigNat)
        ensures
            r.value() == self.value() + other.value(),
    {
        let la = self.limbs.len();
        let lb = other.limbs.len();
        let n = if la >= lb { la } else { lb };
        let mut out: Vec<u32> = Vec::new();
        let mut carry: u64 = 0;
        let mut i: usize = 0;
        while i < n
            invariant
                la == self.limbs@.len(),
                lb == other.limbs@.len(),
                n >= la,
                n >= lb,
                i <= n,
                out@.len() == i,
                carry <= 1,
                limbs_value(out@) + carry * radix_pow(i as nat) == prefix_value(self.limbs@, i as int)
                    + prefix_value(other.limbs@, i as int),
            decreases n - i,
        {
            let x: u64 = if i < la { self.limbs[i] as u64 } else { 0 };
            let y: u64 = if i < lb { other.limbs[i] as u64 } else { 0 };
            let t: u64 = x + y + carry;
            let lo: u32 = (t % 0x1_0000_0000) as u32;
            let hi: u64 = t / 0x1_0000_0000;
            proof {
                let p = radix_pow(i as nat);
                lemma_value_push(out@, lo);
                lemma_prefix_step(self.limbs@, i as int);
                lemma_prefix_step(other.limbs@, i as int);
                assert(radix_pow((i + 1) as nat) == radix() * p);
                assert(lo as nat * p + hi * (radix() * p) == (x + y + carry) * p) by (nonlinear_arith)
                    requires
                        lo + 0x1_0000_0000 * hi == x + y + carry,
                        radix() == 0x1_0000_0000,
                ;
                assert((x + y + carry) * p == x * p + y * p + carry * p) by (nonlinear_arith);
            }
            out.push(lo);
            carry = hi;
            i = i + 1;
        }
        proof {
            lemma_value_push(out@, carry as u32);
        }
        out.push(carry as u32);
        BigNat { limbs: trimmed(out) }
    }

    /// The difference of two numbers, limb by limb, and whether the
    /// subtraction borrowed past the top limb, which it does exactly when
    /// `self` is the smaller.
    pub(crate) fn sub_borrow(&self, other: &BigNat) -> (r: (BigNat, bool))
        ensures
            r.1 <==> self.value() < other.value(),
            !r.1 ==> r.0.value() == self.value() - other.value(),
    {
        let la = self.limbs.len();
        let lb = other.limbs.len();
        let n = if la >= lb { la } else { lb };
        let mut out: Vec<u32> = Vec::new();
        let mut borrow: u64 = 0;
        let mut i: usize = 0;
        while i < n
            invariant
                la == self.limbs@.len(),
                lb == other.limbs@.len(),
                n >= la,
                n >= lb,
                i <= n,
                out@.len() == i,
                borrow <= 1,
                limbs_value(out@) + prefix_value(other.limbs@, i as int) == prefix_value(
                    self.limbs@,
                    i as int,
                ) + borrow * radix_pow(i as nat),
            decreases n - i,
        {
            let x: u64 = if i < la { self.limbs[i] as u64 } else { 0 };
            let y: u64 = if i < lb { other.limbs[i] as u64 } else { 0 };
            let take: u64 = y + borrow;
            let next: u64 = if x < take { 1 } else { 0 };
            let lo: u32 = (x + next * 0x1_0000_0000 - take) as u32;
            proof {
                let p = radix_pow(i as nat);
                lemma_value_push(out@, lo);
                lemma_prefix_step(self.limbs@, i as int);
                lemma_prefix_step(other.limbs@, i as int);
                assert(radix_pow((i + 1) as nat) == radix() * p);
                assert(lo as nat * p + y * p + borrow * p == x * p + next * (radix() * p))
                    by (nonlinear_arith)
                    requires
                        lo + y + borrow == x + next * 0x1_0000_0000,
                        radix() == 0x1_0000_0000,
                ;
            }
            out.push(lo);
            borrow = next;
            i = i + 1;
        }
        proof {
            lemma_value_bound(out@);
        }
        (BigNat { limbs: trimmed(out) }, borrow == 1)
    }

    /// The product of a number and a single limb.
    pub fn mul_small(&self, m: u32) -> (r: BigNat)
        ensures
            r.value() == self.value() * m,
    {
        let n = self.limbs.len();
        let mut out: Vec<u32> = Vec::new();
        let mut carry: u64 = 0;
        let mut i: usize = 0;
        proof {
            let v = prefix_value(self.limbs@, 0);
            assert(v == 0);
            assert(v * m == 0) by (nonlinear_arith)
                requires
                    v == 0,
            ;
        }
        while i < n
            invariant
                n == self.limbs@.len(),
                i <= n,
                out@.len() == i,
                carry < 0x1_0000_0000,
                limbs_value(out@) + carry * radix_pow(i as nat) == prefix_value(self.limbs@, i as int)
                    * m,
            decreases n - i,
        {
            let x: u64 = self.limbs[i] as u64;
            assert(x * (m as u64) + carry <= 0xffff_ffff_0000_0000) by (nonlinear_arith)
                requires
                    x <= 0xffff_ffff,
                    m <= 0xffff_ffff,
                    carry <= 0xffff_ffff,
            ;
            let t: u64 = x * (m as u64) + carry;
            let lo: u32 = (t % 0x1_0000_0000) as u32;
            let hi: u64 = t / 0x1_0000_0000;
            proof {
                let p = radix_pow(i as nat);
                let v = prefix_value(self.limbs@, i as int);
                lemma_value_push(out@, lo);
                lemma_prefix_step(self.limbs@, i as int);
                assert(radix_pow((i + 1) as nat) == radix() * p);
                assert(lo as nat * p + hi * (radix() * p) + v * m == (v + x * p) * m + carry * p)
                    by (nonlinear_arith)
                    requires
                        lo + 0x1_0000_0000 * hi == x * m + carry,
                        radix() == 0x1_0000_0000,
                ;
            }
            out.push(lo);
            carry = hi;
            i = i + 1;
        }
        proof {
            lemma_value_push(out@, carry as u32);
        }
        out.push(carry as u32);
        BigNat { limbs: trimmed(out) }
    }

    /// The number times the radix: one zero limb put below the others.
    pub fn shift_limb(&self) -> (r: BigNat)
        ensures
            r.value() == self.value() * radix(),
    {
        let n = self.limbs.len();
        let mut out: Vec<u32> = Vec::new();
        out.push(0);
        let mut i: usize = 0;
        while i < n
            invariant
                n == self.limbs@.len(),
                i <= n,
                out@ =~= seq![0u32] + self.limbs@.take(i as int),
            decreases n - i,
        {
            out.push(self.limbs[i]);
            i = i + 1;
        }
        proof {
            assert(self.limbs@.take(n as int) =~= self.limbs@);
            lemma_value_drop_first(out@);
            assert(out@.drop_first() =~= self.limbs@);
            assert(radix() * self.value() == self.value() * radix()) by (nonlinear_arith);
        }
        BigNat { limbs: out }
    }

    /// The product of two numbers.
    pub fn mul(&self, other: &BigNat) -> (r: BigNat)
        ensures
            r.value() == self.value() * other.value(),
    {
        let n = self.limbs.len();
        let mut acc = BigNat::zero();
        let mut i: usize = n;
        proof {
            let top = self.limbs@.subrange(n as int, n as int);
            assert(top =~= Seq::<u32>::empty());
            let v = limbs_value(top);
            assert(v == 0);
            assert(v * other.value() == 0) by (nonlinear_arith)
                requires
                    v == 0,
            ;
        }
        while i > 0
            invariant
                n == self.limbs@.len(),
                i <= n,
                acc.value() == limbs_value(self.limbs@.subrange(i as int, n as int))
                    * other.value(),
            decreases i,
        {
            i = i - 1;
            let shifted = acc.shift_limb();
            let part = other.mul_small(self.limbs[i]);
            proof {
                let rest = self.limbs@.subrange(i as int + 1, n as int);
                let here = self.limbs@.subrange(i as int, n as int);
                lemma_value_drop_first(here);
                assert(here.drop_first() =~= rest);
                let x = self.limbs@[i as int] as nat;
                let v = limbs_value(rest);
                let b = other.value();
                assert((v * b) * radix() + b * x == (x + radix() * v) * b) by (nonlinear_arith);
            }
            acc = shifted.add(&part);
        }
        proof {
            assert(self.limbs@.subrange(0, n as int) =~= self.limbs@);
        }
        acc
    }

    /// `self` less `other`, or `None` where `other` is the greater.
    pub fn checked_sub(&self, other: &BigNat) -> (r: Option<BigNat>)
        ensures
            r.is_some() <==> self.value() >= other.value(),
            r matches Some(d) ==> d.value() == self.value() - other.value(),
    {
        let (diff, below) = self.sub_borrow(other);
        if below {
            None
        } else {
            Some(diff)
        }
    }

    /// Whether `self` is less than `other`.
    pub fn lt(&self, other: &BigNat) -> (r: bool)
        ensures
            r <==> self.value() < other.value(),
    {
        self.sub_borrow(other).1
    }

    /// Whether `self` is zero.
    pub fn is_zero(&self) -> (r: bool)
        ensures
            r <==> self.value() == 0,
    {
        !BigNat::zero().lt(self)
    }
}

impl Clone for BigNat {
    fn clone(&self) -> (r: BigNat)
        ensures
            r.value() == self.value(),
    {
        let limbs = self.limbs.clone();
        assert(limbs@ =~= self.limbs@);
        BigNat { limbs }
    }
}

} // verus!
