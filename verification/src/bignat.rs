//! Natural numbers of any size, as little-endian sequences of 32-bit limbs.
//!
//! Only what exact scaling needs is here: multiplying by a machine word and
//! comparing two numbers.

use vstd::prelude::*;

verus! {

/// The weight of limb `n`: 2^32 to the power `n`.
pub open spec fn limb_weight(n: nat) -> nat
    decreases n,
{
    if n == 0 {
        1
    } else {
        0x1_0000_0000 * limb_weight((n - 1) as nat)
    }
}

/// The number that `limbs` stands for, least significant limb first.
pub open spec fn value(limbs: Seq<u32>) -> nat
    decreases limbs.len(),
{
    if limbs.len() == 0 {
        0
    } else {
        value(limbs.drop_last()) + limbs.last() as nat * limb_weight((limbs.len() - 1) as nat)
    }
}

/// Limb `i` of `limbs`, which is 0 beyond its end.
pub open spec fn limb_at(limbs: Seq<u32>, i: int) -> u32 {
    if 0 <= i < limbs.len() {
        limbs[i]
    } else {
        0
    }
}

/// `limbs` with zero limbs added at the top until there are `n`.
pub open spec fn padded(limbs: Seq<u32>, n: nat) -> Seq<u32> {
    Seq::new(n, |i: int| limb_at(limbs, i))
}

proof fn lemma_value_push(limbs: Seq<u32>, top: u32)
    ensures
        value(limbs.push(top)) == value(limbs) + top as nat * limb_weight(limbs.len()),
{
    assert(limbs.push(top).drop_last() =~= limbs);
}

proof fn lemma_value_take(limbs: Seq<u32>, i: int)
    requires
        0 <= i < limbs.len(),
    ensures
        value(limbs.take(i + 1)) == value(limbs.take(i)) + limbs[i] as nat * limb_weight(i as nat),
{
    assert(limbs.take(i + 1).drop_last() =~= limbs.take(i));
}

proof fn lemma_value_below_weight(limbs: Seq<u32>)
    ensures
        value(limbs) < limb_weight(limbs.len()),
    decreases limbs.len(),
{
    if limbs.len() > 0 {
        lemma_value_below_weight(limbs.drop_last());
        let w = limb_weight((limbs.len() - 1) as nat);
        let top = limbs.last() as nat;
        assert(top * w + w <= 0x1_0000_0000 * w) by (nonlinear_arith)
            requires
                top < 0x1_0000_0000,
                w >= 0,
        ;
    }
}

proof fn lemma_value_padded(limbs: Seq<u32>, n: nat)
    requires
        n >= limbs.len(),
    ensures
        value(padded(limbs, n)) == value(limbs),
    decreases n,
{
    if n == limbs.len() {
        assert(padded(limbs, n) =~= limbs);
    } else {
        assert(padded(limbs, n).drop_last() =~= padded(limbs, (n - 1) as nat));
        lemma_value_padded(limbs, (n - 1) as nat);
        assert(padded(limbs, n).last() == 0);
        assert(0 * limb_weight((n - 1) as nat) == 0);
    }
}

/// Two numbers of equal length that agree in every limb from `i` upward
/// differ by what their lower `i` limbs differ by.
proof fn lemma_equal_tops(a: Seq<u32>, b: Seq<u32>, i: int)
    requires
        a.len() == b.len(),
        0 <= i <= a.len(),
        forall|j: int| i <= j < a.len() ==> a[j] == b[j],
    ensures
        value(a) - value(b) == value(a.take(i)) - value(b.take(i)),
    decreases a.len(),
{
    if i == a.len() {
        assert(a.take(i) =~= a);
        assert(b.take(i) =~= b);
    } else {
        lemma_equal_tops(a.drop_last(), b.drop_last(), i);
        assert(a.drop_last().take(i) =~= a.take(i));
        assert(b.drop_last().take(i) =~= b.take(i));
        assert(a.last() == b.last());
    }
}

/// Below equal tops, the larger limb decides.
proof fn lemma_limb_decides(a: Seq<u32>, b: Seq<u32>, i: int)
    requires
        a.len() == b.len(),
        0 <= i < a.len(),
        forall|j: int| i < j < a.len() ==> a[j] == b[j],
        a[i] < b[i],
    ensures
        value(a) < value(b),
{
    lemma_equal_tops(a, b, i + 1);
    lemma_value_take(a, i);
    lemma_value_take(b, i);
    lemma_value_below_weight(a.take(i));
    let w = limb_weight(i as nat);
    let x = a[i] as nat;
    let y = b[i] as nat;
    assert(x * w + w <= y * w) by (nonlinear_arith)
        requires
            x < y,
            w >= 0,
    ;
}

/// The number `x`, in one limb.
pub fn from_limb(x: u32) -> (limbs: Vec<u32>)
    ensures
        value(limbs@) == x,
{
    let mut limbs: Vec<u32> = Vec::new();
    limbs.push(x);
    proof {
        lemma_value_push(Seq::<u32>::empty(), x);
        assert(limbs@ =~= Seq::<u32>::empty().push(x));
        assert(value(Seq::<u32>::empty()) == 0);
        assert(limb_weight(0) == 1);
        assert(x as nat * 1 == x);
    }
    limbs
}

/// The product of a number and a machine word.
pub fn mul_small(limbs: &Vec<u32>, m: u64) -> (product: Vec<u32>)
    ensures
        value(product@) == value(limbs@) * m,
{
    let mut product: Vec<u32> = Vec::new();
    let mut carry: u64 = 0;
    let mut i: usize = 0;
    proof {
        assert(limbs@.take(0) =~= Seq::<u32>::empty());
        assert(product@ =~= Seq::<u32>::empty());
        assert(value(Seq::<u32>::empty()) == 0);
        assert(0 * limb_weight(0) == 0);
        assert(0 * (m as int) == 0);
    }
    while i < limbs.len()
        invariant
            0 <= i <= limbs.len(),
            product@.len() == i,
            value(product@) + carry * limb_weight(i as nat) == value(limbs@.take(i as int)) * m,
        decreases limbs.len() - i,
    {
        let limb: u32 = limbs[i];
        assert((limb as int) * (m as int) + (carry as int) <= 0xffff_ffff_ffff_ffff_0000_0000) by (nonlinear_arith)
            requires
                0 <= limb as int <= 0xffff_ffff,
                0 <= m as int <= 0xffff_ffff_ffff_ffff,
                0 <= carry as int <= 0xffff_ffff_ffff_ffff,
        ;
        assert(0 <= (limb as int) * (m as int)) by (nonlinear_arith)
            requires
                0 <= limb as int,
                0 <= m as int,
        ;
        let wide: u128 = (limb as u128) * (m as u128) + (carry as u128);
        let low: u32 = (wide % 0x1_0000_0000) as u32;
        let high: u64 = (wide / 0x1_0000_0000) as u64;
        proof {
            let w = limb_weight(i as nat);
            let before = value(product@);
            let taken = value(limbs@.take(i as int));
            lemma_value_push(product@, low);
            lemma_value_take(limbs@, i as int);
            assert(limb_weight((i + 1) as nat) == 0x1_0000_0000 * w);
            assert(before + low * w + high * (0x1_0000_0000 * w) == (taken + limb * w) * m)
                by (nonlinear_arith)
                requires
                    before + carry * w == taken * m,
                    low + high * 0x1_0000_0000 == limb * m + carry,
            ;
        }
        product.push(low);
        carry = high;
        i += 1;
    }
    let low: u32 = (carry % 0x1_0000_0000) as u32;
    let high: u32 = (carry / 0x1_0000_0000) as u32;
    proof {
        let n = limbs@.len();
        let w = limb_weight(n);
        assert(limbs@.take(n as int) =~= limbs@);
        lemma_value_push(product@, low);
        lemma_value_push(product@.push(low), high);
        assert(limb_weight((n + 1) as nat) == 0x1_0000_0000 * w);
        assert(low * w + high * (0x1_0000_0000 * w) == carry * w) by (nonlinear_arith)
            requires
                low + high * 0x1_0000_0000 == carry,
        ;
    }
    product.push(low);
    product.push(high);
    product
}

fn limb_or_zero(limbs: &Vec<u32>, i: usize) -> (limb: u32)
    ensures
        limb == limb_at(limbs@, i as int),
{
    if i < limbs.len() {
        limbs[i]
    } else {
        0
    }
}

/// Whether the first number is at most the second.
pub fn le(a: &Vec<u32>, b: &Vec<u32>) -> (at_most: bool)
    ensures
        at_most == (value(a@) <= value(b@)),
{
    let n: usize = if a.len() >= b.len() {
        a.len()
    } else {
        b.len()
    };
    let ghost pa = padded(a@, n as nat);
    let ghost pb = padded(b@, n as nat);
    proof {
        lemma_value_padded(a@, n as nat);
        lemma_value_padded(b@, n as nat);
    }
    let mut i: usize = n;
    while i > 0
        invariant
            0 <= i <= n,
            pa == padded(a@, n as nat),
            pb == padded(b@, n as nat),
            pa.len() == n,
            pb.len() == n,
            value(pa) == value(a@),
            value(pb) == value(b@),
            forall|j: int| i <= j < n ==> pa[j] == pb[j],
        decreases i,
    {
        let x: u32 = limb_or_zero(a, i - 1);
        let y: u32 = limb_or_zero(b, i - 1);
        if x < y {
            proof {
                lemma_limb_decides(pa, pb, i - 1);
            }
            return true;
        }
        if x > y {
            proof {
                lemma_limb_decides(pb, pa, i - 1);
            }
            return false;
        }
        i -= 1;
    }
    proof {
        lemma_equal_tops(pa, pb, 0);
        assert(pa.take(0) =~= pb.take(0));
    }
    true
}

} // verus!
