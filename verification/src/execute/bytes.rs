use vstd::prelude::*;

use vstd::arithmetic::div_mod::{lemma_mod_breakdown, lemma_div_denominator};
use vstd::arithmetic::mul::{lemma_mul_strictly_positive, lemma_mul_is_distributive_add};

verus! {

/// 256 to the power `n`.
pub open spec fn pow256(n: nat) -> nat
    decreases n,
{
    if n == 0 {
        1
    } else {
        256 * pow256((n - 1) as nat)
    }
}

/// The number whose little-endian bytes are `s`.
pub open spec fn le_value(s: Seq<u8>) -> nat
    decreases s.len(),
{
    if s.len() == 0 {
        0
    } else {
        le_value(s.drop_last()) + pow256((s.len() - 1) as nat) * (s.last() as nat)
    }
}

/// The `n` little-endian bytes of `v`, dropping what does not fit.
pub open spec fn le_bytes(v: nat, n: nat) -> Seq<u8>
    decreases n,
{
    if n == 0 {
        Seq::empty()
    } else {
        le_bytes(v, (n - 1) as nat).push(((v / pow256((n - 1) as nat)) % 256) as u8)
    }
}

pub proof fn lemma_pow256_positive(n: nat)
    ensures
        pow256(n) > 0,
    decreases n,
{
    if n > 0 {
        lemma_pow256_positive((n - 1) as nat);
    }
}

pub proof fn lemma_pow256_values()
    ensures
        pow256(1) == 0x100,
        pow256(2) == 0x1_0000,
        pow256(4) == 0x1_0000_0000,
        pow256(8) == 0x1_0000_0000_0000_0000,
        pow256(16) == 0x1_0000_0000_0000_0000_0000_0000_0000_0000,
{
    reveal_with_fuel(pow256, 17);
}

pub proof fn lemma_le_bytes_len(v: nat, n: nat)
    ensures
        le_bytes(v, n).len() == n,
    decreases n,
{
    if n > 0 {
        lemma_le_bytes_len(v, (n - 1) as nat);
    }
}

pub proof fn lemma_le_value_bound(s: Seq<u8>)
    ensures
        le_value(s) < pow256(s.len()),
    decreases s.len(),
{
    if s.len() > 0 {
        let n = (s.len() - 1) as nat;
        lemma_le_value_bound(s.drop_last());
        lemma_pow256_positive(n);
        assert(le_value(s) < pow256(s.len())) by (nonlinear_arith)
            requires
                le_value(s) == le_value(s.drop_last()) + pow256(n) * s.last(),
                le_value(s.drop_last()) < pow256(n),
                s.last() <= 255,
                pow256(s.len()) == 256 * pow256(n),
        ;
    }
}

/// Reading back what was written gives the value modulo 256^n.
pub proof fn lemma_le_value_of_bytes(v: nat, n: nat)
    ensures
        le_value(le_bytes(v, n)) == v % pow256(n),
    decreases n,
{
    lemma_le_bytes_len(v, n);
    if n == 0 {
    } else {
        let m = (n - 1) as nat;
        let s = le_bytes(v, n);
        lemma_le_value_of_bytes(v, m);
        assert(s.drop_last() =~= le_bytes(v, m));
        lemma_pow256_positive(m);
        lemma_mod_breakdown(v as int, pow256(m) as int, 256);
        assert(pow256(m) * 256 == pow256(n)) by (nonlinear_arith)
            requires
                pow256(n) == 256 * pow256(m),
        ;
    }
}

/// The value of a byte followed by more bytes.
pub proof fn lemma_le_value_cons(b: u8, t: Seq<u8>)
    ensures
        le_value(seq![b] + t) == b + 256 * le_value(t),
    decreases t.len(),
{
    let s = seq![b] + t;
    if t.len() == 0 {
        assert(s.drop_last() =~= Seq::<u8>::empty());
        assert(s.len() == 1);
        assert(s.last() == b);
        assert(pow256(0) == 1);
        assert(le_value(s.drop_last()) == 0);
        assert(le_value(s) == le_value(s.drop_last()) + pow256(0) * (b as nat));
        assert(le_value(t) == 0);
    } else {
        let n = (t.len() - 1) as nat;
        lemma_le_value_cons(b, t.drop_last());
        assert(s.drop_last() =~= seq![b] + t.drop_last());
        assert(s.last() == t.last());
        assert(s.len() - 1 == n + 1);
        assert(pow256(n + 1) == 256 * pow256(n));
        let x = le_value(t.drop_last());
        let p = pow256(n);
        let l = t.last() as nat;
        assert(le_value(s) == le_value(seq![b] + t.drop_last()) + pow256(n + 1) * l);
        assert(le_value(t) == x + p * l);
        assert(b + 256 * x + (256 * p) * l == b + 256 * (x + p * l)) by (nonlinear_arith);
        assert(le_value(s) == b + 256 * le_value(t));
    }
}

/// The number whose `n` little-endian bytes start at `start` in `data`.
pub fn read_le(data: &[u8], start: usize, n: usize) -> (r: u128)
    requires
        start + n <= data@.len(),
        n <= 16,
    ensures
        r == le_value(data@.subrange(start as int, start + n)),
{
    let ghost s = data@;
    let len = data.len();
    let mut acc: u128 = 0;
    let mut k: usize = n;
    proof {
        lemma_pow256_values();
        assert(s.subrange(start + n, start + n) =~= Seq::<u8>::empty());
    }
    while k > 0
        invariant
            s == data@,
            len == s.len(),
            start + n <= s.len(),
            n <= 16,
            k <= n,
            acc == le_value(s.subrange(start + k, start + n)),
            pow256(16) == 0x1_0000_0000_0000_0000_0000_0000_0000_0000,
        decreases k,
    {
        let ghost t = s.subrange(start + k, start + n);
        proof {
            lemma_le_value_bound(t);
            assert(t.len() == n - k);
            lemma_pow256_mono((n - k) as nat, 15);
        }
        k = k - 1;
        let b = data[start + k];
        proof {
            assert(s.subrange(start + k, start + n) =~= seq![b] + t);
            lemma_le_value_cons(b, t);
        }
        acc = acc * 256 + b as u128;
    }
    acc
}

pub proof fn lemma_pow256_mono(a: nat, b: nat)
    requires
        a <= b,
    ensures
        pow256(a) <= pow256(b),
    decreases b,
{
    if a < b {
        lemma_pow256_mono(a, (b - 1) as nat);
        lemma_pow256_positive((b - 1) as nat);
    }
}

/// Writes the `n` little-endian bytes of `v` at `start`.
pub fn write_le(data: &mut Vec<u8>, start: usize, n: usize, v: u128)
    requires
        start + n <= old(data)@.len(),
        n <= 16,
    ensures
        final(data)@ == old(data)@.subrange(0, start as int) + le_bytes(v as nat, n as nat) + old(data)@.subrange(start + n, old(data)@.len() as int),
{
    let ghost s = data@;
    let len = data.len();
    let mut x = v;
    let mut k: usize = 0;
    proof {
        assert(s =~= s.subrange(0, start as int) + le_bytes(v as nat, 0) + s.subrange(
            start as int,
            s.len() as int,
        ));
        lemma_pow256_positive(0);
    }
    while k < n
        invariant
            start + n <= s.len(),
            len == s.len(),
            k <= n,
            data@.len() == s.len(),
            data@ == s.subrange(0, start as int) + le_bytes(v as nat, k as nat) + s.subrange(
                start + k,
                s.len() as int,
            ),
            x as nat == (v as nat) / pow256(k as nat),
        decreases n - k,
    {
        proof {
            lemma_le_bytes_len(v as nat, k as nat);
            lemma_le_bytes_len(v as nat, (k + 1) as nat);
            lemma_pow256_positive(k as nat);
        }
        let b = (x % 256) as u8;
        data.set(start + k, b);
        proof {
            lemma_div_denominator(v as int, pow256(k as nat) as int, 256);
            assert(pow256(k as nat) * 256 == pow256((k + 1) as nat)) by (nonlinear_arith)
                requires
                    pow256((k + 1) as nat) == 256 * pow256(k as nat),
            ;
            assert(data@ =~= s.subrange(0, start as int) + le_bytes(v as nat, (k + 1) as nat)
                + s.subrange(start + k + 1, s.len() as int));
        }
        x = x / 256;
        k = k + 1;
    }
    proof {
        assert(s.subrange(start + n, s.len() as int) =~= s.subrange(start + k, s.len() as int));
    }
}

} // verus!
