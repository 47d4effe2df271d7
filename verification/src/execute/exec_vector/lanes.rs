use vstd::prelude::*;

use vstd::arithmetic::div_mod::{lemma_div_denominator, lemma_fundamental_div_mod, lemma_div_plus_one, lemma_mod_bound};
use vstd::arithmetic::mul::lemma_mul_strictly_positive;

verus! {

// A vector of 128 bits holds `n` lanes of `d` values each (d^n == 2^128), lane 0
// in the most significant position.

/// `d` to the power `e`.
pub open spec fn pow_nat(d: nat, e: nat) -> nat
    decreases e,
{
    if e == 0 {
        1
    } else {
        d * pow_nat(d, (e - 1) as nat)
    }
}

/// Lane `i` of the `n` lanes of base `d` of `v`.
pub open spec fn lane_of(v: nat, d: nat, n: nat, i: int) -> nat {
    (v / pow_nat(d, (n - 1 - i) as nat)) % d
}

/// The `n` lanes of base `d` of `v`, most significant first.
pub open spec fn lanes_of(v: nat, d: nat, n: nat) -> Seq<nat> {
    Seq::new(n, |i: int| lane_of(v, d, n, i))
}

/// The number whose lanes of base `d` are `s`, most significant first.
pub open spec fn from_lanes(s: Seq<nat>, d: nat) -> nat
    decreases s.len(),
{
    if s.len() == 0 {
        0
    } else {
        from_lanes(s.drop_last(), d) * d + s.last()
    }
}

/// Every lane is below `d`.
pub open spec fn lanes_fit(s: Seq<nat>, d: nat) -> bool {
    forall|i: int| 0 <= i < s.len() ==> #[trigger] s[i] < d
}

pub proof fn lemma_pow_positive(d: nat, e: nat)
    requires
        d > 0,
    ensures
        pow_nat(d, e) > 0,
    decreases e,
{
    if e > 0 {
        lemma_pow_positive(d, (e - 1) as nat);
        lemma_mul_strictly_positive(d as int, pow_nat(d, (e - 1) as nat) as int);
    }
}

pub proof fn lemma_pow_values()
    ensures
        pow_nat(256, 16) == 0x1_0000_0000_0000_0000_0000_0000_0000_0000,
        pow_nat(0x1_0000, 8) == 0x1_0000_0000_0000_0000_0000_0000_0000_0000,
        pow_nat(0x1_0000_0000, 4) == 0x1_0000_0000_0000_0000_0000_0000_0000_0000,
        pow_nat(0x1_0000_0000_0000_0000, 2) == 0x1_0000_0000_0000_0000_0000_0000_0000_0000,
{
    reveal_with_fuel(pow_nat, 17);
}

/// A number built from lanes that fit is below d^len.
pub proof fn lemma_from_lanes_bound(s: Seq<nat>, d: nat)
    requires
        d > 0,
        lanes_fit(s, d),
    ensures
        from_lanes(s, d) < pow_nat(d, s.len()),
    decreases s.len(),
{
    if s.len() > 0 {
        let t = s.drop_last();
        assert(lanes_fit(t, d)) by {
            assert forall|i: int| 0 <= i < t.len() implies #[trigger] t[i] < d by {
                assert(t[i] == s[i]);
            }
        }
        lemma_from_lanes_bound(t, d);
        let f = from_lanes(t, d);
        let p = pow_nat(d, t.len());
        assert(s.last() < d);
        assert(f * d + s.last() < p * d) by (nonlinear_arith)
            requires
                f < p,
                s.last() < d,
                d > 0,
        ;
        assert(pow_nat(d, s.len()) == d * p);
    }
}

/// Reading the lanes of a number built from lanes gives those lanes back.
pub proof fn lemma_lanes_of_from_lanes(s: Seq<nat>, d: nat)
    requires
        d > 0,
        lanes_fit(s, d),
    ensures
        lanes_of(from_lanes(s, d), d, s.len()) =~= s,
    decreases s.len(),
{
    let n = s.len();
    if n > 0 {
        let t = s.drop_last();
        assert(lanes_fit(t, d)) by {
            assert forall|i: int| 0 <= i < t.len() implies #[trigger] t[i] < d by {
                assert(t[i] == s[i]);
            }
        }
        lemma_lanes_of_from_lanes(t, d);
        let f = from_lanes(t, d);
        let v = f * d + s.last();
        assert(v / d == f && v % d == s.last()) by (nonlinear_arith)
            requires
                v == f * d + s.last(),
                s.last() < d,
                d > 0,
        ;
        assert forall|i: int| 0 <= i < n implies #[trigger] lane_of(v, d, n, i) == s[i] by {
            if i == n - 1 {
                assert(pow_nat(d, 0) == 1);
                assert(v / 1 == v);
            } else {
                let k = (n - 2 - i) as nat;
                lemma_pow_positive(d, k);
                assert(pow_nat(d, (n - 1 - i) as nat) == d * pow_nat(d, k));
                lemma_div_denominator(v as int, d as int, pow_nat(d, k) as int);
                assert(v / pow_nat(d, (n - 1 - i) as nat) == f / pow_nat(d, k));
                assert(lanes_of(f, d, (n - 1) as nat)[i] == t[i]);
                assert(lane_of(f, d, (n - 1) as nat, i) == t[i]);
                assert(t[i] == s[i]);
            }
        }
    }
}

/// Building a number from its lanes gives it back.
pub proof fn lemma_from_lanes_of(v: nat, d: nat, n: nat)
    requires
        d > 0,
        v < pow_nat(d, n),
    ensures
        from_lanes(lanes_of(v, d, n), d) == v,
    decreases n,
{
    if n > 0 {
        let w = v / d;
        lemma_fundamental_div_mod(v as int, d as int);
        lemma_mod_bound(v as int, d as int);
        assert(w < pow_nat(d, (n - 1) as nat)) by (nonlinear_arith)
            requires
                v < d * pow_nat(d, (n - 1) as nat),
                w == v / d,
                d > 0,
        ;
        lemma_from_lanes_of(w, d, (n - 1) as nat);
        let s = lanes_of(v, d, n);
        assert(s.drop_last() =~= lanes_of(w, d, (n - 1) as nat)) by {
            assert forall|i: int| 0 <= i < n - 1 implies #[trigger] s.drop_last()[i] == lane_of(
                w,
                d,
                (n - 1) as nat,
                i,
            ) by {
                let k = (n - 2 - i) as nat;
                lemma_pow_positive(d, k);
                assert(pow_nat(d, (n - 1 - i) as nat) == d * pow_nat(d, k));
                lemma_div_denominator(v as int, d as int, pow_nat(d, k) as int);
            }
        }
        assert(s.last() == v % d) by {
            assert(pow_nat(d, 0) == 1);
            assert(v / 1 == v);
            assert(s.last() == lane_of(v, d, n, n - 1));
        }
        assert(from_lanes(s, d) == from_lanes(s.drop_last(), d) * d + s.last());
        assert(v == w * d + v % d) by (nonlinear_arith)
            requires
                w == v / d,
                d > 0,
        ;
    }
}

/// `x`, below `m`, read as a two's complement number of `m` values.
pub open spec fn signed_of(x: nat, m: nat) -> int {
    if x < m / 2 {
        x as int
    } else {
        x - m
    }
}

/// A lane of 8, 16, 32 or 64 bits.
pub trait Lane: Copy {
    /// The number of values a lane holds.
    spec fn modulus() -> nat;

    /// The number of lanes in a vector.
    spec fn count() -> nat;

    spec fn value(&self) -> nat;

    /// The value read as two's complement.
    spec fn signed_value(&self) -> int;

    fn to_signed(&self) -> (r: i128)
        ensures
            r == self.signed_value(),
    ;

    proof fn lemma_lane_shape()
        ensures
            Self::modulus() > 1,
            pow_nat(Self::modulus(), Self::count()) == 0x1_0000_0000_0000_0000_0000_0000_0000_0000,
    ;

    fn to_u128(&self) -> (r: u128)
        ensures
            r as nat == self.value(),
            self.value() < Self::modulus(),
    ;

    fn modulus_u128() -> (r: u128)
        ensures
            r as nat == Self::modulus(),
    ;

    fn count_usize() -> (r: usize)
        ensures
            r == Self::count(),
    ;

    fn from_u128(x: u128) -> (r: Self)
        requires
            x < Self::modulus(),
        ensures
            r.value() == x,
    ;
}

impl Lane for u8 {
    open spec fn modulus() -> nat {
        0x100
    }

    open spec fn count() -> nat {
        16
    }

    open spec fn value(&self) -> nat {
        *self as nat
    }

    open spec fn signed_value(&self) -> int {
        signed_of(*self as nat, 0x100)
    }

    fn to_signed(&self) -> (r: i128) {
        if (*self as u128) < 0x100 / 2 {
            *self as i128
        } else {
            *self as i128 - 0x100
        }
    }

    proof fn lemma_lane_shape() {
        lemma_pow_values();
    }

    fn to_u128(&self) -> (r: u128) {
        *self as u128
    }

    fn from_u128(x: u128) -> (r: Self) {
        x as u8
    }

    fn count_usize() -> (r: usize) {
        16
    }

    fn modulus_u128() -> (r: u128) {
        0x100
    }
}

impl Lane for u16 {
    open spec fn modulus() -> nat {
        0x1_0000
    }

    open spec fn count() -> nat {
        8
    }

    open spec fn value(&self) -> nat {
        *self as nat
    }

    open spec fn signed_value(&self) -> int {
        signed_of(*self as nat, 0x1_0000)
    }

    fn to_signed(&self) -> (r: i128) {
        if (*self as u128) < 0x1_0000 / 2 {
            *self as i128
        } else {
            *self as i128 - 0x1_0000
        }
    }

    proof fn lemma_lane_shape() {
        lemma_pow_values();
    }

    fn to_u128(&self) -> (r: u128) {
        *self as u128
    }

    fn from_u128(x: u128) -> (r: Self) {
        x as u16
    }

    fn count_usize() -> (r: usize) {
        8
    }

    fn modulus_u128() -> (r: u128) {
        0x1_0000
    }
}

impl Lane for u32 {
    open spec fn modulus() -> nat {
        0x1_0000_0000
    }

    open spec fn count() -> nat {
        4
    }

    open spec fn value(&self) -> nat {
        *self as nat
    }

    open spec fn signed_value(&self) -> int {
        signed_of(*self as nat, 0x1_0000_0000)
    }

    fn to_signed(&self) -> (r: i128) {
        if (*self as u128) < 0x1_0000_0000 / 2 {
            *self as i128
        } else {
            *self as i128 - 0x1_0000_0000
        }
    }

    proof fn lemma_lane_shape() {
        lemma_pow_values();
    }

    fn to_u128(&self) -> (r: u128) {
        *self as u128
    }

    fn from_u128(x: u128) -> (r: Self) {
        x as u32
    }

    fn count_usize() -> (r: usize) {
        4
    }

    fn modulus_u128() -> (r: u128) {
        0x1_0000_0000
    }
}

impl Lane for u64 {
    open spec fn modulus() -> nat {
        0x1_0000_0000_0000_0000
    }

    open spec fn count() -> nat {
        2
    }

    open spec fn value(&self) -> nat {
        *self as nat
    }

    open spec fn signed_value(&self) -> int {
        signed_of(*self as nat, 0x1_0000_0000_0000_0000)
    }

    fn to_signed(&self) -> (r: i128) {
        if (*self as u128) < 0x1_0000_0000_0000_0000 / 2 {
            *self as i128
        } else {
            *self as i128 - 0x1_0000_0000_0000_0000
        }
    }

    proof fn lemma_lane_shape() {
        lemma_pow_values();
    }

    fn to_u128(&self) -> (r: u128) {
        *self as u128
    }

    fn from_u128(x: u128) -> (r: Self) {
        x as u64
    }

    fn count_usize() -> (r: usize) {
        2
    }

    fn modulus_u128() -> (r: u128) {
        0x1_0000_0000_0000_0000
    }
}

/// The values of a sequence of lanes.
pub open spec fn lane_values<T: Lane>(s: Seq<T>) -> Seq<nat> {
    s.map_values(|x: T| x.value())
}

/// The vector whose lanes are `lanes`, the first lane most significant.
pub fn vec_from_lanes<T: Lane>(lanes: Vec<T>) -> (r: u128)
    requires
        lanes@.len() == T::count(),
    ensures
        r as nat == from_lanes(lane_values(lanes@), T::modulus()),
{
    let ghost s = lane_values(lanes@);
    let ghost d = T::modulus();
    let m = T::modulus_u128();
    let mut r: u128 = 0;
    let mut i: usize = 0;
    proof {
        T::lemma_lane_shape();
        assert(s.take(0) =~= Seq::<nat>::empty());
    }
    while i < lanes.len()
        invariant
            s == lane_values(lanes@),
            d == T::modulus(),
            m as nat == d,
            d > 1,
            lanes@.len() == T::count(),
            pow_nat(d, T::count()) == 0x1_0000_0000_0000_0000_0000_0000_0000_0000,
            i <= lanes@.len(),
            r as nat == from_lanes(s.take(i as int), d),
            r < pow_nat(d, i as nat),
        decreases lanes@.len() - i,
    {
        let x = lanes[i].to_u128();
        proof {
            assert(s.take(i + 1).drop_last() =~= s.take(i as int));
            assert(s.take(i + 1).last() == x as nat);
            let p = pow_nat(d, i as nat);
            lemma_pow_mono(d, (i + 1) as nat, T::count());
            assert(pow_nat(d, (i + 1) as nat) == d * p);
            assert(r * d + x < d * p) by (nonlinear_arith)
                requires
                    r < p,
                    x < d,
            ;
        }
        r = r * m + x;
        i = i + 1;
    }
    proof {
        assert(s.take(i as int) =~= s);
    }
    r
}

pub proof fn lemma_pow_mono(d: nat, a: nat, b: nat)
    requires
        d > 0,
        a <= b,
    ensures
        pow_nat(d, a) <= pow_nat(d, b),
    decreases b,
{
    if a < b {
        lemma_pow_mono(d, a, (b - 1) as nat);
        lemma_pow_positive(d, (b - 1) as nat);
        assert(pow_nat(d, (b - 1) as nat) <= d * pow_nat(d, (b - 1) as nat)) by (nonlinear_arith)
            requires
                d > 0,
        ;
    }
}

/// The lanes of `v`, most significant first.
fn to_lanes<T: Lane>(v: u128) -> (r: Vec<T>)
    ensures
        r@.len() == T::count(),
        lane_values(r@) == lanes_of(v as nat, T::modulus(), T::count()),
{
    proof {
        T::lemma_lane_shape();
    }
    let ghost d = T::modulus();
    let ghost n = T::count();
    let m = T::modulus_u128();
    let mut out: Vec<T> = Vec::new();
    let n_exec = T::count_usize();
    let mut j: usize = 0;
    let zero = T::from_u128(0);
    while j < n_exec
        invariant
            out@.len() == j,
            j <= n_exec,
            n_exec == n,
        decreases n_exec - j,
    {
        out.push(zero);
        j = j + 1;
    }
    let mut x = v;
    let mut k: usize = j;
    proof {
        assert(pow_nat(d, 0) == 1);
        assert(v as nat / 1 == v as nat);
    }
    while k > 0
        invariant
            j as nat == n,
            out@.len() == n,
            k <= n,
            d > 1,
            d == T::modulus(),
            m as nat == d,
            x as nat == (v as nat) / pow_nat(d, (n - k) as nat),
            forall|i: int| k <= i < n ==> (#[trigger] out@[i]).value() == lane_of(v as nat, d, n, i),
        decreases k,
    {
        assert(x % m < m);
        let lane = T::from_u128(x % m);
        out.set(k - 1, lane);
        proof {
            let e = (n - k) as nat;
            lemma_pow_positive(d, e);
            lemma_div_denominator(v as int, pow_nat(d, e) as int, d as int);
            assert(pow_nat(d, e) * d == pow_nat(d, e + 1)) by (nonlinear_arith)
                requires
                    pow_nat(d, e + 1) == d * pow_nat(d, e),
            ;
            assert(lane_of(v as nat, d, n, k - 1) == (x as nat) % d);
        }
        x = x / m;
        k = k - 1;
    }
    proof {
        assert(lane_values(out@) =~= lanes_of(v as nat, d, n));
    }
    out
}

pub proof fn lemma_pow_le_base(a: nat, b: nat, e: nat)
    requires
        a <= b,
    ensures
        pow_nat(a, e) <= pow_nat(b, e),
    decreases e,
{
    if e > 0 {
        lemma_pow_le_base(a, b, (e - 1) as nat);
        assert(a * pow_nat(a, (e - 1) as nat) <= b * pow_nat(b, (e - 1) as nat)) by (nonlinear_arith)
            requires
                a <= b,
                pow_nat(a, (e - 1) as nat) <= pow_nat(b, (e - 1) as nat),
        ;
    }
}

pub fn to_lanes_8x16(vector: u128) -> (r: Vec<u8>)
    ensures
        r@.len() == 16,
        lane_values(r@) == lanes_of(vector as nat, 0x100, 16),
{
    to_lanes::<u8>(vector)
}

pub fn to_lanes_16x8(vector: u128) -> (r: Vec<u16>)
    ensures
        r@.len() == 8,
        lane_values(r@) == lanes_of(vector as nat, 0x1_0000, 8),
{
    to_lanes::<u16>(vector)
}

pub fn to_lanes_32x4(vector: u128) -> (r: Vec<u32>)
    ensures
        r@.len() == 4,
        lane_values(r@) == lanes_of(vector as nat, 0x1_0000_0000, 4),
{
    to_lanes::<u32>(vector)
}

pub fn to_lanes_64x2(vector: u128) -> (r: Vec<u64>)
    ensures
        r@.len() == 2,
        lane_values(r@) == lanes_of(vector as nat, 0x1_0000_0000_0000_0000, 2),
{
    to_lanes::<u64>(vector)
}

} // verus!
