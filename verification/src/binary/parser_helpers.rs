use vstd::prelude::*;

use crate::binary::parsers::types::NomError;

verus! {

/// The result of parsing at a position: the position after the parsed item, and the
/// item.
pub type PResult<T> = Result<(usize, T), NomError>;

/// The unsigned LEB128 number that starts at `pos` and spans at most `max` bytes:
/// its length in bytes and the sum of its 7-bit groups, least significant first.
/// `None` where the bytes end, or `max` bytes pass, before a byte below 0x80.
pub open spec fn leb_u(s: Seq<u8>, pos: int, max: nat) -> Option<(nat, nat)>
    decreases max,
{
    if max == 0 || pos < 0 || pos >= s.len() {
        None
    } else if s[pos] < 0x80 {
        Some((1, s[pos] as nat))
    } else {
        match leb_u(s, pos + 1, (max - 1) as nat) {
            Some((n, v)) => Some((n + 1, ((s[pos] - 0x80) + 128 * v) as nat)),
            None => None,
        }
    }
}

/// The unsigned LEB128 encoding of `v`: seven bits per byte, the least significant
/// first, with the high bit set on every byte but the last.
pub open spec fn leb_encode(v: nat) -> Seq<u8>
    decreases v,
{
    if v < 128 {
        seq![v as u8]
    } else {
        seq![((v % 128) + 128) as u8] + leb_encode(v / 128)
    }
}

/// Reading the LEB128 encoding of `v` where it stands in the bytes gives `v` back and
/// consumes exactly the encoding, whenever the reader may take that many bytes.
pub proof fn law_leb_reads_encoding(v: nat, s: Seq<u8>, pos: int, max: nat)
    requires
        0 <= pos,
        pos + leb_encode(v).len() <= s.len(),
        s.subrange(pos, pos + leb_encode(v).len()) == leb_encode(v),
        leb_encode(v).len() <= max,
    ensures
        leb_u(s, pos, max) == Some((leb_encode(v).len(), v)),
    decreases v,
{
    let e = leb_encode(v);
    assert(s[pos] == s.subrange(pos, pos + e.len())[0]);
    if v >= 128 {
        let rest = leb_encode(v / 128);
        assert(e == seq![((v % 128) + 128) as u8] + rest);
        assert(s.subrange(pos + 1, pos + 1 + rest.len()) =~= e.subrange(1, e.len() as int));
        assert(e.subrange(1, e.len() as int) =~= rest);
        law_leb_reads_encoding(v / 128, s, pos + 1, (max - 1) as nat);
        assert(v % 128 + 128 * (v / 128) == v);
    }
}

/// The LEB128 encoding of a value below 128^k takes at most `k` bytes.
pub proof fn lemma_leb_encode_len(v: nat, k: nat)
    requires
        v < pow128(k),
    ensures
        1 <= leb_encode(v).len() <= if k == 0 { 1 } else { k },
    decreases v,
{
    if v >= 128 {
        assert(k >= 2) by {
            if k == 0 {
                assert(pow128(0) == 1);
            } else if k == 1 {
                assert(pow128(1) == 128) by {
                    assert(pow128(0) == 1);
                }
            }
        }
        assert(v / 128 < pow128((k - 1) as nat));
        lemma_leb_encode_len(v / 128, (k - 1) as nat);
    }
}

/// 128 to the power `k`.
pub open spec fn pow128(k: nat) -> nat
    decreases k,
{
    if k == 0 {
        1
    } else {
        128 * pow128((k - 1) as nat)
    }
}

/// The powers of 128 that the readers meet.
proof fn lemma_pow128_values()
    ensures
        pow128(0) == 1,
        pow128(1) == 0x80,
        pow128(2) == 0x4000,
        pow128(3) == 0x20_0000,
        pow128(4) == 0x1000_0000,
        pow128(5) == 0x8_0000_0000,
        pow128(6) == 0x400_0000_0000,
        pow128(7) == 0x2_0000_0000_0000,
        pow128(8) == 0x100_0000_0000_0000,
        pow128(9) == 0x8000_0000_0000_0000,
        pow128(10) == 0x40_0000_0000_0000_0000,
{
    assert(pow128(0) == 1);
    assert(pow128(1) == 0x80);
    assert(pow128(2) == 0x4000);
    assert(pow128(3) == 0x20_0000);
    assert(pow128(4) == 0x1000_0000);
    assert(pow128(5) == 0x8_0000_0000);
    assert(pow128(6) == 0x400_0000_0000);
    assert(pow128(7) == 0x2_0000_0000_0000);
    assert(pow128(8) == 0x100_0000_0000_0000);
    assert(pow128(9) == 0x8000_0000_0000_0000);
    assert(pow128(10) == 0x40_0000_0000_0000_0000);
}

/// Powers of 128 grow with the exponent.
proof fn lemma_pow128_mono(a: nat, b: nat)
    requires
        a <= b,
    ensures
        pow128(a) <= pow128(b),
    decreases b,
{
    if a < b {
        lemma_pow128_mono(a, (b - 1) as nat);
    }
}

/// A sum of `n` 7-bit groups is below 128^n.
pub proof fn lemma_leb_u_bound(s: Seq<u8>, pos: int, max: nat)
    ensures
        leb_u(s, pos, max) matches Some((n, v)) ==> 1 <= n <= max && pos + n <= s.len() && v
            < pow128(n),
    decreases max,
{
    lemma_pow128_values();
    if max > 0 && 0 <= pos < s.len() && s[pos] >= 0x80 {
        lemma_leb_u_bound(s, pos + 1, (max - 1) as nat);
        match leb_u(s, pos + 1, (max - 1) as nat) {
            Some((n, v)) => {
                assert((s[pos] - 0x80) + 128 * v < pow128(n + 1)) by (nonlinear_arith)
                    requires
                        v < pow128(n),
                        pow128(n + 1) == 128 * pow128(n),
                        0 <= s[pos] - 0x80 < 128,
                ;
            },
            None => {},
        }
    }
}

/// Reads an unsigned LEB128 number of at most `max` bytes at `*position`, returning the
/// sum of its groups and advancing the position past it.
fn read_unsigned_leb128(slice: &[u8], position: &mut usize, max: u64) -> (r: Result<u128, NomError>)
    requires
        1 <= max <= 10,
    ensures
        match leb_u(slice@, *old(position) as int, max as nat) {
            Some((n, v)) => r == Ok::<u128, NomError>(v as u128) && *final(position) == *old(position) + n,
            None => r is Err,
        },
{
    let ghost s = slice@;
    let ghost start = *old(position) as int;
    let mut acc: u128 = 0;
    let mut mult: u128 = 1;
    let mut k: u64 = 0;
    proof {
        lemma_pow128_values();
    }
    loop
        invariant
            s == slice@,
            start == *old(position) as int,
            1 <= max <= 10,
            k < max,
            *position == start + k,
            mult == pow128(k as nat),
            acc < mult,
            mult <= 0x8000_0000_0000_0000,
            leb_u(s, start, max as nat) == match leb_u(s, start + k, (max - k) as nat) {
                Some((n, v)) => Some(((n + k) as nat, (acc + mult * v) as nat)),
                None => None::<(nat, nat)>,
            },
        decreases max - k,
    {
        if *position >= slice.len() {
            return Err(NomError);
        }
        let byte = slice[*position];
        *position = *position + 1;
        if byte < 0x80 {
            proof {
                assert(leb_u(s, start + k, (max - k) as nat) == Some((1nat, byte as nat)));
            }
            assert(mult * (byte as u128) <= 0x8000_0000_0000_0000 * 0x80) by (nonlinear_arith)
                requires
                    mult <= 0x8000_0000_0000_0000,
                    byte < 0x80,
            ;
            return Ok(acc + mult * (byte as u128));
        }
        let group = (byte - 0x80) as u128;
        if k + 1 >= max {
            proof {
                assert(leb_u(s, start + k + 1, (max - k - 1) as nat) is None);
            }
            return Err(NomError);
        }
        assert(mult * group <= 0x8000_0000_0000_0000 * 0x7F) by (nonlinear_arith)
            requires
                mult <= 0x8000_0000_0000_0000,
                group < 0x80,
        ;
        let ghost old_acc = acc;
        let ghost old_mult = mult;
        acc = acc + mult * group;
        mult = mult * 128;
        proof {
            assert(acc < mult) by (nonlinear_arith)
                requires
                    acc == old_acc + old_mult * group,
                    old_acc < old_mult,
                    group < 128,
                    mult == old_mult * 128,
            ;
            lemma_pow128_values();
            lemma_pow128_mono((k + 1) as nat, 9);
            match leb_u(s, start + k + 1, (max - k - 1) as nat) {
                Some((n2, v2)) => {
                    assert(old_acc + old_mult * ((byte - 0x80) + 128 * v2) == acc + mult * v2) by (nonlinear_arith)
                        requires
                            acc == old_acc + old_mult * group,
                            group == byte - 0x80,
                            mult == old_mult * 128,
                    ;
                },
                None => {},
            }
        }
        k = k + 1;
    }
}

/// Reads an unsigned LEB128 number of at most 5 bytes as a `u32`; the bits beyond
/// the 32nd are dropped.
pub fn read_u32_leb128(slice: &[u8], position: &mut usize) -> (r: Result<u32, NomError>)
    ensures
        match leb_u(slice@, *old(position) as int, 5) {
            Some((n, v)) => r == Ok::<u32, NomError>((v % 0x1_0000_0000) as u32) && *final(position)
                == *old(position) + n,
            None => r is Err,
        },
{
    proof {
        lemma_leb_u_bound(slice@, *old(position) as int, 5);
        lemma_pow128_values();
        if leb_u(slice@, *old(position) as int, 5) is Some {
            lemma_pow128_mono((leb_u(slice@, *old(position) as int, 5)->0).0, 10);
        }
    }
    let v = read_unsigned_leb128(slice, position, 5)?;
    Ok((v % 0x1_0000_0000) as u32)
}

/// Reads an unsigned LEB128 number of at most 10 bytes as a `u64`; the bits beyond
/// the 64th are dropped.
pub fn read_u64_leb128(slice: &[u8], position: &mut usize) -> (r: Result<u64, NomError>)
    ensures
        match leb_u(slice@, *old(position) as int, 10) {
            Some((n, v)) => r == Ok::<u64, NomError>((v % 0x1_0000_0000_0000_0000) as u64)
                && *final(position) == *old(position) + n,
            None => r is Err,
        },
{
    proof {
        lemma_leb_u_bound(slice@, *old(position) as int, 10);
        lemma_pow128_values();
        if leb_u(slice@, *old(position) as int, 10) is Some {
            lemma_pow128_mono((leb_u(slice@, *old(position) as int, 10)->0).0, 10);
        }
    }
    let v = read_unsigned_leb128(slice, position, 10)?;
    Ok((v % 0x1_0000_0000_0000_0000) as u64)
}

/// The signed value of the LEB128 number of `n` bytes with group sum `v` and last
/// byte `last`: sign-extended from bit `7n` where the number is shorter than 33 bits
/// and its top group bit is set, otherwise the low 64 bits read as two's complement.
pub open spec fn s33_value(n: nat, v: nat, last: u8) -> int {
    if 7 * n < 33 && last & 0x40 != 0 {
        v - pow128(n)
    } else {
        let w = v % 0x1_0000_0000_0000_0000;
        if w >= 0x8000_0000_0000_0000 {
            w - 0x1_0000_0000_0000_0000
        } else {
            w as int
        }
    }
}

/// Reads a signed LEB128 number of at most 10 bytes, as the 33-bit block type
/// indices are encoded.
pub fn read_s33_leb128(slice: &[u8], position: &mut usize) -> (r: Result<i64, NomError>)
    ensures
        match leb_u(slice@, *old(position) as int, 10) {
            Some((n, v)) => r == Ok::<i64, NomError>(
                s33_value(n, v, slice@[*old(position) + n - 1]) as i64,
            ) && *final(position) == *old(position) + n,
            None => r is Err,
        },
{
    let ghost start = *old(position) as int;
    proof {
        lemma_leb_u_bound(slice@, start, 10);
        lemma_pow128_values();
        if leb_u(slice@, start, 10) is Some {
            lemma_pow128_mono((leb_u(slice@, start, 10)->0).0, 10);
        }
    }
    let begin: usize = *position;
    let v = read_unsigned_leb128(slice, position, 10)?;
    let n: usize = *position - begin;
    let last = slice[*position - 1];
    if n < 5 && last & 0x40 != 0 {
        let p: u128 = if n == 1 {
            128
        } else if n == 2 {
            0x4000
        } else if n == 3 {
            0x20_0000
        } else {
            0x1000_0000
        };
        proof {
            assert(7 * n < 33);
            lemma_pow128_values();
            assert(p == pow128(n as nat));
        }
        Ok((v as i128 - p as i128) as i64)
    } else {
        let w = v % 0x1_0000_0000_0000_0000;
        if w >= 0x8000_0000_0000_0000 {
            Ok((w as i128 - 0x1_0000_0000_0000_0000) as i64)
        } else {
            Ok(w as i64)
        }
    }
}

} // verus!
