//! Decimal digit strings: the one encoding this crate writes and reads
//! itself. Token claims are serialised as fixed-width decimal fields,
//! and pagination parameters arrive as signed decimal strings; both
//! sides are verified against the spec-level value function
//! [`dec_val`] and representation function [`fixed_dec`].

use vstd::arithmetic::div_mod::lemma_fundamental_div_mod;
use vstd::arithmetic::div_mod::lemma_fundamental_div_mod_converse;
use vstd::arithmetic::div_mod::lemma_mod_bound;
use vstd::arithmetic::div_mod::lemma_small_mod;
use vstd::prelude::*;

verus! {

/// The byte is an ASCII decimal digit.
pub open spec fn is_digit(b: u8) -> bool {
    48 <= b <= 57
}

/// Numeric value of one ASCII digit byte.
pub open spec fn digit_val(b: u8) -> nat {
    (b - 48) as nat
}

/// Every byte of the string is an ASCII digit.
pub open spec fn all_digits(s: Seq<u8>) -> bool {
    forall|i: int| 0 <= i < s.len() ==> is_digit(#[trigger] s[i])
}

/// Value of a digit string, most significant digit first.
pub open spec fn dec_val(s: Seq<u8>) -> nat
    decreases s.len(),
{
    if s.len() == 0 {
        0
    } else {
        dec_val(s.drop_last()) * 10 + digit_val(s.last())
    }
}

/// Ten to the `w`.
pub open spec fn pow10(w: nat) -> nat
    decreases w,
{
    if w == 0 {
        1
    } else {
        10 * pow10((w - 1) as nat)
    }
}

/// The `w`-digit decimal representation of `n % pow10(w)`, most
/// significant digit first (leading zeroes kept).
pub open spec fn fixed_dec(n: nat, w: nat) -> Seq<u8>
    decreases w,
{
    if w == 0 {
        Seq::empty()
    } else {
        fixed_dec(n / 10, (w - 1) as nat).push((48 + n % 10) as u8)
    }
}

pub proof fn lemma_pow10_pos(w: nat)
    ensures
        pow10(w) >= 1,
    decreases w,
{
    if w > 0 {
        lemma_pow10_pos((w - 1) as nat);
    }
}

/// A fixed-width representation has the announced width, holds only
/// digits, and reads back as the value modulo `pow10(w)`.
pub proof fn lemma_fixed_dec_val(n: nat, w: nat)
    ensures
        fixed_dec(n, w).len() == w,
        all_digits(fixed_dec(n, w)),
        dec_val(fixed_dec(n, w)) == n % pow10(w),
    decreases w,
{
    lemma_pow10_pos(w);
    if w == 0 {
        lemma_small_mod(0, 1);
        assert(n % 1 == 0) by {
            lemma_fundamental_div_mod(n as int, 1);
        }
    } else {
        let q = n / 10;
        let d = n % 10;
        let p = pow10((w - 1) as nat);
        lemma_pow10_pos((w - 1) as nat);
        lemma_fixed_dec_val(q, (w - 1) as nat);
        let s = fixed_dec(n, w);
        assert(s.drop_last() =~= fixed_dec(q, (w - 1) as nat));
        assert(s.last() == (48 + d) as u8);
        assert(0 <= d < 10) by {
            lemma_mod_bound(n as int, 10);
        }
        assert(dec_val(s) == (q % p) * 10 + d);
        // n == ((q / p) * (10 * p)) + ((q % p) * 10 + d), with the
        // remainder in range, so dec_val(s) is n % (10 * p).
        assert(n == 10 * q + d) by {
            lemma_fundamental_div_mod(n as int, 10);
        }
        assert(q == p * (q / p) + (q % p)) by {
            lemma_fundamental_div_mod(q as int, p as int);
        }
        let ni = n as int;
        let qi = q as int;
        let di = d as int;
        let pi = p as int;
        let quo = (q / p) as int;
        let rem = (q % p) as int;
        assert(0 <= rem < pi) by {
            lemma_mod_bound(qi, pi);
        }
        assert(rem * 10 + di < 10 * pi) by (nonlinear_arith)
            requires
                rem < pi,
                0 <= di < 10,
                pi >= 1,
        ;
        assert(ni == quo * (10 * pi) + (rem * 10 + di)) by (nonlinear_arith)
            requires
                ni == 10 * qi + di,
                qi == pi * quo + rem,
        ;
        lemma_fundamental_div_mod_converse(ni, 10 * pi, quo, rem * 10 + di);
        assert(dec_val(s) == n % (10 * p));
    }
}

/// For values that fit the width, the representation reads back
/// exactly.
pub proof fn lemma_fixed_dec_val_small(n: nat, w: nat)
    requires
        n < pow10(w),
    ensures
        fixed_dec(n, w).len() == w,
        all_digits(fixed_dec(n, w)),
        dec_val(fixed_dec(n, w)) == n,
{
    lemma_fixed_dec_val(n, w);
    lemma_small_mod(n, pow10(w));
}

/// Appends the `w`-digit decimal representation of `n` to `out`.
pub fn push_fixed_dec(out: &mut Vec<u8>, n: u64, w: u8)
    ensures
        final(out)@ == old(out)@ + fixed_dec(n as nat, w as nat),
    decreases w,
{
    if w == 0 {
        proof {
            assert(out@ =~= out@ + fixed_dec(n as nat, 0));
        }
    } else {
        push_fixed_dec(out, n / 10, w - 1);
        out.push((48 + (n % 10)) as u8);
        proof {
            assert(out@ =~= old(out)@ + fixed_dec(n as nat, w as nat));
        }
    }
}

/// Reads `s[from..to]` as an unsigned decimal number of at most 19
/// digits; `None` if any byte in the range is not a digit.
pub fn read_fixed_dec(s: &[u8], from: usize, to: usize) -> (r: Option<u64>)
    requires
        from <= to <= s@.len(),
        to - from <= 19,
    ensures
        match r {
            Some(v) => all_digits(s@.subrange(from as int, to as int)) && v == dec_val(
                s@.subrange(from as int, to as int),
            ),
            None => !all_digits(s@.subrange(from as int, to as int)),
        },
{
    let mut acc: u64 = 0;
    let mut i: usize = from;
    proof {
        assert(pow10(19) == 10000000000000000000) by {
            reveal_with_fuel(pow10, 20);
        }
    }
    while i < to
        invariant
            from <= i <= to <= s@.len(),
            to - from <= 19,
            all_digits(s@.subrange(from as int, i as int)),
            acc == dec_val(s@.subrange(from as int, i as int)),
            acc < pow10((i - from) as nat),
            pow10(19) == 10000000000000000000,
        decreases to - i,
    {
        let b = s[i];
        if b < 48 || b > 57 {
            proof {
                let whole = s@.subrange(from as int, to as int);
                assert(whole[i - from] == b);
            }
            return None;
        }
        proof {
            let prev = s@.subrange(from as int, i as int);
            let cur = s@.subrange(from as int, i + 1);
            assert(cur.drop_last() =~= prev);
            assert(cur.last() == b);
            lemma_pow10_mono((i - from) as nat, 18);
            assert(pow10(18) * 10 == pow10(19)) by {
                assert(pow10(19) == 10 * pow10(18));
            }
            assert(acc * 10 + digit_val(b) < pow10((i + 1 - from) as nat)) by (nonlinear_arith)
                requires
                    acc < pow10((i - from) as nat),
                    digit_val(b) < 10,
                    pow10((i + 1 - from) as nat) == 10 * pow10((i - from) as nat),
            ;
            assert(pow10((i + 1 - from) as nat) <= pow10(19)) by {
                lemma_pow10_mono((i + 1 - from) as nat, 19);
            }
        }
        acc = acc * 10 + ((b - 48) as u64);
        i = i + 1;
    }
    proof {
        assert(s@.subrange(from as int, i as int) =~= s@.subrange(from as int, to as int));
    }
    Some(acc)
}

pub proof fn lemma_pow10_mono(a: nat, b: nat)
    requires
        a <= b,
    ensures
        pow10(a) <= pow10(b),
    decreases b,
{
    if a < b {
        lemma_pow10_mono(a, (b - 1) as nat);
        lemma_pow10_pos((b - 1) as nat);
    }
}

/// What `<i16 as FromStr>::from_str` accepts: an optional sign, then
/// one or more digits, with the value in range.
pub open spec fn parse_i16_spec(s: Seq<u8>) -> Option<i16> {
    if s.len() == 0 {
        None
    } else {
        let neg = s[0] == 45;
        let signed = s[0] == 45 || s[0] == 43;
        let ds = if signed {
            s.drop_first()
        } else {
            s
        };
        if ds.len() == 0 || !all_digits(ds) {
            None
        } else {
            let v = dec_val(ds);
            if neg {
                if v <= 32768 {
                    Some((-(v as int)) as i16)
                } else {
                    None
                }
            } else {
                if v <= 32767 {
                    Some(v as i16)
                } else {
                    None
                }
            }
        }
    }
}

/// Parses a signed 16-bit decimal string, accepting exactly what the
/// standard library's integer parser accepts.
pub fn parse_i16(s: &[u8]) -> (r: Option<i16>)
    ensures
        r == parse_i16_spec(s@),
{
    if s.len() == 0 {
        return None;
    }
    let first = s[0];
    let neg = first == 45;
    let signed = neg || first == 43;
    let start: usize = if signed {
        1
    } else {
        0
    };
    let ghost ds = if signed {
        s@.drop_first()
    } else {
        s@
    };
    proof {
        assert(ds =~= s@.subrange(start as int, s@.len() as int));
    }
    if s.len() == start {
        return None;
    }
    // Track the value of the digits read so far, saturated at 100000:
    // enough to decide the range check exactly for 16-bit values.
    let mut acc: u32 = 0;
    let mut i: usize = start;
    while i < s.len()
        invariant
            start <= i <= s@.len(),
            start <= 1,
            s@.len() > 0,
            (start == 1) <==> (s@[0] == 45 || s@[0] == 43),
            ds == s@.subrange(start as int, s@.len() as int),
            all_digits(s@.subrange(start as int, i as int)),
            acc <= 100000,
            dec_val(s@.subrange(start as int, i as int)) < 100000 ==> acc == dec_val(
                s@.subrange(start as int, i as int),
            ),
            dec_val(s@.subrange(start as int, i as int)) >= 100000 ==> acc == 100000,
        decreases s@.len() - i,
    {
        let b = s[i];
        if b < 48 || b > 57 {
            proof {
                assert(ds[i - start] == b);
                assert(!is_digit(b));
                assert(!all_digits(ds));
                let sds = if s@[0] == 45 || s@[0] == 43 {
                    s@.drop_first()
                } else {
                    s@
                };
                assert(sds =~= ds);
                assert(parse_i16_spec(s@) is None);
            }
            return None;
        }
        proof {
            let prev = s@.subrange(start as int, i as int);
            let cur = s@.subrange(start as int, i + 1);
            assert(cur.drop_last() =~= prev);
            assert(cur.last() == b);
            assert(dec_val(cur) == dec_val(prev) * 10 + digit_val(b));
        }
        if acc >= 100000 {
            acc = 100000;
        } else {
            acc = acc * 10 + ((b - 48) as u32);
            if acc > 100000 {
                acc = 100000;
            }
        }
        i = i + 1;
    }
    proof {
        assert(s@.subrange(start as int, i as int) =~= ds);
    }
    if neg {
        if acc <= 32768 {
            Some((-(acc as i32)) as i16)
        } else {
            None
        }
    } else {
        if acc <= 32767 {
            Some(acc as i16)
        } else {
            None
        }
    }
}

} // verus!
