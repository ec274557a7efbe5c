//! Canonical decimal strings. A fixed-point decimal is formatted as a
//! canonical string (sign, integer digits, point, exactly `scale` fraction
//! digits) and re-parsed into the target numeric representation: this
//! round-trip through text is the defined conversion mechanism, and it is
//! proved lossless here.

use crate::cell::DecimalValue;
use crate::text::{
    chars_to_string, copy_range, digit_char, find_char, lemma_find_props, spec_dec, spec_find,
    str_chars, u128_dec_chars,
};
use vstd::prelude::*;

verus! {

/// Ten to the power `n`.
pub open spec fn pow10(n: nat) -> nat
    decreases n,
{
    if n == 0 {
        1
    } else {
        10 * pow10((n - 1) as nat)
    }
}

pub proof fn lemma_pow10_pos(n: nat)
    ensures
        pow10(n) >= 1,
    decreases n,
{
    if n > 0 {
        lemma_pow10_pos((n - 1) as nat);
    }
}

pub proof fn lemma_pow10_mono(a: nat, b: nat)
    requires
        a <= b,
    ensures
        pow10(a) <= pow10(b),
    decreases b,
{
    if a < b {
        lemma_pow10_mono(a, (b - 1) as nat);
        lemma_pow10_pos((b - 1) as nat);
    }
}

/// Ten to the power `n`, executable.
pub fn pow10_u128(n: u32) -> (r: u128)
    requires
        n <= 38,
    ensures
        r == pow10(n as nat),
{
    proof {
        lemma_pow10_38();
    }
    let mut r: u128 = 1;
    let mut i: u32 = 0;
    while i < n
        invariant
            i <= n <= 38,
            r == pow10(i as nat),
            pow10(38) == 0x4b3b4ca85a86c47a098a224000000000u128,
        decreases n - i,
    {
        proof {
            lemma_pow10_mono((i + 1) as nat, 38);
        }
        r = r * 10;
        i = i + 1;
    }
    r
}

pub proof fn lemma_pow10_38()
    ensures
        pow10(38) == 100000000000000000000000000000000000000u128,
{
    reveal_with_fuel(pow10, 40);
}

/// Whether `c` is a decimal digit.
pub open spec fn is_digit_char(c: char) -> bool {
    c == '0' || c == '1' || c == '2' || c == '3' || c == '4' || c == '5' || c == '6' || c == '7'
        || c == '8' || c == '9'
}

/// The numeric value of a digit character (zero for any other character).
pub open spec fn char_digit(c: char) -> nat {
    if c == '1' {
        1
    } else if c == '2' {
        2
    } else if c == '3' {
        3
    } else if c == '4' {
        4
    } else if c == '5' {
        5
    } else if c == '6' {
        6
    } else if c == '7' {
        7
    } else if c == '8' {
        8
    } else if c == '9' {
        9
    } else {
        0
    }
}

/// Whether every character of `s` is a decimal digit.
pub open spec fn all_digits(s: Seq<char>) -> bool {
    forall|i: int| 0 <= i < s.len() ==> is_digit_char(s[i])
}

/// The number a digit string denotes.
pub open spec fn digits_val(s: Seq<char>) -> nat
    decreases s.len(),
{
    if s.len() == 0 {
        0
    } else {
        digits_val(s.drop_last()) * 10 + char_digit(s.last())
    }
}

/// The decimal rendering of `n` consists of digits and denotes `n`.
pub proof fn lemma_dec_props(n: nat)
    ensures
        spec_dec(n).len() >= 1,
        all_digits(spec_dec(n)),
        digits_val(spec_dec(n)) == n,
    decreases n,
{
    if n < 10 {
        assert(spec_dec(n) =~= seq![digit_char(n)]);
        assert(spec_dec(n).drop_last() =~= Seq::<char>::empty());
        assert(char_digit(digit_char(n)) == n);
        assert(spec_dec(n).len() == 1);
        assert(spec_dec(n).last() == digit_char(n));
        assert(digits_val(spec_dec(n)) == digits_val(spec_dec(n).drop_last()) * 10 + char_digit(
            spec_dec(n).last(),
        ));
        assert(digits_val(spec_dec(n).drop_last()) == 0);
    } else {
        lemma_dec_props(n / 10);
        vstd::arithmetic::div_mod::lemma_fundamental_div_mod(n as int, 10);
        let s = spec_dec(n);
        assert(s =~= spec_dec(n / 10).push(digit_char(n % 10)));
        assert(s.drop_last() =~= spec_dec(n / 10));
        assert(char_digit(digit_char(n % 10)) == n % 10);
        assert(digits_val(s) == digits_val(s.drop_last()) * 10 + char_digit(s.last()));
        assert(digits_val(s.drop_last()) == n / 10);
        assert(s.last() == digit_char(n % 10));
        assert forall|i: int| 0 <= i < s.len() implies is_digit_char(s[i]) by {
            if i < s.len() - 1 {
                assert(s[i] == spec_dec(n / 10)[i]);
            }
        }
    }
}

/// A digit string of length at most `k` denotes less than ten to the `k`.
pub proof fn lemma_val_bound(s: Seq<char>, k: nat)
    requires
        s.len() <= k,
    ensures
        digits_val(s) < pow10(k),
    decreases s.len(),
{
    if s.len() == 0 {
        lemma_pow10_pos(k);
    } else {
        lemma_val_bound(s.drop_last(), (k - 1) as nat);
        assert(char_digit(s.last()) <= 9);
        lemma_pow10_mono(k, k);
        assert(pow10(k) == 10 * pow10((k - 1) as nat));
    }
}

/// The rendering of `n < pow10(k)` takes at most `k` digits.
pub proof fn lemma_dec_len(n: nat, k: nat)
    requires
        1 <= k,
        n < pow10(k),
    ensures
        spec_dec(n).len() <= k,
    decreases n,
{
    if n >= 10 {
        assert(pow10(k) == 10 * pow10((k - 1) as nat));
        if k == 1 {
            assert(pow10(k) == 10);
            assert(false);
        }
        lemma_dec_len(n / 10, (k - 1) as nat);
    }
}

/// `n` zero characters (none for a nonpositive count).
pub open spec fn spec_zeros(n: int) -> Seq<char> {
    if n <= 0 {
        Seq::empty()
    } else {
        Seq::new(n as nat, |i: int| '0')
    }
}

proof fn lemma_val_zeros(n: int)
    ensures
        digits_val(spec_zeros(n)) == 0,
        all_digits(spec_zeros(n)),
    decreases n,
{
    if n > 0 {
        lemma_val_zeros(n - 1);
        assert(spec_zeros(n).drop_last() =~= spec_zeros(n - 1));
        assert(spec_zeros(n).last() == '0');
    }
}

/// Leading zeros do not change a digit string's value.
pub proof fn lemma_val_zero_prefix(n: int, s: Seq<char>)
    ensures
        digits_val(spec_zeros(n) + s) == digits_val(s),
    decreases s.len(),
{
    if s.len() == 0 {
        assert(spec_zeros(n) + s =~= spec_zeros(n));
        lemma_val_zeros(n);
    } else {
        lemma_val_zero_prefix(n, s.drop_last());
        assert((spec_zeros(n) + s).drop_last() =~= spec_zeros(n) + s.drop_last());
        assert((spec_zeros(n) + s).last() == s.last());
    }
}

/// The magnitude of a decimal's unscaled digits.
pub open spec fn spec_decimal_mag(d: DecimalValue) -> nat {
    if d.digits < 0 {
        (-(d.digits as int)) as nat
    } else {
        d.digits as nat
    }
}

/// A well-formed decimal: at most 38 significant digits, at most 38 of them
/// fractional.
pub open spec fn wf_decimal(d: DecimalValue) -> bool {
    d.scale <= 38 && spec_decimal_mag(d) < pow10(38)
}

/// The canonical string of a decimal: optional sign, the integer digits,
/// and, for a positive scale, a point followed by exactly `scale` fraction
/// digits (zero-padded on the left).
pub open spec fn spec_decimal_string(d: DecimalValue) -> Seq<char> {
    let sign: Seq<char> = if d.digits < 0 {
        "-"@
    } else {
        Seq::empty()
    };
    let mag = spec_decimal_mag(d);
    if d.scale == 0 {
        sign + spec_dec(mag)
    } else {
        let p = pow10(d.scale as nat);
        let frac = spec_dec(mag % p);
        sign + spec_dec(mag / p) + "."@ + spec_zeros(d.scale - frac.len()) + frac
    }
}

/// What a decimal string parses to: an optional leading minus sign, one or
/// more integer digits, then optionally a point and one or more fraction
/// digits; the denoted value must fit in 38 significant digits. The scale
/// is the number of fraction digits written.
pub open spec fn spec_parse_decimal(s: Seq<char>) -> Option<DecimalValue> {
    if s.len() == 0 {
        None
    } else {
        let neg = s[0] == '-';
        let body = if neg {
            s.skip(1)
        } else {
            s
        };
        if body.len() == 0 {
            None
        } else {
            match spec_find(body, '.') {
                None => if all_digits(body) && digits_val(body) < pow10(38) {
                    Some(
                        DecimalValue {
                            digits: if neg {
                                -(digits_val(body) as int) as i128
                            } else {
                                digits_val(body) as i128
                            },
                            scale: 0,
                        },
                    )
                } else {
                    None
                },
                Some(i) => {
                    let ip = body.take(i);
                    let fp = body.skip(i + 1);
                    let val = digits_val(ip) * pow10(fp.len()) + digits_val(fp);
                    if ip.len() >= 1 && fp.len() >= 1 && fp.len() <= 38 && all_digits(ip)
                        && all_digits(fp) && spec_find(fp, '.') is None && val < pow10(38) {
                        Some(
                            DecimalValue {
                                digits: if neg {
                                    -(val as int) as i128
                                } else {
                                    val as i128
                                },
                                scale: fp.len() as u8,
                            },
                        )
                    } else {
                        None
                    }
                },
            }
        }
    }
}

proof fn lemma_find_none_of_digits(s: Seq<char>)
    requires
        all_digits(s),
    ensures
        spec_find(s, '.') is None,
{
    lemma_find_props(s, '.');
    if spec_find(s, '.') is Some {
        let i = spec_find(s, '.').unwrap();
        assert(is_digit_char(s[i]));
    }
}

proof fn lemma_find_dot_at(body: Seq<char>, i: int)
    requires
        0 <= i < body.len(),
        body[i] == '.',
        forall|j: int| 0 <= j < i ==> body[j] != '.',
    ensures
        spec_find(body, '.') == Some(i),
    decreases i,
{
    if i == 0 {
    } else {
        let t = body.skip(1);
        assert(t[i - 1] == body[i]);
        assert forall|j: int| 0 <= j < i - 1 implies t[j] != '.' by {
            assert(t[j] == body[j + 1]);
        }
        lemma_find_dot_at(t, i - 1);
    }
}

/// Parsing inverts formatting: the canonical string of a well-formed
/// decimal parses back to exactly the same unscaled digits and scale.
pub proof fn lemma_decimal_round_trip(d: DecimalValue)
    requires
        wf_decimal(d),
    ensures
        spec_parse_decimal(spec_decimal_string(d)) == Some(d),
{
    if d.scale == 0 {
        lemma_round_trip_whole(d);
    } else {
        lemma_round_trip_fraction(d);
    }
}

/// The round trip of a decimal without fraction digits.
#[verifier::spinoff_prover]
proof fn lemma_round_trip_whole(d: DecimalValue)
    requires
        wf_decimal(d),
        d.scale == 0,
    ensures
        spec_parse_decimal(spec_decimal_string(d)) == Some(d),
{
    reveal_strlit("-");
    reveal_strlit(".");
    let s = spec_decimal_string(d);
    let mag = spec_decimal_mag(d);
    let neg = d.digits < 0;
    lemma_dec_props(mag);
    let body0 = spec_dec(mag);
    if neg {
        assert(s =~= "-"@ + body0);
        assert(s[0] == '-');
        assert(s.skip(1) =~= body0);
    } else {
        assert(s =~= body0);
        assert(s[0] != '-');
    }
    let body = if s[0] == '-' {
        s.skip(1)
    } else {
        s
    };
    assert(body == body0);
    lemma_find_none_of_digits(body);
    assert(digits_val(body) == mag);
    if neg {
        assert(d.digits == -(mag as int));
    } else {
        assert(d.digits == mag as int);
    }
}

/// The round trip of a decimal with fraction digits.
#[verifier::rlimit(100)]
#[verifier::spinoff_prover]
proof fn lemma_round_trip_fraction(d: DecimalValue)
    requires
        wf_decimal(d),
        1 <= d.scale,
    ensures
        spec_parse_decimal(spec_decimal_string(d)) == Some(d),
{
    reveal_strlit("-");
    reveal_strlit(".");
    let s = spec_decimal_string(d);
    let mag = spec_decimal_mag(d);
    let neg = d.digits < 0;
    let p = pow10(d.scale as nat);
    let ipv = mag / p;
    let fpv = mag % p;
    lemma_pow10_pos(d.scale as nat);
    lemma_dec_props(ipv);
    lemma_dec_props(fpv);
    lemma_dec_len(fpv, d.scale as nat);
    let ip = spec_dec(ipv);
    let frac = spec_dec(fpv);
    let padded = spec_zeros(d.scale - frac.len()) + frac;
    lemma_val_zeros(d.scale - frac.len());
    assert(padded.len() == d.scale);
    let body0 = ip + "."@ + padded;
    if neg {
        assert(s =~= "-"@ + body0);
        assert(s[0] == '-');
        assert(s.skip(1) =~= body0);
    } else {
        assert(s =~= body0);
        assert(s[0] != '-');
    }
    let body = if s[0] == '-' {
        s.skip(1)
    } else {
        s
    };
    assert(body == body0);
    // the first point stands right after the integer digits
    assert(body[ip.len() as int] == '.');
    assert forall|j: int| 0 <= j < ip.len() implies body[j] != '.' by {
        assert(body[j] == ip[j]);
        assert(is_digit_char(ip[j]));
    }
    lemma_find_dot_at(body, ip.len() as int);
    assert(body.take(ip.len() as int) =~= ip);
    assert(body.skip(ip.len() as int + 1) =~= padded);
    // the fraction part is all digits and dot-free
    assert forall|j: int| 0 <= j < padded.len() implies is_digit_char(padded[j]) by {
        if j < d.scale - frac.len() {
            assert(padded[j] == '0');
        } else {
            assert(padded[j] == frac[j - (d.scale - frac.len())]);
        }
    }
    lemma_find_none_of_digits(padded);
    lemma_val_zero_prefix(d.scale - frac.len(), frac);
    assert(digits_val(padded) == fpv);
    assert(digits_val(ip) == ipv);
    // the denoted value is the magnitude
    assert(ipv * p + fpv == mag) by {
        vstd::arithmetic::div_mod::lemma_fundamental_div_mod(mag as int, p as int);
    }
    assert(digits_val(ip) * pow10(padded.len()) + digits_val(padded) == mag);
    if neg {
        assert(d.digits == -(mag as int));
    } else {
        assert(d.digits == mag as int);
    }
}

/// Formats a well-formed decimal as its canonical string.
pub fn format_decimal(d: DecimalValue) -> (r: String)
    requires
        wf_decimal(d),
    ensures
        r@ == spec_decimal_string(d),
{
    let neg = d.digits < 0;
    let mag: u128 = if neg {
        proof {
            lemma_pow10_38();
        }
        (-d.digits) as u128
    } else {
        d.digits as u128
    };
    let mut out = if neg {
        String::from_str("-")
    } else {
        String::new()
    };
    if d.scale == 0 {
        let digits = u128_dec_chars(mag);
        let ds = chars_to_string(&digits);
        out.append(ds.as_str());
    } else {
        let p = pow10_u128(d.scale as u32);
        proof {
            lemma_pow10_pos(d.scale as nat);
        }
        let ipart = u128_dec_chars(mag / p);
        let ips = chars_to_string(&ipart);
        out.append(ips.as_str());
        out.append(".");
        let frac = u128_dec_chars(mag % p);
        proof {
            lemma_dec_props((mag % p) as nat);
            lemma_dec_len((mag % p) as nat, d.scale as nat);
        }
        let pad = d.scale as usize - frac.len();
        let mut padded = String::new();
        let mut k: usize = 0;
        while k < pad
            invariant
                k <= pad,
                padded@ =~= spec_zeros(k as int),
            decreases pad - k,
        {
            crate::text::push_char(&mut padded, '0');
            proof {
                assert(padded@ =~= spec_zeros(k + 1 as int));
            }
            k = k + 1;
        }
        out.append(padded.as_str());
        let fs = chars_to_string(&frac);
        out.append(fs.as_str());
    }
    out
}

fn digit_value(c: char) -> (r: Option<u8>)
    ensures
        match r {
            Some(d) => is_digit_char(c) && d == char_digit(c) && d < 10,
            None => !is_digit_char(c),
        },
{
    match c {
        '0' => Some(0),
        '1' => Some(1),
        '2' => Some(2),
        '3' => Some(3),
        '4' => Some(4),
        '5' => Some(5),
        '6' => Some(6),
        '7' => Some(7),
        '8' => Some(8),
        '9' => Some(9),
        _ => None,
    }
}

/// The value of a digit string, refused when it holds a non-digit or does
/// not fit in 38 digits.
fn digits_value_exec(v: &Vec<char>, from: usize, to: usize) -> (r: Option<u128>)
    requires
        from <= to <= v@.len(),
    ensures
        match r {
            Some(val) => all_digits(v@.subrange(from as int, to as int)) && val == digits_val(
                v@.subrange(from as int, to as int),
            ) && val < pow10(38),
            None => !all_digits(v@.subrange(from as int, to as int)) || digits_val(
                v@.subrange(from as int, to as int),
            ) >= pow10(38),
        },
{
    let p37 = pow10_u128(37);
    proof {
        lemma_pow10_38();
    }
    let mut val: u128 = 0;
    let mut i: usize = from;
    while i < to
        invariant
            from <= i <= to <= v@.len(),
            p37 == pow10(37),
            pow10(38) == 0x4b3b4ca85a86c47a098a224000000000u128,
            all_digits(v@.subrange(from as int, i as int)),
            val == digits_val(v@.subrange(from as int, i as int)),
            val < pow10(38),
        decreases to - i,
    {
        let ghost pre = v@.subrange(from as int, i as int);
        let ghost cur = v@.subrange(from as int, i + 1 as int);
        proof {
            assert(cur.drop_last() =~= pre);
        }
        match digit_value(v[i]) {
            None => {
                proof {
                    assert(!all_digits(v@.subrange(from as int, to as int))) by {
                        assert(v@.subrange(from as int, to as int)[i - from] == v@[i as int]);
                    }
                }
                return None;
            },
            Some(d) => {
                if val >= p37 {
                    proof {
                        assert(digits_val(cur) >= 10 * pow10(37));
                        assert(10 * pow10(37) == pow10(38));
                        lemma_val_grows(v@, from as int, i + 1 as int, to as int);
                    }
                    return None;
                }
                val = val * 10 + (d as u128);
                proof {
                    assert(val == digits_val(cur));
                }
            },
        }
        i = i + 1;
    }
    Some(val)
}

/// A digit string's value never shrinks as it is extended on the right.
proof fn lemma_val_grows(v: Seq<char>, from: int, mid: int, to: int)
    requires
        0 <= from <= mid <= to <= v.len(),
    ensures
        digits_val(v.subrange(from, to)) >= digits_val(v.subrange(from, mid)),
    decreases to - mid,
{
    if mid < to {
        lemma_val_grows(v, from, mid + 1, to);
        let a = v.subrange(from, mid);
        let b = v.subrange(from, mid + 1);
        assert(b.drop_last() =~= a);
        assert(digits_val(b) == digits_val(a) * 10 + char_digit(b.last()));
    }
}

/// Parses a canonical decimal string; mirrors `spec_parse_decimal`.
pub fn parse_decimal(s: &str) -> (r: Option<DecimalValue>)
    ensures
        r == spec_parse_decimal(s@),
{
    proof {
        lemma_pow10_38();
    }
    let cs = str_chars(s);
    let n = cs.len();
    if n == 0 {
        return None;
    }
    let neg = cs[0] == '-';
    let start: usize = if neg {
        1
    } else {
        0
    };
    let body = copy_range(&cs, start, n);
    proof {
        if neg {
            assert(body@ =~= s@.skip(1));
        } else {
            assert(body@ =~= s@);
        }
    }
    if body.len() == 0 {
        return None;
    }
    match find_char(&body, '.') {
        None => {
            proof {
                lemma_find_props(body@, '.');
            }
            match digits_value_exec(&body, 0, body.len()) {
                Some(val) => {
                    proof {
                        assert(body@.subrange(0, body@.len() as int) =~= body@);
                    }
                    let digits: i128 = if neg {
                        -(val as i128)
                    } else {
                        val as i128
                    };
                    Some(DecimalValue { digits, scale: 0 })
                },
                None => {
                    proof {
                        assert(body@.subrange(0, body@.len() as int) =~= body@);
                    }
                    None
                },
            }
        },
        Some(dot) => {
            proof {
                lemma_find_props(body@, '.');
            }
            if dot == 0 {
                return None;
            }
            let fplen = body.len() - dot - 1;
            if fplen == 0 {
                return None;
            }
            if fplen > 38 {
                return None;
            }
            let ghost ip = body@.take(dot as int);
            let ghost fp = body@.skip(dot + 1);
            let ipv = match digits_value_exec(&body, 0, dot) {
                Some(val) => val,
                None => {
                    proof {
                        assert(body@.subrange(0, dot as int) =~= ip);
                        if all_digits(ip) {
                            lemma_ip_val_dominates(digits_val(ip), fp.len(), digits_val(fp));
                        }
                    }
                    return None;
                },
            };
            proof {
                assert(body@.subrange(0, dot as int) =~= ip);
            }
            let fpv = match digits_value_exec(&body, dot + 1, body.len()) {
                Some(val) => val,
                None => {
                    proof {
                        assert(body@.subrange(dot + 1 as int, body@.len() as int) =~= fp);
                        assert(fp.len() <= 38);
                        lemma_val_bound(fp, 38);
                    }
                    return None;
                },
            };
            proof {
                assert(body@.subrange(dot + 1 as int, body@.len() as int) =~= fp);
            }
            // there must be no second point in the fraction part
            proof {
                lemma_find_none_of_digits(fp);
            }
            let p = pow10_u128(fplen as u32);
            proof {
                lemma_pow10_mono(fp.len(), 38);
                lemma_pow10_pos(fp.len());
            }
            if ipv > (0x4b3b4ca85a86c47a098a224000000000u128 - fpv) / p {
                proof {
                    lemma_mul_div_bound(ipv as int, fpv as int, p as int);
                }
                return None;
            }
            proof {
                lemma_mul_div_bound2(ipv as int, fpv as int, p as int);
            }
            let val = ipv * p + fpv;
            if val >= 0x4b3b4ca85a86c47a098a224000000000u128 {
                return None;
            }
            let digits: i128 = if neg {
                -(val as i128)
            } else {
                val as i128
            };
            Some(DecimalValue { digits, scale: fplen as u8 })
        },
    }
}

/// A too-large integer part alone puts the denoted value over the limit.
proof fn lemma_ip_val_dominates(a: nat, flen: nat, b: nat)
    requires
        a >= pow10(38),
    ensures
        a * pow10(flen) + b >= pow10(38),
{
    lemma_pow10_pos(flen);
    assert(a * 1 <= a * pow10(flen)) by {
        vstd::arithmetic::mul::lemma_mul_inequality(1, pow10(flen) as int, a as int);
        vstd::arithmetic::mul::lemma_mul_is_commutative(a as int, pow10(flen) as int);
        vstd::arithmetic::mul::lemma_mul_is_commutative(a as int, 1);
    }
}

/// If `a` exceeds `(limit - b) / p` then `a * p + b` exceeds `limit`.
proof fn lemma_mul_div_bound(a: int, b: int, p: int)
    requires
        p >= 1,
        0 <= b < pow10(38),
        a > (pow10(38) - b) / p,
        a >= 0,
    ensures
        a * p + b >= pow10(38),
{
    let limit = pow10(38) as int;
    let q = (limit - b) / p;
    vstd::arithmetic::div_mod::lemma_fundamental_div_mod(limit - b, p);
    assert((limit - b) % p < p) by {
        vstd::arithmetic::div_mod::lemma_mod_bound(limit - b, p);
    }
    assert(a >= q + 1);
    assert(a * p >= (q + 1) * p) by {
        vstd::arithmetic::mul::lemma_mul_inequality(q + 1, a, p);
    }
    assert((q + 1) * p == q * p + p) by {
        vstd::arithmetic::mul::lemma_mul_is_distributive_add_other_way(p, q, 1);
    }
    assert(q * p + p + b > limit);
}

/// If `a` is at most `(limit - b) / p` then `a * p + b` stays within the
/// limit, so the accumulation cannot overflow.
proof fn lemma_mul_div_bound2(a: int, b: int, p: int)
    requires
        p >= 1,
        0 <= b < pow10(38),
        0 <= a <= (pow10(38) - b) / p,
    ensures
        a * p + b <= pow10(38),
{
    let limit = pow10(38) as int;
    let q = (limit - b) / p;
    vstd::arithmetic::div_mod::lemma_fundamental_div_mod(limit - b, p);
    assert((limit - b) % p >= 0) by {
        vstd::arithmetic::div_mod::lemma_mod_bound(limit - b, p);
    }
    assert(a * p <= q * p) by {
        vstd::arithmetic::mul::lemma_mul_inequality(a, q, p);
    }
    assert(q * p <= limit - b);
}

} // verus!
