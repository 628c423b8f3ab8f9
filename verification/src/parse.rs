//! The lexical layer of the inbound JSON codec.
//!
//! Every inbound frame is JSON text handled as UTF-8 bytes.  The spec
//! functions here are the grammar: each executable parser returns exactly
//! what its spec function says, position for position.  JSON numbers are
//! read into thousandths of their value, saturating at `i64::MAX`
//! thousandths; fraction digits beyond the third are dropped.  Unicode
//! escapes are accepted in the form `\u00XX` (the only form this server's
//! own writer emits); other `\uXXXX` escapes make the frame malformed,
//! which drops the message and nothing else.

use vstd::prelude::*;
use crate::json::{JsonValue, JsonView};

verus! {

/// The largest value a number may saturate to, in thousandths.
pub open spec fn cap() -> int {
    0x7fff_ffff_ffff_ffff
}

/// JSON insignificant whitespace.
pub open spec fn is_ws(b: u8) -> bool {
    b == 32 || b == 9 || b == 10 || b == 13
}

/// An ASCII decimal digit.
pub open spec fn is_digit(b: u8) -> bool {
    48 <= b <= 57
}

/// A lower- or upper-case hexadecimal digit.
pub open spec fn is_hex(b: u8) -> bool {
    is_digit(b) || (97 <= b <= 102) || (65 <= b <= 70)
}

/// The value of a hexadecimal digit.
pub open spec fn hex_val(b: u8) -> int {
    if is_digit(b) {
        b - 48
    } else if 97 <= b <= 102 {
        b - 87
    } else {
        b - 55
    }
}

/// The first position at or after `i` that holds no whitespace.
pub open spec fn spec_ws(s: Seq<u8>, i: int) -> int
    decreases s.len() - i,
{
    if 0 <= i < s.len() && is_ws(s[i]) {
        spec_ws(s, i + 1)
    } else {
        i
    }
}

pub proof fn lemma_ws(s: Seq<u8>, i: int)
    requires
        0 <= i <= s.len(),
    ensures
        i <= spec_ws(s, i) <= s.len(),
    decreases s.len() - i,
{
    if i < s.len() && is_ws(s[i]) {
        lemma_ws(s, i + 1);
    }
}

/// Skip insignificant whitespace.
pub fn skip_ws(s: &[u8], i: usize) -> (r: usize)
    requires
        i <= s@.len(),
    ensures
        r == spec_ws(s@, i as int),
        i <= r <= s@.len(),
    decreases s@.len() - i,
{
    proof {
        lemma_ws(s@, i as int);
    }
    if i < s.len() && (s[i] == 32 || s[i] == 9 || s[i] == 10 || s[i] == 13) {
        skip_ws(s, i + 1)
    } else {
        i
    }
}

/// The body of a JSON string, from just after the opening quote: the
/// unescaped bytes and the position just past the closing quote.
pub open spec fn spec_string_body(s: Seq<u8>, i: int, acc: Seq<u8>) -> Option<(Seq<u8>, int)>
    decreases s.len() - i,
{
    if i < 0 || i >= s.len() {
        None
    } else {
        let b = s[i];
        if b == 34 {
            Some((acc, i + 1))
        } else if b == 92 {
            if i + 1 < s.len() {
                let e = s[i + 1];
                if e == 34 {
                    spec_string_body(s, i + 2, acc.push(34))
                } else if e == 92 {
                    spec_string_body(s, i + 2, acc.push(92))
                } else if e == 47 {
                    spec_string_body(s, i + 2, acc.push(47))
                } else if e == 98 {
                    spec_string_body(s, i + 2, acc.push(8))
                } else if e == 102 {
                    spec_string_body(s, i + 2, acc.push(12))
                } else if e == 110 {
                    spec_string_body(s, i + 2, acc.push(10))
                } else if e == 114 {
                    spec_string_body(s, i + 2, acc.push(13))
                } else if e == 116 {
                    spec_string_body(s, i + 2, acc.push(9))
                } else if e == 117 {
                    if i + 5 < s.len() && s[i + 2] == 48 && s[i + 3] == 48 && is_hex(s[i + 4])
                        && is_hex(s[i + 5]) {
                        let cp = hex_val(s[i + 4]) * 16 + hex_val(s[i + 5]);
                        if cp < 128 {
                            spec_string_body(s, i + 6, acc.push(cp as u8))
                        } else {
                            spec_string_body(
                                s,
                                i + 6,
                                acc.push((192 + cp / 64) as u8).push((128 + cp % 64) as u8),
                            )
                        }
                    } else {
                        None
                    }
                } else {
                    None
                }
            } else {
                None
            }
        } else if b < 32 {
            None
        } else {
            spec_string_body(s, i + 1, acc.push(b))
        }
    }
}

/// A JSON string at `i` (which must hold the opening quote).
pub open spec fn spec_string(s: Seq<u8>, i: int) -> Option<(Seq<u8>, int)> {
    if 0 <= i < s.len() && s[i] == 34 {
        spec_string_body(s, i + 1, Seq::empty())
    } else {
        None
    }
}

pub proof fn lemma_string_body(s: Seq<u8>, i: int, acc: Seq<u8>)
    requires
        0 <= i,
    ensures
        spec_string_body(s, i, acc) matches Some(r) ==> i < r.1 <= s.len(),
    decreases s.len() - i,
{
    if 0 <= i < s.len() {
        let b = s[i];
        if b == 34 {
        } else if b == 92 && i + 1 < s.len() {
            let e = s[i + 1];
            if e == 117 {
                if i + 5 < s.len() && s[i + 2] == 48 && s[i + 3] == 48 && is_hex(s[i + 4])
                    && is_hex(s[i + 5]) {
                    let cp = hex_val(s[i + 4]) * 16 + hex_val(s[i + 5]);
                    if cp < 128 {
                        lemma_string_body(s, i + 6, acc.push(cp as u8));
                    } else {
                        lemma_string_body(
                            s,
                            i + 6,
                            acc.push((192 + cp / 64) as u8).push((128 + cp % 64) as u8),
                        );
                    }
                }
            } else {
                lemma_string_body(s, i + 2, acc.push(0));
                lemma_string_body(s, i + 2, acc.push(34));
                lemma_string_body(s, i + 2, acc.push(92));
                lemma_string_body(s, i + 2, acc.push(47));
                lemma_string_body(s, i + 2, acc.push(8));
                lemma_string_body(s, i + 2, acc.push(12));
                lemma_string_body(s, i + 2, acc.push(10));
                lemma_string_body(s, i + 2, acc.push(13));
                lemma_string_body(s, i + 2, acc.push(9));
            }
        } else if b < 32 {
        } else {
            lemma_string_body(s, i + 1, acc.push(b));
        }
    }
}

/// Read a JSON string body into `acc`, returning the position just past the
/// closing quote.
pub fn parse_string_body(s: &[u8], i: usize, acc: &mut Vec<u8>) -> (r: Option<usize>)
    requires
        i <= s@.len(),
    ensures
        match spec_string_body(s@, i as int, old(acc)@) {
            Some(p) => r == Some(p.1 as usize) && final(acc)@ == p.0 && i < p.1 <= s@.len(),
            None => r is None,
        },
    decreases s@.len() - i,
{
    proof {
        lemma_string_body(s@, i as int, acc@);
    }
    if i >= s.len() {
        return None;
    }
    let b = s[i];
    if b == 34 {
        Some(i + 1)
    } else if b == 92 {
        if i + 1 < s.len() {
            let e = s[i + 1];
            if e == 34 {
                acc.push(34);
                parse_string_body(s, i + 2, acc)
            } else if e == 92 {
                acc.push(92);
                parse_string_body(s, i + 2, acc)
            } else if e == 47 {
                acc.push(47);
                parse_string_body(s, i + 2, acc)
            } else if e == 98 {
                acc.push(8);
                parse_string_body(s, i + 2, acc)
            } else if e == 102 {
                acc.push(12);
                parse_string_body(s, i + 2, acc)
            } else if e == 110 {
                acc.push(10);
                parse_string_body(s, i + 2, acc)
            } else if e == 114 {
                acc.push(13);
                parse_string_body(s, i + 2, acc)
            } else if e == 116 {
                acc.push(9);
                parse_string_body(s, i + 2, acc)
            } else if e == 117 {
                if s.len() - i > 5 && s[i + 2] == 48 && s[i + 3] == 48 && hex_ok(s[i + 4]) && hex_ok(
                    s[i + 5],
                ) {
                    let cp: u16 = hex_digit_val(s[i + 4]) as u16 * 16 + hex_digit_val(
                        s[i + 5],
                    ) as u16;
                    if cp < 128 {
                        acc.push(cp as u8);
                        parse_string_body(s, i + 6, acc)
                    } else {
                        acc.push(192 + (cp / 64) as u8);
                        acc.push(128 + (cp % 64) as u8);
                        parse_string_body(s, i + 6, acc)
                    }
                } else {
                    None
                }
            } else {
                None
            }
        } else {
            None
        }
    } else if b < 32 {
        None
    } else {
        acc.push(b);
        parse_string_body(s, i + 1, acc)
    }
}

/// Is the byte a hexadecimal digit?
fn hex_ok(b: u8) -> (r: bool)
    ensures
        r == is_hex(b),
{
    (48 <= b && b <= 57) || (97 <= b && b <= 102) || (65 <= b && b <= 70)
}

/// The value of a hexadecimal digit.
fn hex_digit_val(b: u8) -> (r: u8)
    requires
        is_hex(b),
    ensures
        r as int == hex_val(b),
{
    if 48 <= b && b <= 57 {
        b - 48
    } else if 97 <= b && b <= 102 {
        b - 87
    } else {
        b - 55
    }
}

/// A JSON string at `i`: its unescaped bytes and the position past it.
pub fn parse_string(s: &[u8], i: usize) -> (r: Option<(Vec<u8>, usize)>)
    requires
        i <= s@.len(),
    ensures
        match spec_string(s@, i as int) {
            Some(p) => r matches Some(q) && q.0@ == p.0 && q.1 as int == p.1 && i < p.1 <= s@.len(),
            None => r is None,
        },
{
    if i < s.len() && s[i] == 34 {
        let mut acc: Vec<u8> = Vec::new();
        match parse_string_body(s, i + 1, &mut acc) {
            Some(j) => Some((acc, j)),
            None => None,
        }
    } else {
        None
    }
}


/// Digits read from `i` with saturating accumulation on top of `acc`.
pub open spec fn spec_digits(s: Seq<u8>, i: int, acc: int) -> (int, int)
    decreases s.len() - i,
{
    if 0 <= i < s.len() && is_digit(s[i]) {
        let d = s[i] as int - 48;
        let acc2 = if acc > (cap() - d) / 10 {
            cap()
        } else {
            acc * 10 + d
        };
        spec_digits(s, i + 1, acc2)
    } else {
        (acc, i)
    }
}

pub proof fn lemma_digits(s: Seq<u8>, i: int, acc: int)
    requires
        0 <= i <= s.len(),
        0 <= acc <= cap(),
    ensures
        i <= spec_digits(s, i, acc).1 <= s.len(),
        0 <= spec_digits(s, i, acc).0 <= cap(),
    decreases s.len() - i,
{
    if 0 <= i < s.len() && is_digit(s[i]) {
        let d = s[i] as int - 48;
        let acc2 = if acc > (cap() - d) / 10 {
            cap()
        } else {
            acc * 10 + d
        };
        assert(acc2 <= cap());
        lemma_digits(s, i + 1, acc2);
    }
}

/// Read a run of digits, saturating at `cap()`.
fn parse_digits(s: &[u8], i: usize, acc: u64) -> (r: (u64, usize))
    requires
        i <= s@.len(),
        acc as int <= cap(),
    ensures
        r.0 as int == spec_digits(s@, i as int, acc as int).0,
        r.1 as int == spec_digits(s@, i as int, acc as int).1,
        i <= r.1 <= s@.len(),
        r.0 as int <= cap(),
    decreases s@.len() - i,
{
    proof {
        lemma_digits(s@, i as int, acc as int);
    }
    if i < s.len() && 48 <= s[i] && s[i] <= 57 {
        let d: u64 = (s[i] - 48) as u64;
        let acc2: u64 = if acc > (9223372036854775807u64 - d) / 10 {
            9223372036854775807u64
        } else {
            acc * 10 + d
        };
        parse_digits(s, i + 1, acc2)
    } else {
        (acc, i)
    }
}

/// The weight a fraction digit carries: the first three make thousandths,
/// later ones are dropped.
pub open spec fn frac_weight(k: int) -> int {
    if k == 0 {
        100
    } else if k == 1 {
        10
    } else if k == 2 {
        1
    } else {
        0
    }
}

/// Fraction digits read from `i`, on top of `acc` thousandths.
pub open spec fn spec_frac(s: Seq<u8>, i: int, k: int, acc: int) -> (int, int)
    decreases s.len() - i,
{
    if 0 <= i < s.len() && is_digit(s[i]) {
        let d = s[i] as int - 48;
        spec_frac(s, i + 1, if k < 3 { k + 1 } else { 3 }, acc + frac_weight(k) * d)
    } else {
        (acc, i)
    }
}

/// The most that digits at weight `k` and after can still add.
pub open spec fn frac_room(k: int) -> int {
    if k <= 0 {
        999
    } else if k == 1 {
        99
    } else if k == 2 {
        9
    } else {
        0
    }
}

pub proof fn lemma_frac(s: Seq<u8>, i: int, k: int, acc: int)
    requires
        0 <= i <= s.len(),
        0 <= acc <= 999 - frac_room(k),
    ensures
        i <= spec_frac(s, i, k, acc).1 <= s.len(),
        0 <= spec_frac(s, i, k, acc).0 <= 999,
    decreases s.len() - i,
{
    if 0 <= i < s.len() && is_digit(s[i]) {
        let d = s[i] as int - 48;
        lemma_frac(s, i + 1, if k < 3 { k + 1 } else { 3 }, acc + frac_weight(k) * d);
    }
}

/// Read fraction digits; the first three land in thousandths.
fn parse_frac(s: &[u8], i: usize, k: u64, acc: u64) -> (r: (u64, usize))
    requires
        i <= s@.len(),
        acc as int <= 999 - frac_room(k as int),
    ensures
        r.0 as int == spec_frac(s@, i as int, k as int, acc as int).0,
        r.1 as int == spec_frac(s@, i as int, k as int, acc as int).1,
        i <= r.1 <= s@.len(),
        r.0 <= 999,
    decreases s@.len() - i,
{
    proof {
        lemma_frac(s@, i as int, k as int, acc as int);
    }
    if i < s.len() && 48 <= s[i] && s[i] <= 57 {
        let d: u64 = (s[i] - 48) as u64;
        let w: u64 = if k == 0 {
            100
        } else if k == 1 {
            10
        } else if k == 2 {
            1
        } else {
            0
        };
        let k2: u64 = if k > 2 {
            3
        } else {
            k + 1
        };
        proof {
            assert(frac_weight(k as int) == w as int);
            assert(spec_frac(s@, i as int, k as int, acc as int) == spec_frac(
                s@,
                i as int + 1,
                k2 as int,
                acc as int + w as int * d as int,
            ));
        }
        parse_frac(s, i + 1, k2, acc + w * d)
    } else {
        (acc, i)
    }
}

/// `m` scaled up by `k` powers of ten, saturating at `cap()`.
pub open spec fn spec_scale_up(m: int, k: int) -> int
    decreases k,
{
    if k <= 0 {
        m
    } else {
        spec_scale_up(
            if m > cap() / 10 {
                cap()
            } else {
                m * 10
            },
            k - 1,
        )
    }
}

/// `m` scaled down by `k` powers of ten, dropping what falls below a
/// thousandth.
pub open spec fn spec_scale_down(m: int, k: int) -> int
    decreases k,
{
    if k <= 0 {
        m
    } else {
        spec_scale_down(m / 10, k - 1)
    }
}

pub proof fn lemma_scale_up(m: int, k: int)
    requires
        0 <= m <= cap(),
    ensures
        0 <= spec_scale_up(m, k) <= cap(),
    decreases k,
{
    if k > 0 {
        lemma_scale_up(
            if m > cap() / 10 {
                cap()
            } else {
                m * 10
            },
            k - 1,
        );
    }
}

pub proof fn lemma_scale_down(m: int, k: int)
    requires
        0 <= m <= cap(),
    ensures
        0 <= spec_scale_down(m, k) <= cap(),
    decreases k,
{
    if k > 0 {
        lemma_scale_down(m / 10, k - 1);
    }
}

/// Scale a magnitude up by `k` powers of ten, saturating.
fn scale_up(m: u64, k: u64) -> (r: u64)
    requires
        m as int <= cap(),
    ensures
        r as int == spec_scale_up(m as int, k as int),
        r as int <= cap(),
    decreases k,
{
    proof {
        lemma_scale_up(m as int, k as int);
    }
    if k == 0 {
        m
    } else {
        let m2: u64 = if m > 9223372036854775807u64 / 10 {
            9223372036854775807u64
        } else {
            m * 10
        };
        scale_up(m2, k - 1)
    }
}

/// Scale a magnitude down by `k` powers of ten.
fn scale_down(m: u64, k: u64) -> (r: u64)
    requires
        m as int <= cap(),
    ensures
        r as int == spec_scale_down(m as int, k as int),
        r as int <= cap(),
    decreases k,
{
    proof {
        lemma_scale_down(m as int, k as int);
    }
    if k == 0 {
        m
    } else {
        scale_down(m / 10, k - 1)
    }
}

/// A JSON number at `i`: its value in thousandths (saturating at `cap()`
/// thousandths in magnitude) and the position past its last byte.
pub open spec fn spec_number(s: Seq<u8>, i: int) -> Option<(int, int)> {
    let neg = 0 <= i < s.len() && s[i] == 45;
    let i1 = if neg {
        i + 1
    } else {
        i
    };
    if !(0 <= i1 < s.len() && is_digit(s[i1])) {
        None
    } else if s[i1] == 48 && i1 + 1 < s.len() && is_digit(s[i1 + 1]) {
        None
    } else {
        let (ival, i2) = if s[i1] == 48 {
            (0int, i1 + 1)
        } else {
            spec_digits(s, i1, 0)
        };
        if i2 < s.len() && s[i2] == 46 && !(i2 + 1 < s.len() && is_digit(s[i2 + 1])) {
            None
        } else {
            let (fval, i3) = if i2 < s.len() && s[i2] == 46 {
                spec_frac(s, i2 + 1, 0, 0)
            } else {
                (0int, i2)
            };
            let m1 = if ival > cap() / 1000 {
                cap()
            } else {
                ival * 1000
            };
            let m2 = if m1 > cap() - fval {
                cap()
            } else {
                m1 + fval
            };
            if i3 < s.len() && (s[i3] == 101 || s[i3] == 69) {
                let edown = i3 + 1 < s.len() && s[i3 + 1] == 45;
                let i4 = if i3 + 1 < s.len() && (s[i3 + 1] == 43 || s[i3 + 1] == 45) {
                    i3 + 2
                } else {
                    i3 + 1
                };
                if !(i4 < s.len() && is_digit(s[i4])) {
                    None
                } else {
                    let (ev, i5) = spec_digits(s, i4, 0);
                    let ek = if ev > 32 {
                        32int
                    } else {
                        ev
                    };
                    let m3 = if edown {
                        spec_scale_down(m2, ek)
                    } else {
                        spec_scale_up(m2, ek)
                    };
                    Some((if neg { -m3 } else { m3 }, i5))
                }
            } else {
                Some((if neg { -m2 } else { m2 }, i3))
            }
        }
    }
}

pub proof fn lemma_digits_advance(s: Seq<u8>, i: int, acc: int)
    requires
        0 <= i < s.len(),
        is_digit(s[i]),
        0 <= acc <= cap(),
    ensures
        i < spec_digits(s, i, acc).1 <= s.len(),
        0 <= spec_digits(s, i, acc).0 <= cap(),
{
    let d = s[i] as int - 48;
    let acc2: int = if acc > (cap() - d) / 10 {
        cap()
    } else {
        acc * 10 + d
    };
    assert(0 <= acc2 <= cap());
    lemma_digits(s, i + 1, acc2);
}

pub proof fn lemma_number(s: Seq<u8>, i: int)
    requires
        0 <= i <= s.len(),
    ensures
        spec_number(s, i) matches Some(r) ==> i < r.1 <= s.len() && -cap() <= r.0 <= cap(),
{
    let neg = 0 <= i < s.len() && s[i] == 45;
    let i1 = if neg {
        i + 1
    } else {
        i
    };
    if 0 <= i1 < s.len() && is_digit(s[i1]) {
        if !(s[i1] == 48 && i1 + 1 < s.len() && is_digit(s[i1 + 1])) {
            lemma_digits(s, i1, 0);
            let (ival, i2) = if s[i1] == 48 {
                (0int, i1 + 1)
            } else {
                spec_digits(s, i1, 0)
            };
            if s[i1] != 48 {
                lemma_digits_advance(s, i1, 0);
            }
            assert(i1 < i2);
            if i2 <= s.len() {
                if i2 < s.len() && s[i2] == 46 {
                    lemma_frac(s, i2 + 1, 0, 0);
                }
                let (fval, i3) = if i2 < s.len() && s[i2] == 46 {
                    spec_frac(s, i2 + 1, 0, 0)
                } else {
                    (0int, i2)
                };
                let m1 = if ival > cap() / 1000 {
                    cap()
                } else {
                    ival * 1000
                };
                let m2 = if m1 > cap() - fval {
                    cap()
                } else {
                    m1 + fval
                };
                assert(0 <= ival * 1000 <= cap() ==> 0 <= m1 <= cap());
                assert(ival <= cap() / 1000 ==> ival * 1000 <= cap()) by (nonlinear_arith);
                assert(0 <= m2 <= cap());
                if i3 < s.len() && (s[i3] == 101 || s[i3] == 69) {
                    let i4 = if i3 + 1 < s.len() && (s[i3 + 1] == 43 || s[i3 + 1] == 45) {
                        i3 + 2
                    } else {
                        i3 + 1
                    };
                    if i4 < s.len() && is_digit(s[i4]) {
                        lemma_digits(s, i4, 0);
                        let (ev, i5) = spec_digits(s, i4, 0);
                        let ek = if ev > 32 {
                            32int
                        } else {
                            ev
                        };
                        lemma_scale_down(m2, ek);
                        lemma_scale_up(m2, ek);
                    }
                }
            }
        }
    }
}

/// Read a JSON number, in thousandths.
pub fn parse_number(s: &[u8], i: usize) -> (r: Option<(i64, usize)>)
    requires
        i <= s@.len(),
    ensures
        match spec_number(s@, i as int) {
            Some(p) => r matches Some(q) && q.0 as int == p.0 && q.1 as int == p.1 && i < p.1
                <= s@.len(),
            None => r is None,
        },
{
    proof {
        lemma_number(s@, i as int);
    }
    let neg = i < s.len() && s[i] == 45;
    let i1 = if neg {
        i + 1
    } else {
        i
    };
    if !(i1 < s.len() && 48 <= s[i1] && s[i1] <= 57) {
        return None;
    }
    if s[i1] == 48 && i1 + 1 < s.len() && 48 <= s[i1 + 1] && s[i1 + 1] <= 57 {
        return None;
    }
    let (ival, i2): (u64, usize) = if s[i1] == 48 {
        (0, i1 + 1)
    } else {
        parse_digits(s, i1, 0)
    };
    if i2 < s.len() && s[i2] == 46 && !(i2 + 1 < s.len() && 48 <= s[i2 + 1] && s[i2 + 1] <= 57) {
        return None;
    }
    let (fval, i3): (u64, usize) = if i2 < s.len() && s[i2] == 46 {
        parse_frac(s, i2 + 1, 0, 0)
    } else {
        (0, i2)
    };
    let m1: u64 = if ival > 9223372036854775807u64 / 1000 {
        9223372036854775807u64
    } else {
        ival * 1000
    };
    let m2: u64 = if m1 > 9223372036854775807u64 - fval {
        9223372036854775807u64
    } else {
        m1 + fval
    };
    if i3 < s.len() && (s[i3] == 101 || s[i3] == 69) {
        let edown = i3 + 1 < s.len() && s[i3 + 1] == 45;
        let i4 = if i3 + 1 < s.len() && (s[i3 + 1] == 43 || s[i3 + 1] == 45) {
            i3 + 2
        } else {
            i3 + 1
        };
        if !(i4 < s.len() && 48 <= s[i4] && s[i4] <= 57) {
            return None;
        }
        let (ev, i5): (u64, usize) = parse_digits(s, i4, 0);
        let ek: u64 = if ev > 32 {
            32
        } else {
            ev
        };
        let m3: u64 = if edown {
            scale_down(m2, ek)
        } else {
            scale_up(m2, ek)
        };
        let v: i64 = if neg {
            -(m3 as i64)
        } else {
            m3 as i64
        };
        Some((v, i5))
    } else {
        let v: i64 = if neg {
            -(m2 as i64)
        } else {
            m2 as i64
        };
        Some((v, i3))
    }
}

/// Walk past one object or array, checking only that brackets pair up and
/// strings close; what it holds never matters to the protocol.
pub open spec fn spec_skip(s: Seq<u8>, i: int, stack: Seq<u8>, in_str: bool, esc: bool) -> Option<
    int,
>
    decreases s.len() - i,
{
    if i < 0 || i >= s.len() {
        None
    } else {
        let b = s[i];
        if in_str {
            if esc {
                spec_skip(s, i + 1, stack, true, false)
            } else if b == 92 {
                spec_skip(s, i + 1, stack, true, true)
            } else if b == 34 {
                spec_skip(s, i + 1, stack, false, false)
            } else {
                spec_skip(s, i + 1, stack, true, false)
            }
        } else if b == 123 {
            spec_skip(s, i + 1, stack.push(125), false, false)
        } else if b == 91 {
            spec_skip(s, i + 1, stack.push(93), false, false)
        } else if b == 125 || b == 93 {
            if stack.len() > 0 && stack.last() == b {
                if stack.len() == 1 {
                    Some(i + 1)
                } else {
                    spec_skip(s, i + 1, stack.drop_last(), false, false)
                }
            } else {
                None
            }
        } else if b == 34 {
            spec_skip(s, i + 1, stack, true, false)
        } else {
            spec_skip(s, i + 1, stack, false, false)
        }
    }
}

pub proof fn lemma_skip(s: Seq<u8>, i: int, stack: Seq<u8>, in_str: bool, esc: bool)
    requires
        0 <= i,
    ensures
        spec_skip(s, i, stack, in_str, esc) matches Some(j) ==> i < j <= s.len(),
    decreases s.len() - i,
{
    if 0 <= i < s.len() {
        let b = s[i];
        if in_str {
            lemma_skip(s, i + 1, stack, true, false);
            lemma_skip(s, i + 1, stack, true, true);
            lemma_skip(s, i + 1, stack, false, false);
        } else {
            lemma_skip(s, i + 1, stack.push(125), false, false);
            lemma_skip(s, i + 1, stack.push(93), false, false);
            if stack.len() > 1 {
                lemma_skip(s, i + 1, stack.drop_last(), false, false);
            }
            lemma_skip(s, i + 1, stack, true, false);
            lemma_skip(s, i + 1, stack, false, false);
        }
    }
}

/// Walk past one object or array.
pub fn skip_composite(s: &[u8], i: usize, stack: &mut Vec<u8>, in_str: bool, esc: bool) -> (r:
    Option<usize>)
    requires
        i <= s@.len(),
    ensures
        match spec_skip(s@, i as int, old(stack)@, in_str, esc) {
            Some(j) => r matches Some(q) && q as int == j && i < j <= s@.len(),
            None => r is None,
        },
    decreases s@.len() - i,
{
    proof {
        lemma_skip(s@, i as int, stack@, in_str, esc);
    }
    if i >= s.len() {
        return None;
    }
    let b = s[i];
    if in_str {
        if esc {
            skip_composite(s, i + 1, stack, true, false)
        } else if b == 92 {
            skip_composite(s, i + 1, stack, true, true)
        } else if b == 34 {
            skip_composite(s, i + 1, stack, false, false)
        } else {
            skip_composite(s, i + 1, stack, true, false)
        }
    } else if b == 123 {
        stack.push(125);
        skip_composite(s, i + 1, stack, false, false)
    } else if b == 91 {
        stack.push(93);
        skip_composite(s, i + 1, stack, false, false)
    } else if b == 125 || b == 93 {
        if stack.len() > 0 && stack[stack.len() - 1] == b {
            if stack.len() == 1 {
                Some(i + 1)
            } else {
                stack.pop();
                proof {
                    assert(stack@ =~= old(stack)@.drop_last());
                }
                skip_composite(s, i + 1, stack, false, false)
            }
        } else {
            None
        }
    } else if b == 34 {
        skip_composite(s, i + 1, stack, true, false)
    } else {
        skip_composite(s, i + 1, stack, false, false)
    }
}

/// One JSON value at `i`: scalars are read exactly, an object or array is
/// walked past and comes back as `Composite`.
pub open spec fn spec_value(s: Seq<u8>, i: int) -> Option<(JsonView, int)> {
    if !(0 <= i < s.len()) {
        None
    } else {
        let b = s[i];
        if b == 34 {
            match spec_string(s, i) {
                Some(p) => Some((JsonView::Str(p.0), p.1)),
                None => None,
            }
        } else if b == 45 || is_digit(b) {
            match spec_number(s, i) {
                Some(p) => Some((JsonView::Num(p.0), p.1)),
                None => None,
            }
        } else if b == 116 {
            if i + 3 < s.len() && s[i + 1] == 114 && s[i + 2] == 117 && s[i + 3] == 101 {
                Some((JsonView::Bool(true), i + 4))
            } else {
                None
            }
        } else if b == 102 {
            if i + 4 < s.len() && s[i + 1] == 97 && s[i + 2] == 108 && s[i + 3] == 115 && s[i + 4]
                == 101 {
                Some((JsonView::Bool(false), i + 5))
            } else {
                None
            }
        } else if b == 110 {
            if i + 3 < s.len() && s[i + 1] == 117 && s[i + 2] == 108 && s[i + 3] == 108 {
                Some((JsonView::Null, i + 4))
            } else {
                None
            }
        } else if b == 123 || b == 91 {
            match spec_skip(s, i, Seq::empty(), false, false) {
                Some(j) => Some((JsonView::Composite, j)),
                None => None,
            }
        } else {
            None
        }
    }
}

pub proof fn lemma_value(s: Seq<u8>, i: int)
    requires
        0 <= i,
    ensures
        spec_value(s, i) matches Some(p) ==> i < p.1 <= s.len(),
{
    if 0 <= i < s.len() {
        lemma_string_body(s, i + 1, Seq::empty());
        lemma_number(s, i);
        lemma_skip(s, i, Seq::empty(), false, false);
    }
}

/// Read one JSON value.
pub fn parse_value(s: &[u8], i: usize) -> (r: Option<(JsonValue, usize)>)
    requires
        i <= s@.len(),
    ensures
        match spec_value(s@, i as int) {
            Some(p) => r matches Some(q) && q.0@ == p.0 && q.1 as int == p.1 && i < p.1
                <= s@.len(),
            None => r is None,
        },
{
    proof {
        lemma_value(s@, i as int);
    }
    if i >= s.len() {
        return None;
    }
    let b = s[i];
    if b == 34 {
        match parse_string(s, i) {
            Some((q, j)) => Some((JsonValue::Str(q), j)),
            None => None,
        }
    } else if b == 45 || (48 <= b && b <= 57) {
        match parse_number(s, i) {
            Some((m, j)) => Some((JsonValue::Num(m), j)),
            None => None,
        }
    } else if b == 116 {
        if s.len() - i > 3 && s[i + 1] == 114 && s[i + 2] == 117 && s[i + 3] == 101 {
            Some((JsonValue::Bool(true), i + 4))
        } else {
            None
        }
    } else if b == 102 {
        if s.len() - i > 4 && s[i + 1] == 97 && s[i + 2] == 108 && s[i + 3] == 115 && s[i + 4]
            == 101 {
            Some((JsonValue::Bool(false), i + 5))
        } else {
            None
        }
    } else if b == 110 {
        if s.len() - i > 3 && s[i + 1] == 117 && s[i + 2] == 108 && s[i + 3] == 108 {
            Some((JsonValue::Null, i + 4))
        } else {
            None
        }
    } else if b == 123 || b == 91 {
        let mut stack: Vec<u8> = Vec::new();
        match skip_composite(s, i, &mut stack, false, false) {
            Some(j) => Some((JsonValue::Composite, j)),
            None => None,
        }
    } else {
        None
    }
}

} // verus!
