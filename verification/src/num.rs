//! Fixed-point numbers for the pipeline.
//!
//! Every statistic and every point total is carried as an `i64` count of
//! thousandths (milli-units), so that the scoring formula and the merge
//! policy are exact integer arithmetic. The parsers here read the decimal
//! text that table cells hold: an optional sign, digits, and at most one
//! decimal point; fractional digits beyond the third are dropped.

use vstd::prelude::*;

verus! {

/// Largest magnitude, in milli-units, that a parsed number may take.
/// Anything larger is treated as unparseable.
pub const MAX_MILLI: i64 = 1_000_000_000_000;

pub open spec fn is_digit(b: u8) -> bool {
    48 <= b && b <= 57
}

pub open spec fn digit_val(b: u8) -> int {
    b as int - 48
}

pub open spec fn all_digits(s: Seq<u8>) -> bool {
    forall|i: int| 0 <= i < s.len() ==> is_digit(#[trigger] s[i])
}

/// Value of a string of decimal digits, most significant first.
pub open spec fn digits_val(s: Seq<u8>) -> int
    decreases s.len(),
{
    if s.len() == 0 {
        0
    } else {
        digits_val(s.drop_last()) * 10 + digit_val(s.last())
    }
}

pub proof fn lemma_digits_val_nonneg(s: Seq<u8>)
    requires
        all_digits(s),
    ensures
        digits_val(s) >= 0,
    decreases s.len(),
{
    if s.len() > 0 {
        assert(all_digits(s.drop_last()));
        lemma_digits_val_nonneg(s.drop_last());
    }
}

proof fn lemma_take_succ(s: Seq<u8>, i: int)
    requires
        0 <= i < s.len(),
    ensures
        s.take(i + 1).drop_last() =~= s.take(i),
        s.take(i + 1).last() == s[i],
{
}

/// Appending digits never decreases the value.
proof fn lemma_digits_val_prefix(s: Seq<u8>, i: int)
    requires
        all_digits(s),
        0 <= i <= s.len(),
    ensures
        digits_val(s.take(i)) <= digits_val(s),
    decreases s.len() - i,
{
    if i < s.len() {
        assert(all_digits(s.take(i))) by {
            assert(forall|k: int| 0 <= k < i ==> s.take(i)[k] == s[k]);
        }
        lemma_take_succ(s, i);
        lemma_digits_val_nonneg(s.take(i));
        assert(digits_val(s.take(i + 1)) == digits_val(s.take(i)) * 10 + digit_val(s[i]));
        lemma_digits_val_prefix(s, i + 1);
        assert(s.take(s.len() as int) =~= s);
    } else {
        assert(s.take(i) =~= s);
    }
}

/// Value of the digits in `s[from..to]`, or `None` when it exceeds
/// `MAX_MILLI`.
#[verifier::loop_isolation(false)]
pub fn parse_digits(s: &[u8], from: usize, to: usize) -> (r: Option<i64>)
    requires
        from <= to <= s@.len(),
        all_digits(s@.subrange(from as int, to as int)),
    ensures
        match r {
            Option::Some(v) => v == digits_val(s@.subrange(from as int, to as int)) && 0 <= v
                <= MAX_MILLI,
            Option::None => digits_val(s@.subrange(from as int, to as int)) > MAX_MILLI,
        },
{
    let ghost whole = s@.subrange(from as int, to as int);
    proof {
        lemma_digits_val_nonneg(whole);
    }
    let mut acc: i64 = 0;
    let mut k: usize = from;
    while k < to
        invariant
            from <= k <= to <= s@.len(),
            whole == s@.subrange(from as int, to as int),
            all_digits(whole),
            0 <= acc <= MAX_MILLI,
            acc == digits_val(whole.take(k - from)),
        decreases to - k,
    {
        let ghost i = k - from;
        assert(is_digit(whole[i]));
        let d: u8 = s[k];
        proof {
            lemma_take_succ(whole, i);
        }
        let dv: i64 = (d - 48) as i64;
        if acc > (MAX_MILLI - dv) / 10 {
            proof {
                assert(digits_val(whole.take(i + 1)) == acc * 10 + dv);
                assert(acc * 10 + dv > MAX_MILLI) by (nonlinear_arith)
                    requires
                        acc > (MAX_MILLI - dv) / 10,
                        0 <= dv <= 9,
                        MAX_MILLI == 1_000_000_000_000i64,
                ;
                lemma_digits_val_prefix(whole, i + 1);
            }
            return Option::None;
        }
        proof {
            assert(acc * 10 + dv <= MAX_MILLI) by (nonlinear_arith)
                requires
                    acc <= (MAX_MILLI - dv) / 10,
                    0 <= acc,
                    0 <= dv <= 9,
                    MAX_MILLI == 1_000_000_000_000i64,
            ;
        }
        acc = acc * 10 + dv;
        k = k + 1;
    }
    assert(whole.take(to - from) =~= whole);
    Option::Some(acc)
}

/// An integer written as an optional sign followed by at least one digit.
pub open spec fn spec_parse_int(s: Seq<u8>) -> Option<int> {
    let body = if s.len() > 0 && (s[0] == 43 || s[0] == 45) {
        s.drop_first()
    } else {
        s
    };
    if body.len() > 0 && all_digits(body) {
        if s.len() > 0 && s[0] == 45 {
            Option::Some(-digits_val(body))
        } else {
            Option::Some(digits_val(body))
        }
    } else {
        Option::None
    }
}

/// Index of the first `.` in `s`, or `s.len()` when there is none.
pub open spec fn first_dot(s: Seq<u8>) -> int
    decreases s.len(),
{
    if s.len() == 0 {
        0
    } else if s[0] == 46 {
        0
    } else {
        1 + first_dot(s.drop_first())
    }
}

pub proof fn lemma_first_dot(s: Seq<u8>)
    ensures
        0 <= first_dot(s) <= s.len(),
        forall|i: int| 0 <= i < first_dot(s) ==> s[i] != 46,
        first_dot(s) < s.len() ==> s[first_dot(s)] == 46,
    decreases s.len(),
{
    if s.len() > 0 && s[0] != 46 {
        lemma_first_dot(s.drop_first());
        assert forall|i: int| 0 <= i < first_dot(s) implies s[i] != 46 by {
            if i > 0 {
                assert(s[i] == s.drop_first()[i - 1]);
            }
        }
    }
}

/// The first three fractional digits, scaled to thousandths.
pub open spec fn frac_milli(f: Seq<u8>) -> int {
    if f.len() >= 3 {
        digits_val(f.take(3))
    } else if f.len() == 2 {
        digits_val(f) * 10
    } else if f.len() == 1 {
        digits_val(f) * 100
    } else {
        0
    }
}

/// A decimal number without sign: digits around at most one point, with at
/// least one digit somewhere. Fractional digits beyond the third are dropped.
pub open spec fn spec_parse_unsigned_milli(s: Seq<u8>) -> Option<int> {
    let d = first_dot(s);
    let int_part = s.take(d);
    let frac = if d < s.len() {
        s.skip(d + 1)
    } else {
        Seq::<u8>::empty()
    };
    if all_digits(int_part) && all_digits(frac) && int_part.len() + frac.len() > 0 {
        Option::Some(digits_val(int_part) * 1000 + frac_milli(frac))
    } else {
        Option::None
    }
}

/// A decimal number: optional sign, then digits with at most one point.
pub open spec fn spec_parse_milli(s: Seq<u8>) -> Option<int> {
    if s.len() > 0 && (s[0] == 43 || s[0] == 45) {
        match spec_parse_unsigned_milli(s.drop_first()) {
            Option::Some(v) => Option::Some(
                if s[0] == 45 {
                    -v
                } else {
                    v
                },
            ),
            Option::None => Option::None,
        }
    } else {
        spec_parse_unsigned_milli(s)
    }
}

proof fn lemma_first_dot_unique(s: Seq<u8>, i: int)
    requires
        0 <= i <= s.len(),
        forall|j: int| 0 <= j < i ==> s[j] != 46,
        i < s.len() ==> s[i] == 46,
    ensures
        i == first_dot(s),
{
    lemma_first_dot(s);
    if i < first_dot(s) {
        assert(s[i] != 46);
        assert(i < s.len());
    } else if first_dot(s) < i {
        assert(s[first_dot(s)] == 46);
    }
}

/// Parses an integer: optional sign, then digits, nothing else.
#[verifier::loop_isolation(false)]
pub fn parse_int(s: &[u8]) -> (r: Option<i64>)
    ensures
        match spec_parse_int(s@) {
            Option::Some(v) => r == if -(MAX_MILLI as int) <= v <= MAX_MILLI as int {
                Option::Some(v as i64)
            } else {
                Option::None::<i64>
            },
            Option::None => r == Option::None::<i64>,
        },
{
    let n = s.len();
    let signed = n > 0 && (s[0] == 43 || s[0] == 45);
    let start: usize = if signed {
        1
    } else {
        0
    };
    let ghost body = s@.subrange(start as int, n as int);
    proof {
        if signed {
            assert(body =~= s@.drop_first());
        } else {
            assert(body =~= s@);
        }
    }
    if start >= n {
        return Option::None;
    }
    let mut k: usize = start;
    while k < n
        invariant
            start <= k <= n == s@.len(),
            body == s@.subrange(start as int, n as int),
            forall|i: int| start <= i < k ==> is_digit(#[trigger] s@[i]),
        decreases n - k,
    {
        if s[k] < 48 || s[k] > 57 {
            assert(!is_digit(body[k - start]));
            return Option::None;
        }
        k = k + 1;
    }
    assert(all_digits(body));
    match parse_digits(s, start, n) {
        Option::Some(v) => {
            proof {
                lemma_digits_val_nonneg(body);
            }
            if signed && s[0] == 45 {
                Option::Some(-v)
            } else {
                Option::Some(v)
            }
        },
        Option::None => Option::None,
    }
}

/// Parses the unsigned decimal in `s[start..]` to thousandths.
#[verifier::loop_isolation(false)]
fn parse_unsigned_milli(s: &[u8], start: usize) -> (r: Option<i64>)
    requires
        start <= s@.len(),
    ensures
        match spec_parse_unsigned_milli(s@.subrange(start as int, s@.len() as int)) {
            Option::Some(v) => r == if v <= MAX_MILLI as int {
                Option::Some(v as i64)
            } else {
                Option::None::<i64>
            } && v >= 0,
            Option::None => r == Option::None::<i64>,
        },
{
    let n = s.len();
    let ghost sub = s@.subrange(start as int, n as int);
    // find the first dot
    let mut d: usize = start;
    while d < n && s[d] != 46
        invariant
            start <= d <= n == s@.len(),
            forall|j: int| start <= j < d ==> s@[j] != 46,
        decreases n - d,
    {
        d = d + 1;
    }
    proof {
        assert(forall|j: int| 0 <= j < d - start ==> sub[j] != 46);
        lemma_first_dot_unique(sub, d - start);
    }
    let ghost int_part = sub.take(d - start);
    let ghost frac = if d < n {
        sub.skip(d - start + 1)
    } else {
        Seq::<u8>::empty()
    };
    proof {
        assert(int_part =~= s@.subrange(start as int, d as int));
        if d < n {
            assert(frac =~= s@.subrange(d + 1, n as int));
        }
    }
    // every remaining byte must be a digit
    let mut k: usize = start;
    while k < d
        invariant
            start <= k <= d <= n == s@.len(),
            int_part == s@.subrange(start as int, d as int),
            forall|i: int| start <= i < k ==> is_digit(#[trigger] s@[i]),
        decreases d - k,
    {
        if s[k] < 48 || s[k] > 57 {
            assert(!is_digit(int_part[k - start]));
            return Option::None;
        }
        k = k + 1;
    }
    assert(all_digits(int_part));
    let fstart: usize = if d < n {
        d + 1
    } else {
        n
    };
    let mut k2: usize = fstart;
    while k2 < n
        invariant
            fstart <= k2 <= n == s@.len(),
            forall|i: int| fstart <= i < k2 ==> is_digit(#[trigger] s@[i]),
        decreases n - k2,
    {
        if s[k2] < 48 || s[k2] > 57 {
            assert(!is_digit(frac[k2 - fstart]));
            return Option::None;
        }
        k2 = k2 + 1;
    }
    assert(all_digits(frac));
    if d == start && fstart == n {
        // no digit anywhere
        return Option::None;
    }
    let flen = n - fstart;
    let fend: usize = if flen >= 3 {
        fstart + 3
    } else {
        n
    };
    proof {
        assert(all_digits(s@.subrange(fstart as int, fend as int)));
        lemma_digits_val_small(s@.subrange(fstart as int, fend as int));
    }
    let frac_v: i64 = match parse_digits(s, fstart, fend) {
        Option::Some(v) => {
            proof {
                lemma_digits_val_nonneg(s@.subrange(fstart as int, fend as int));
                if flen >= 3 {
                    assert(frac.take(3) =~= s@.subrange(fstart as int, fend as int));
                } else {
                    assert(frac =~= s@.subrange(fstart as int, fend as int));
                }
            }
            if flen >= 3 {
                v
            } else if flen == 2 {
                v * 10
            } else if flen == 1 {
                v * 100
            } else {
                0
            }
        },
        Option::None => {
            // at most three digits always fit under the cap
            proof {
                assert(false);
            }
            0
        },
    };
    assert(frac_v == frac_milli(frac));
    assert(0 <= frac_v <= 999);
    match parse_digits(s, start, d) {
        Option::Some(iv) => {
            proof {
                lemma_digits_val_nonneg(int_part);
            }
            let total: i64 = iv * 1000 + frac_v;
            if total > MAX_MILLI {
                Option::None
            } else {
                Option::Some(total)
            }
        },
        Option::None => {
            // the integer part alone already exceeds the cap
            Option::None
        },
    }
}

/// The value of at most three digits stays under a thousand.
proof fn lemma_digits_val_small(s: Seq<u8>)
    requires
        all_digits(s),
        s.len() <= 3,
    ensures
        digits_val(s) < 1000,
        s.len() <= 2 ==> digits_val(s) < 100,
        s.len() <= 1 ==> digits_val(s) < 10,
    decreases s.len(),
{
    if s.len() > 0 {
        assert(all_digits(s.drop_last()));
        lemma_digits_val_small(s.drop_last());
        lemma_digits_val_nonneg(s.drop_last());
    }
}

/// Parses a decimal number to thousandths: optional sign, digits, at most one
/// point.
pub fn parse_milli(s: &[u8]) -> (r: Option<i64>)
    ensures
        match spec_parse_milli(s@) {
            Option::Some(v) => r == if -(MAX_MILLI as int) <= v <= MAX_MILLI as int {
                Option::Some(v as i64)
            } else {
                Option::None::<i64>
            },
            Option::None => r == Option::None::<i64>,
        },
{
    let n = s.len();
    let signed = n > 0 && (s[0] == 43 || s[0] == 45);
    let start: usize = if signed {
        1
    } else {
        0
    };
    proof {
        if signed {
            assert(s@.subrange(start as int, n as int) =~= s@.drop_first());
        } else {
            assert(s@.subrange(start as int, n as int) =~= s@);
        }
    }
    match parse_unsigned_milli(s, start) {
        Option::Some(v) => {
            if signed && s[0] == 45 {
                Option::Some(-v)
            } else {
                Option::Some(v)
            }
        },
        Option::None => Option::None,
    }
}

/// The lenient reading of a statistics cell: an unparseable or too large
/// value counts as zero.
pub open spec fn spec_lenient_milli(s: Seq<u8>) -> int {
    match spec_parse_milli(s) {
        Option::Some(v) => if -(MAX_MILLI as int) <= v <= MAX_MILLI as int {
            v
        } else {
            0
        },
        Option::None => 0,
    }
}

pub fn parse_milli_or_zero(s: &[u8]) -> (r: i64)
    ensures
        r == spec_lenient_milli(s@),
        -MAX_MILLI <= r <= MAX_MILLI,
{
    match parse_milli(s) {
        Option::Some(v) => v,
        Option::None => 0,
    }
}

/// Quotient of `n` and `d` rounded to the nearest integer, halves away from
/// zero.
pub open spec fn spec_round_div(n: int, d: int) -> int
    recommends
        d > 0,
{
    if n >= 0 {
        (n + d / 2) / d
    } else {
        -((-n + d / 2) / d)
    }
}

pub fn round_div(n: i64, d: i64) -> (r: i64)
    requires
        0 < d,
        -1_000_000_000_000_000_000 <= n <= 1_000_000_000_000_000_000,
        d <= 1_000_000_000_000_000_000,
    ensures
        r == spec_round_div(n as int, d as int),
        0 <= n ==> 0 <= r <= n,
        n < 0 ==> n <= r <= 0,
{
    if n >= 0 {
        let q = (n + d / 2) / d;
        proof {
            lemma_round_div_bound(n as int, d as int);
        }
        q
    } else {
        let m = -n;
        let q = (m + d / 2) / d;
        proof {
            lemma_round_div_bound(m as int, d as int);
        }
        -q
    }
}

proof fn lemma_round_div_bound(n: int, d: int)
    requires
        0 <= n,
        0 < d,
    ensures
        0 <= (n + d / 2) / d <= n,
{
    assert(0 <= (n + d / 2) / d <= n) by (nonlinear_arith)
        requires
            0 <= n,
            0 < d,
    ;
}

} // verus!
