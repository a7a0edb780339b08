//! Byte-string helpers for the page text the pipeline reads.
//!
//! Page text arrives as UTF-8 bytes. The team label is trimmed of the
//! parentheses around it, schedule cells are trimmed of whitespace before
//! the bye marker test, and a player's schedule address is derived from the
//! detail address by substituting one path segment.

use vstd::prelude::*;

use crate::players::bytes_eq;

verus! {

/// Bytes that `trim_parens` strips: `(` and `)`.
pub open spec fn is_paren(b: u8) -> bool {
    b == 40 || b == 41
}

/// ASCII whitespace, as `trim_ws` strips it byte by byte.
pub open spec fn is_ws(b: u8) -> bool {
    b == 32 || b == 9 || b == 10 || b == 11 || b == 12 || b == 13
}

/// `s` without leading or trailing whitespace: ASCII whitespace bytes, and
/// the two-byte UTF-8 form of the non-breaking space that HTML tables
/// commonly pad cells with. Other Unicode spaces are rare in these tables
/// and stay.
pub open spec fn spec_trim_ws(s: Seq<u8>) -> Seq<u8>
    decreases s.len(),
{
    if s.len() > 0 && is_ws(s[0]) {
        spec_trim_ws(s.drop_first())
    } else if s.len() >= 2 && s[0] == 194 && s[1] == 160 {
        spec_trim_ws(s.skip(2))
    } else if s.len() > 0 && is_ws(s.last()) {
        spec_trim_ws(s.drop_last())
    } else if s.len() >= 2 && s[s.len() - 2] == 194 && s[s.len() - 1] == 160 {
        spec_trim_ws(s.take(s.len() - 2))
    } else {
        s
    }
}

/// `s` without any leading or trailing bytes satisfying `p`.
pub open spec fn spec_trim(s: Seq<u8>, p: spec_fn(u8) -> bool) -> Seq<u8>
    decreases s.len(),
{
    if s.len() > 0 && p(s[0]) {
        spec_trim(s.drop_first(), p)
    } else if s.len() > 0 && p(s.last()) {
        spec_trim(s.drop_last(), p)
    } else {
        s
    }
}

/// Copies `s[from..to]` out as an owned vector.
#[verifier::loop_isolation(false)]
pub fn copy_range(s: &[u8], from: usize, to: usize) -> (r: Vec<u8>)
    requires
        from <= to <= s@.len(),
    ensures
        r@ == s@.subrange(from as int, to as int),
{
    let mut out: Vec<u8> = Vec::new();
    let mut i: usize = from;
    while i < to
        invariant
            from <= i <= to,
            out@ =~= s@.subrange(from as int, i as int),
        decreases to - i,
    {
        out.push(s[i]);
        assert(out@ =~= s@.subrange(from as int, i + 1));
        i = i + 1;
    }
    out
}

/// Appends `s[from..to]` to `out`.
#[verifier::loop_isolation(false)]
pub fn append_range(out: &mut Vec<u8>, s: &[u8], from: usize, to: usize)
    requires
        from <= to <= s@.len(),
    ensures
        final(out)@ == old(out)@ + s@.subrange(from as int, to as int),
{
    let mut i: usize = from;
    while i < to
        invariant
            from <= i <= to,
            out@ =~= old(out)@ + s@.subrange(from as int, i as int),
        decreases to - i,
    {
        out.push(s[i]);
        assert(out@ =~= old(out)@ + s@.subrange(from as int, i + 1));
        i = i + 1;
    }
    assert(out@ =~= old(out)@ + s@.subrange(from as int, to as int));
}

/// The team label without the parentheses that the page puts around it.
#[verifier::loop_isolation(false)]
pub fn trim_parens(s: &[u8]) -> (r: Vec<u8>)
    ensures
        r@ == spec_trim(s@, |b: u8| is_paren(b)),
{
    let ghost p = |b: u8| is_paren(b);
    let n = s.len();
    let mut lo: usize = 0;
    let mut hi: usize = n;
    proof {
        assert(s@.subrange(0, n as int) =~= s@);
    }
    while lo < hi && (s[lo] == 40 || s[lo] == 41)
        invariant
            0 <= lo <= hi <= n == s@.len(),
            spec_trim(s@.subrange(lo as int, hi as int), p) == spec_trim(s@, p),
        decreases hi - lo,
    {
        proof {
            let sub = s@.subrange(lo as int, hi as int);
            assert(p(sub[0]));
            assert(sub.drop_first() =~= s@.subrange(lo + 1, hi as int));
        }
        lo = lo + 1;
    }
    while lo < hi && (s[hi - 1] == 40 || s[hi - 1] == 41)
        invariant
            0 <= lo <= hi <= n == s@.len(),
            spec_trim(s@.subrange(lo as int, hi as int), p) == spec_trim(s@, p),
            lo == hi || !p(s@[lo as int]),
        decreases hi - lo,
    {
        proof {
            let sub = s@.subrange(lo as int, hi as int);
            assert(!p(sub[0]));
            assert(p(sub.last()));
            assert(sub.drop_last() =~= s@.subrange(lo as int, hi - 1));
        }
        hi = hi - 1;
    }
    proof {
        let sub = s@.subrange(lo as int, hi as int);
        if sub.len() > 0 {
            assert(!p(sub[0]));
            assert(sub.last() == s@[hi - 1]);
            assert(!p(sub.last()));
        }
        assert(spec_trim(sub, p) == sub);
    }
    copy_range(s, lo, hi)
}

/// The cell text without leading or trailing whitespace, non-breaking
/// spaces included.
#[verifier::loop_isolation(false)]
pub fn trim_ws(s: &[u8]) -> (r: Vec<u8>)
    ensures
        r@ == spec_trim_ws(s@),
{
    let n = s.len();
    let mut lo: usize = 0;
    let mut hi: usize = n;
    proof {
        assert(s@.subrange(0, n as int) =~= s@);
    }
    loop
        invariant
            0 <= lo <= hi <= n == s@.len(),
            spec_trim_ws(s@.subrange(lo as int, hi as int)) == spec_trim_ws(s@),
        decreases hi - lo,
    {
        let ghost sub = s@.subrange(lo as int, hi as int);
        if lo < hi && (s[lo] == 32 || (9 <= s[lo] && s[lo] <= 13)) {
            proof {
                assert(is_ws(sub[0]));
                assert(sub.drop_first() =~= s@.subrange(lo + 1, hi as int));
            }
            lo = lo + 1;
        } else if hi - lo >= 2 && s[lo] == 194 && s[lo + 1] == 160 {
            proof {
                assert(sub.skip(2) =~= s@.subrange(lo + 2, hi as int));
            }
            lo = lo + 2;
        } else {
            break ;
        }
    }
    loop
        invariant
            0 <= lo <= hi <= n == s@.len(),
            spec_trim_ws(s@.subrange(lo as int, hi as int)) == spec_trim_ws(s@),
            head_clear(s@, lo as int, hi as int),
        decreases hi - lo,
    {
        let ghost sub = s@.subrange(lo as int, hi as int);
        if lo < hi && (s[hi - 1] == 32 || (9 <= s[hi - 1] && s[hi - 1] <= 13)) {
            proof {
                assert(is_ws(sub.last()));
                assert(sub.drop_last() =~= s@.subrange(lo as int, hi - 1));
            }
            hi = hi - 1;
        } else if hi - lo >= 2 && s[hi - 2] == 194 && s[hi - 1] == 160 {
            proof {
                assert(sub[sub.len() - 2] == s@[hi - 2]);
                assert(sub.last() == s@[hi - 1]);
                assert(sub.take(sub.len() - 2) =~= s@.subrange(lo as int, hi - 2));
            }
            hi = hi - 2;
        } else {
            break ;
        }
    }
    proof {
        let sub = s@.subrange(lo as int, hi as int);
        assert(spec_trim_ws(sub) == sub);
    }
    copy_range(s, lo, hi)
}

/// The head of `s[lo..hi]` is neither a whitespace byte nor the start of a
/// non-breaking space, so only its tail can still shrink.
spec fn head_clear(s: Seq<u8>, lo: int, hi: int) -> bool {
    lo == hi || (!is_ws(s[lo]) && !(hi - lo >= 2 && s[lo] == 194 && s[lo + 1] == 160))
}

/// `s` with every occurrence of `pat` replaced by `sub`, scanning left to
/// right without overlap. An empty pattern replaces nothing.
pub open spec fn spec_replace(s: Seq<u8>, pat: Seq<u8>, sub: Seq<u8>) -> Seq<u8>
    decreases s.len(),
{
    if pat.len() == 0 || s.len() < pat.len() {
        s
    } else if s.take(pat.len() as int) == pat {
        sub + spec_replace(s.skip(pat.len() as int), pat, sub)
    } else {
        seq![s[0]] + spec_replace(s.drop_first(), pat, sub)
    }
}

/// Substitutes every occurrence of `pat` in `s` by `sub`.
#[verifier::loop_isolation(false)]
pub fn replace(s: &[u8], pat: &[u8], sub: &[u8]) -> (r: Vec<u8>)
    ensures
        r@ == spec_replace(s@, pat@, sub@),
{
    let n = s.len();
    let plen = pat.len();
    if plen == 0 {
        return copy_range(s, 0, n);
    }
    let mut out: Vec<u8> = Vec::new();
    let mut i: usize = 0;
    proof {
        assert(s@.skip(0) =~= s@);
        assert(out@ + spec_replace(s@, pat@, sub@) =~= spec_replace(s@, pat@, sub@));
    }
    while i < n
        invariant
            0 <= i <= n == s@.len(),
            plen == pat@.len(),
            plen > 0,
            spec_replace(s@, pat@, sub@) == out@ + spec_replace(
                s@.skip(i as int),
                pat@,
                sub@,
            ),
        decreases n - i,
    {
        let ghost rest = s@.skip(i as int);
        let ghost prev = out@;
        if plen <= n - i && bytes_eq(vstd::slice::slice_subrange(s, i, i + plen), pat) {
            proof {
                assert(rest.take(plen as int) =~= s@.subrange(i as int, i + plen));
                assert(rest.skip(plen as int) =~= s@.skip(i + plen));
                assert(spec_replace(rest, pat@, sub@) == sub@ + spec_replace(
                    s@.skip(i + plen),
                    pat@,
                    sub@,
                ));
            }
            append_range(&mut out, sub, 0, sub.len());
            proof {
                assert(sub@.subrange(0, sub@.len() as int) =~= sub@);
                assert(out@ =~= prev + sub@);
                assert((prev + sub@) + spec_replace(s@.skip(i + plen), pat@, sub@) =~= prev + (
                sub@ + spec_replace(s@.skip(i + plen), pat@, sub@)));
            }
            i = i + plen;
        } else {
            proof {
                assert(rest.drop_first() =~= s@.skip(i + 1));
                if plen <= n - i {
                    assert(rest.take(plen as int) =~= s@.subrange(i as int, i + plen));
                    assert(rest.take(plen as int) != pat@);
                    assert(spec_replace(rest, pat@, sub@) == seq![rest[0]] + spec_replace(
                        s@.skip(i + 1),
                        pat@,
                        sub@,
                    ));
                } else {
                    assert(rest.len() < plen);
                    assert(spec_replace(rest, pat@, sub@) == rest);
                    assert(spec_replace(s@.skip(i + 1), pat@, sub@) == s@.skip(i + 1));
                    assert(rest =~= seq![rest[0]] + s@.skip(i + 1));
                }
            }
            let b = s[i];
            out.push(b);
            proof {
                assert(rest[0] == b);
                assert(out@ =~= prev + seq![b]);
                assert(prev + (seq![b] + spec_replace(s@.skip(i + 1), pat@, sub@)) =~= out@
                    + spec_replace(s@.skip(i + 1), pat@, sub@));
            }
            i = i + 1;
        }
        proof {
            assert(spec_replace(s@, pat@, sub@) == out@ + spec_replace(
                s@.skip(i as int),
                pat@,
                sub@,
            ));
        }
    }
    proof {
        assert(s@.skip(n as int) =~= Seq::<u8>::empty());
        assert(spec_replace(Seq::<u8>::empty(), pat@, sub@) == Seq::<u8>::empty());
        assert(out@ =~= out@ + Seq::<u8>::empty());
    }
    out
}

} // verus!
