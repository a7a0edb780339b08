//! The bio enricher's parsing.
//!
//! A player's detail page carries a labeled key/value section -- `Height`,
//! `Weight`, `Age`, `College` -- and a schedule table whose bye row marks
//! the team's bye week by its 1-indexed position. Fetching is the caller's
//! business; everything here reads the fetched text. A detail without a
//! key/value separator contributes nothing, and when a label repeats the
//! last value wins.

use vstd::prelude::*;

use crate::players::PlayerBio;
use crate::players::spec_parse_i32;
use crate::players::parse_i32;
use crate::players::bytes_eq;
use crate::text::copy_range;
use crate::text::trim_ws;
use crate::text::spec_trim_ws;

verus! {

/// The key/value separator of a bio detail: a colon and a space.
pub open spec fn kv_sep() -> Seq<u8> {
    seq![58u8, 32u8]
}

/// The bye marker text of a schedule row.
pub open spec fn bye_marker() -> Seq<u8> {
    seq![66u8, 89u8, 69u8]
}

/// Index of the first occurrence of `pat` in `s`, or `s.len()` when none.
pub open spec fn first_match(s: Seq<u8>, pat: Seq<u8>) -> int
    decreases s.len(),
{
    if pat.len() == 0 {
        0
    } else if s.len() < pat.len() {
        s.len() as int
    } else if s.take(pat.len() as int) == pat {
        0
    } else {
        1 + first_match(s.drop_first(), pat)
    }
}

pub proof fn lemma_first_match(s: Seq<u8>, pat: Seq<u8>)
    requires
        pat.len() > 0,
    ensures
        0 <= first_match(s, pat) <= s.len(),
        first_match(s, pat) < s.len() ==> first_match(s, pat) + pat.len() <= s.len() && s.subrange(
            first_match(s, pat),
            first_match(s, pat) + pat.len(),
        ) == pat,
        forall|i: int|
            0 <= i < first_match(s, pat) && i + pat.len() <= s.len() ==> #[trigger] s.subrange(
                i,
                i + pat.len(),
            ) != pat,
    decreases s.len(),
{
    if s.len() < pat.len() {
    } else if s.take(pat.len() as int) == pat {
        assert(s.subrange(0, pat.len() as int) =~= s.take(pat.len() as int));
    } else {
        lemma_first_match(s.drop_first(), pat);
        let m = first_match(s, pat);
        if m < s.len() {
            assert(s.drop_first().subrange(m - 1, m - 1 + pat.len()) =~= s.subrange(
                m,
                m + pat.len(),
            ));
        }
        assert forall|i: int|
            0 <= i < m && i + pat.len() <= s.len() implies #[trigger] s.subrange(i, i + pat.len())
            != pat by {
            if i == 0 {
                assert(s.subrange(0, pat.len() as int) =~= s.take(pat.len() as int));
            } else {
                assert(s.drop_first().subrange(i - 1, i - 1 + pat.len()) =~= s.subrange(
                    i,
                    i + pat.len(),
                ));
            }
        }
    }
}

pub proof fn lemma_first_match_unique(s: Seq<u8>, pat: Seq<u8>, i: int)
    requires
        pat.len() > 0,
        0 <= i <= s.len(),
        forall|j: int|
            0 <= j < i && j + pat.len() <= s.len() ==> #[trigger] s.subrange(j, j + pat.len())
                != pat,
        i < s.len() ==> i + pat.len() <= s.len() && s.subrange(i, i + pat.len()) == pat,
    ensures
        i == first_match(s, pat),
{
    lemma_first_match(s, pat);
    let m = first_match(s, pat);
    if i < m {
        assert(s.subrange(i, i + pat.len()) == pat);
        assert(i + pat.len() <= s.len());
    } else if m < i {
        assert(s.subrange(m, m + pat.len()) == pat);
    }
}

/// A bio detail split at its first separator: the label, and the value that
/// runs to the next separator or the end. A detail without a separator
/// yields nothing.
pub open spec fn spec_split_detail(s: Seq<u8>) -> Option<(Seq<u8>, Seq<u8>)> {
    let m = first_match(s, kv_sep());
    if m >= s.len() {
        Option::None
    } else {
        let vstart = m + 2;
        let rel = first_match(s.skip(vstart), kv_sep());
        Option::Some((s.take(m), s.subrange(vstart, vstart + rel)))
    }
}

/// Splits one detail text into its label and value.
#[verifier::loop_isolation(false)]
pub fn split_detail(s: &[u8]) -> (r: Option<(Vec<u8>, Vec<u8>)>)
    ensures
        match spec_split_detail(s@) {
            Option::None => r is None,
            Option::Some(kv) => r is Some && (r->0).0@ == kv.0 && (r->0).1@ == kv.1,
        },
{
    let n = s.len();
    let m = find_sep(s, 0);
    proof {
        lemma_first_match_unique(s@, kv_sep(), m as int);
    }
    if m >= n {
        return Option::None;
    }
    let vstart = m + 2;
    let m2 = find_sep(s, vstart);
    proof {
        let rest = s@.skip(vstart as int);
        assert forall|j: int|
            0 <= j < m2 - vstart && j + 2 <= rest.len() implies #[trigger] rest.subrange(j, j + 2)
            != kv_sep() by {
            assert(rest.subrange(j, j + 2) =~= s@.subrange(vstart + j, vstart + j + 2));
        }
        if m2 < n {
            assert(rest.subrange(m2 - vstart, m2 - vstart + 2) =~= s@.subrange(
                m2 as int,
                m2 + 2,
            ));
        }
        lemma_first_match_unique(rest, kv_sep(), m2 - vstart);
        assert(s@.take(m as int) =~= s@.subrange(0, m as int));
    }
    let key = copy_range(s, 0, m);
    let value = copy_range(s, vstart, m2);
    Option::Some((key, value))
}

/// Finds the first colon-space separator at or after `from`; `s.len()` when
/// none follows.
#[verifier::loop_isolation(false)]
fn find_sep(s: &[u8], from: usize) -> (r: usize)
    requires
        from <= s@.len(),
    ensures
        from <= r <= s@.len(),
        r < s@.len() ==> r + 2 <= s@.len() && s@.subrange(r as int, r + 2) == kv_sep(),
        forall|j: int|
            from <= j < r && j + 2 <= s@.len() ==> #[trigger] s@.subrange(j, j + 2) != kv_sep(),
{
    let n = s.len();
    let mut i: usize = from;
    while i < n
        invariant
            from <= i <= n == s@.len(),
            forall|j: int|
                from <= j < i && j + 2 <= n ==> #[trigger] s@.subrange(j, j + 2) != kv_sep(),
        decreases n - i,
    {
        if n - i >= 2 && s[i] == 58 && s[i + 1] == 32 {
            proof {
                assert(s@.subrange(i as int, i + 2) =~= kv_sep());
            }
            return i;
        }
        proof {
            if i + 2 <= n {
                assert(s@.subrange(i as int, i + 2)[0] == s@[i as int]);
                assert(s@.subrange(i as int, i + 2)[1] == s@[i + 1]);
                assert(s@.subrange(i as int, i + 2) != kv_sep());
            }
        }
        i = i + 1;
    }
    n
}

/// The label/value pairs of a detail section, in order.
pub open spec fn spec_detail_pairs(details: Seq<Seq<u8>>) -> Seq<(Seq<u8>, Seq<u8>)>
    decreases details.len(),
{
    if details.len() == 0 {
        Seq::<(Seq<u8>, Seq<u8>)>::empty()
    } else {
        spec_detail_pairs(details.drop_last()) + (match spec_split_detail(details.last()) {
            Option::Some(kv) => seq![kv],
            Option::None => Seq::<(Seq<u8>, Seq<u8>)>::empty(),
        })
    }
}

/// The value under a label; when the label repeats, the last value wins.
pub open spec fn spec_lookup(pairs: Seq<(Seq<u8>, Seq<u8>)>, key: Seq<u8>) -> Option<Seq<u8>>
    decreases pairs.len(),
{
    if pairs.len() == 0 {
        Option::None
    } else if pairs.last().0 == key {
        Option::Some(pairs.last().1)
    } else {
        spec_lookup(pairs.drop_last(), key)
    }
}

/// The value a detail section gives a label.
pub open spec fn spec_bio_field(details: Seq<Seq<u8>>, key: Seq<u8>) -> Option<Seq<u8>> {
    spec_lookup(spec_detail_pairs(details), key)
}

/// Reads the value under `key` from the detail texts; an absent label reads
/// as an empty value.
#[verifier::loop_isolation(false)]
pub fn get_bio_field(details: &Vec<Vec<u8>>, key: &[u8]) -> (r: Vec<u8>)
    ensures
        r@ == match spec_bio_field(details.deep_view(), key@) {
            Option::Some(v) => v,
            Option::None => Seq::<u8>::empty(),
        },
{
    let ghost dv = details.deep_view();
    let n = details.len();
    proof {
        assert(dv.len() == n);
    }
    let mut i: usize = n;
    proof {
        assert(dv.take(n as int) =~= dv);
    }
    while i > 0
        invariant
            0 <= i <= n == details@.len(),
            dv == details.deep_view(),
            spec_lookup(spec_detail_pairs(dv), key@) == spec_lookup(
                spec_detail_pairs(dv.take(i as int)),
                key@,
            ),
        decreases i,
    {
        proof {
            assert(details.deep_view()[i - 1] == details@[i - 1].deep_view());
            assert(details@[i - 1].deep_view() =~= details@[i - 1]@);
            assert(dv.take(i as int).drop_last() =~= dv.take(i - 1));
            assert(dv.take(i as int).last() == dv[i - 1]);
        }
        match split_detail(details[i - 1].as_slice()) {
            Option::Some(kv) => {
                let ghost pairs = spec_detail_pairs(dv.take(i as int));
                proof {
                    assert(pairs =~= spec_detail_pairs(dv.take(i - 1)) + seq![
                        spec_split_detail(dv[i - 1])->0,
                    ]);
                    assert(pairs.last() == spec_split_detail(dv[i - 1])->0);
                    assert(pairs.drop_last() =~= spec_detail_pairs(dv.take(i - 1)));
                }
                if bytes_eq(kv.0.as_slice(), key) {
                    return kv.1;
                }
            },
            Option::None => {
                proof {
                    assert(spec_detail_pairs(dv.take(i as int)) =~= spec_detail_pairs(
                        dv.take(i - 1),
                    ));
                }
            },
        }
        i = i - 1;
    }
    proof {
        assert(dv.take(0) =~= Seq::<Seq<u8>>::empty());
    }
    Vec::new()
}

/// Whether a schedule row marks the bye: it has an opponent cell and that
/// cell reads `BYE` once trimmed.
pub open spec fn is_bye_row(row: Seq<Seq<u8>>) -> bool {
    row.len() >= 2 && spec_trim_ws(row[1]) == bye_marker()
}

/// Index of the first bye row, or the number of rows when none is marked.
pub open spec fn first_bye_row(rows: Seq<Seq<Seq<u8>>>) -> int
    decreases rows.len(),
{
    if rows.len() == 0 {
        0
    } else if is_bye_row(rows[0]) {
        0
    } else {
        1 + first_bye_row(rows.drop_first())
    }
}

pub proof fn lemma_first_bye_row(rows: Seq<Seq<Seq<u8>>>)
    ensures
        0 <= first_bye_row(rows) <= rows.len(),
        forall|i: int| 0 <= i < first_bye_row(rows) ==> !is_bye_row(#[trigger] rows[i]),
        first_bye_row(rows) < rows.len() ==> is_bye_row(rows[first_bye_row(rows)]),
    decreases rows.len(),
{
    if rows.len() > 0 && !is_bye_row(rows[0]) {
        lemma_first_bye_row(rows.drop_first());
        assert forall|i: int| 0 <= i < first_bye_row(rows) implies !is_bye_row(rows[i]) by {
            if i > 0 {
                assert(rows[i] == rows.drop_first()[i - 1]);
            }
        }
    }
}

proof fn lemma_first_bye_row_unique(rows: Seq<Seq<Seq<u8>>>, i: int)
    requires
        0 <= i <= rows.len(),
        forall|j: int| 0 <= j < i ==> !is_bye_row(#[trigger] rows[j]),
        i < rows.len() ==> is_bye_row(rows[i]),
    ensures
        i == first_bye_row(rows),
{
    lemma_first_bye_row(rows);
    if i < first_bye_row(rows) {
        assert(!is_bye_row(rows[i]));
    } else if first_bye_row(rows) < i {
        assert(is_bye_row(rows[first_bye_row(rows)]));
    }
}

/// The bye week a schedule table shows: the 1-indexed position of the first
/// bye row. A schedule without one, or one laid out past any sane length,
/// gives none.
pub open spec fn spec_bye_week(rows: Seq<Seq<Seq<u8>>>) -> Option<i32> {
    let i = first_bye_row(rows);
    if i < rows.len() && i + 1 <= 0x7fff_ffff {
        Option::Some((i + 1) as i32)
    } else {
        Option::None
    }
}

/// Scans the schedule rows for the bye marker.
#[verifier::loop_isolation(false)]
pub fn find_bye_week(rows: &Vec<Vec<Vec<u8>>>) -> (r: Option<i32>)
    ensures
        r == spec_bye_week(rows.deep_view()),
{
    let ghost rv = rows.deep_view();
    let n = rows.len();
    proof {
        assert(rv.len() == n);
    }
    let mut i: usize = 0;
    while i < n
        invariant
            0 <= i <= n == rows@.len(),
            rv == rows.deep_view(),
            forall|j: int| 0 <= j < i ==> !is_bye_row(#[trigger] rv[j]),
        decreases n - i,
    {
        proof {
            assert(rows.deep_view()[i as int] == rows@[i as int].deep_view());
        }
        let row: &Vec<Vec<u8>> = &rows[i];
        if row.len() >= 2 {
            proof {
                assert(rv[i as int][1] =~= row@[1]@);
            }
            let trimmed = trim_ws(row[1].as_slice());
            let marker: [u8; 3] = [66u8, 89u8, 69u8];
            proof {
                assert(marker@ =~= bye_marker());
            }
            if bytes_eq(trimmed.as_slice(), marker.as_slice()) {
                proof {
                    assert(is_bye_row(rv[i as int]));
                    lemma_first_bye_row_unique(rv, i as int);
                }
                if i < 0x7fff_ffff {
                    return Option::Some((i + 1) as i32);
                } else {
                    return Option::None;
                }
            }
        }
        proof {
            assert(!is_bye_row(rv[i as int]));
        }
        i = i + 1;
    }
    proof {
        lemma_first_bye_row_unique(rv, n as int);
    }
    Option::None
}

/// The parsed bio fields agree with what the detail texts and the schedule
/// rows said.
pub open spec fn bio_matches(b: PlayerBio, details: Seq<Seq<u8>>, rows: Seq<Seq<Seq<u8>>>) -> bool {
    &&& b.height@ == match spec_bio_field(details, label_height()) {
        Option::Some(v) => v,
        Option::None => Seq::<u8>::empty(),
    }
    &&& b.weight@ == match spec_bio_field(details, label_weight()) {
        Option::Some(v) => v,
        Option::None => Seq::<u8>::empty(),
    }
    &&& b.age == (match spec_bio_field(details, label_age()) {
        Option::Some(v) => spec_parse_i32(v),
        Option::None => Option::None,
    })
    &&& b.college@ == match spec_bio_field(details, label_college()) {
        Option::Some(v) => v,
        Option::None => Seq::<u8>::empty(),
    }
    &&& b.bye_week == spec_bye_week(rows)
}

pub open spec fn label_height() -> Seq<u8> {
    seq![72u8, 101u8, 105u8, 103u8, 104u8, 116u8]
}

pub open spec fn label_weight() -> Seq<u8> {
    seq![87u8, 101u8, 105u8, 103u8, 104u8, 116u8]
}

pub open spec fn label_age() -> Seq<u8> {
    seq![65u8, 103u8, 101u8]
}

pub open spec fn label_college() -> Seq<u8> {
    seq![67u8, 111u8, 108u8, 108u8, 101u8, 103u8, 101u8]
}

/// Assembles a player's bio from the detail texts of the labeled section
/// and the rows of the schedule table. A missing label leaves its field
/// empty; an age that is not an integer reads as none.
pub fn parse_player_bio(details: &Vec<Vec<u8>>, sched_rows: &Vec<Vec<Vec<u8>>>) -> (r: PlayerBio)
    ensures
        bio_matches(r, details.deep_view(), sched_rows.deep_view()),
{
    let l_height: [u8; 6] = [72u8, 101u8, 105u8, 103u8, 104u8, 116u8];
    let l_weight: [u8; 6] = [87u8, 101u8, 105u8, 103u8, 104u8, 116u8];
    let l_age: [u8; 3] = [65u8, 103u8, 101u8];
    let l_college: [u8; 7] = [67u8, 111u8, 108u8, 108u8, 101u8, 103u8, 101u8];
    proof {
        assert(l_height@ =~= label_height());
        assert(l_weight@ =~= label_weight());
        assert(l_age@ =~= label_age());
        assert(l_college@ =~= label_college());
    }
    let height = get_bio_field(details, l_height.as_slice());
    let weight = get_bio_field(details, l_weight.as_slice());
    let age_text = get_bio_field(details, l_age.as_slice());
    let college = get_bio_field(details, l_college.as_slice());
    let age = parse_i32(age_text.as_slice());
    proof {
        if spec_bio_field(details.deep_view(), label_age()) is None {
            assert(age_text@ == Seq::<u8>::empty());
            assert(spec_parse_i32(age_text@) is None);
        }
    }
    let bye_week = find_bye_week(sched_rows);
    PlayerBio { height, weight, age, college, bye_week }
}

} // verus!
