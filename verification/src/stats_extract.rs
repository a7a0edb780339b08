//! The statistics extractor.
//!
//! Each of the six position categories has one statistics page with a plain
//! table: two leading rank and name columns, then one column per field of
//! the category's schema. Cells are parsed leniently -- stat tables render
//! blank cells for true zeros, so an unparseable cell is a zero, in contrast
//! to the strict rankings pass. A player id is read from the row's class
//! attribute; a row without one is dropped. A player that appears in more
//! than one category keeps the field-wise maximum of all values reported.

use vstd::prelude::*;

use crate::num::spec_lenient_milli;
use crate::num::MAX_MILLI;
use crate::num::parse_milli_or_zero;
use crate::players::Position;
use crate::players::spec_parse_i32;
use crate::players::parse_i32;
use crate::rankings::first_digit_idx;
use crate::rankings::digit_run_end;
use crate::rankings::lemma_first_digit_idx;
use crate::schema::StatField;
use crate::schema::spec_category_schema;
use crate::schema::category_schema;
use crate::stats::Stats;
use crate::stats::StatsBase;
use crate::stats::spec_zero_base;
use crate::stats::spec_merge_stats;
use crate::stats::spec_apply_scoring;
use crate::stats::apply_scoring;
use crate::stats::base_in_range;
use crate::text::copy_range;

verus! {

/// The statistics page of a category.
pub open spec fn spec_stats_url(p: Position) -> Seq<char> {
    match p {
        Position::QB => "https://www.fantasypros.com/nfl/stats/qb/"@,
        Position::RB => "https://www.fantasypros.com/nfl/stats/rb/"@,
        Position::WR => "https://www.fantasypros.com/nfl/stats/wr/"@,
        Position::TE => "https://www.fantasypros.com/nfl/stats/te/"@,
        Position::K => "https://www.fantasypros.com/nfl/stats/k/"@,
        Position::DST => "https://www.fantasypros.com/nfl/stats/dst/"@,
    }
}

/// The address of the category's statistics table: the fixed base with the
/// category's path segment appended.
pub fn build_url(p: Position) -> (r: &'static str)
    ensures
        r@ == spec_stats_url(p),
{
    match p {
        Position::QB => "https://www.fantasypros.com/nfl/stats/qb/",
        Position::RB => "https://www.fantasypros.com/nfl/stats/rb/",
        Position::WR => "https://www.fantasypros.com/nfl/stats/wr/",
        Position::TE => "https://www.fantasypros.com/nfl/stats/te/",
        Position::K => "https://www.fantasypros.com/nfl/stats/k/",
        Position::DST => "https://www.fantasypros.com/nfl/stats/dst/",
    }
}

/// The player id embedded in a row's class attribute: its first run of
/// digits, when it parses as a 32-bit integer.
pub open spec fn spec_extract_player_id(class_attr: Option<Seq<u8>>) -> Option<i32> {
    match class_attr {
        Option::None => Option::None,
        Option::Some(s) => {
            let i = first_digit_idx(s);
            if i >= s.len() {
                Option::None
            } else {
                spec_parse_i32(s.subrange(i, digit_run_end(s, i)))
            }
        },
    }
}

/// Reads the player id out of a row's class attribute, as its first digit
/// run. A row whose attribute holds none is dropped by the caller.
#[verifier::loop_isolation(false)]
pub fn extract_player_id(class_attr: &Option<Vec<u8>>) -> (r: Option<i32>)
    ensures
        r == spec_extract_player_id(class_attr.deep_view()),
{
    let s: &Vec<u8> = match class_attr {
        Option::None => {
            return Option::None;
        },
        Option::Some(s) => s,
    };
    proof {
        assert(s.deep_view() =~= s@);
    }
    let n = s.len();
    let mut i: usize = 0;
    while i < n && (s[i] < 48 || s[i] > 57)
        invariant
            0 <= i <= n == s@.len(),
            forall|j: int| 0 <= j < i ==> !crate::num::is_digit(#[trigger] s@[j]),
        decreases n - i,
    {
        i = i + 1;
    }
    proof {
        lemma_first_digit_idx(s@);
        if i < n {
            assert(crate::num::is_digit(s@[i as int]));
        }
        assert forall|j: int| 0 <= j < i implies !crate::num::is_digit(#[trigger] s@[j]) by {}
        crate::rankings::lemma_first_digit_idx_unique(s@, i as int);
    }
    if i >= n {
        return Option::None;
    }
    let mut j: usize = i;
    while j < n && 48 <= s[j] && s[j] <= 57
        invariant
            i <= j <= n,
            forall|k: int| i <= k < j ==> crate::num::is_digit(#[trigger] s@[k]),
        decreases n - j,
    {
        j = j + 1;
    }
    proof {
        crate::rankings::lemma_digit_run_end_unique(s@, i as int, j as int);
    }
    let digits = copy_range(s.as_slice(), i, j);
    parse_i32(digits.as_slice())
}

/// The fields of one row under a schema: cells after the two leading ones
/// are written, in order, to the schema's fields; `k` cells processed.
pub open spec fn spec_stats_fields(
    schema: Seq<StatField>,
    cells: Seq<Seq<u8>>,
    k: int,
) -> StatsBase
    recommends
        k <= cells.len(),
    decreases k,
{
    if k <= 2 {
        spec_zero_base()
    } else {
        let prev = spec_stats_fields(schema, cells, k - 1);
        let ci = k - 1;
        if ci - 2 < schema.len() {
            schema[ci - 2].spec_set(prev, spec_lenient_milli(cells[ci]) as i64)
        } else {
            prev
        }
    }
}

/// The statistic line a row yields before any merging: the id it names and
/// the parsed fields, with every total and rate still zero. Scoring runs
/// only after all category passes have merged, on the full record, so the
/// merge of overlapping categories decides the base fields alone.
pub open spec fn spec_row_stats(p: Position, cells: Seq<Seq<u8>>, id: i32) -> Stats {
    Stats {
        player_id: id,
        base: spec_stats_fields(spec_category_schema(p), cells, cells.len() as int),
        standard_pts: 0,
        standard_pts_per_game: 0,
        half_ppr_pts: 0,
        half_ppr_pts_per_game: 0,
        ppr_pts: 0,
        ppr_pts_per_game: 0,
    }
}

/// Every field a parsed row carries stays within the parse cap.
pub proof fn lemma_stats_fields_in_range(schema: Seq<StatField>, cells: Seq<Seq<u8>>, k: int)
    ensures
        base_in_range(spec_stats_fields(schema, cells, k)),
    decreases k,
{
    if k > 2 {
        lemma_stats_fields_in_range(schema, cells, k - 1);
    }
}

/// First index in `players` that carries `id`, or the length when none does.
pub open spec fn find_player(players: Seq<Stats>, id: i32) -> int
    decreases players.len(),
{
    if players.len() == 0 {
        0
    } else if players[0].player_id == id {
        0
    } else {
        1 + find_player(players.drop_first(), id)
    }
}

pub proof fn lemma_find_player(players: Seq<Stats>, id: i32)
    ensures
        0 <= find_player(players, id) <= players.len(),
        forall|j: int| 0 <= j < find_player(players, id) ==> (#[trigger] players[j]).player_id != id,
        find_player(players, id) < players.len() ==> players[find_player(players, id)].player_id
            == id,
    decreases players.len(),
{
    if players.len() > 0 && players[0].player_id != id {
        lemma_find_player(players.drop_first(), id);
        assert forall|j: int| 0 <= j < find_player(players, id) implies (#[trigger] players[j]).player_id
            != id by {
            if j > 0 {
                assert(players[j] == players.drop_first()[j - 1]);
            }
        }
    }
}

pub proof fn lemma_find_player_unique(players: Seq<Stats>, id: i32, i: int)
    requires
        0 <= i <= players.len(),
        forall|j: int| 0 <= j < i ==> (#[trigger] players[j]).player_id != id,
        i < players.len() ==> players[i].player_id == id,
    ensures
        i == find_player(players, id),
{
    lemma_find_player(players, id);
    if i < find_player(players, id) {
        assert(players[i].player_id == id);
    } else if find_player(players, id) < i {
        assert(players[find_player(players, id)].player_id == id);
    }
}

/// A new report folded into the collected lines: merged into the first line
/// with the same player id, or appended when the player is new.
pub open spec fn spec_merge_into(players: Seq<Stats>, s: Stats) -> Seq<Stats> {
    let idx = find_player(players, s.player_id);
    if idx < players.len() {
        players.update(idx, spec_merge_stats(players[idx], s))
    } else {
        players.push(s)
    }
}

/// The collected lines after the first `k` rows of a category's table: rows
/// without an id are dropped, the rest parsed and folded in.
pub open spec fn spec_process_rows(
    p: Position,
    ids: Seq<Option<Seq<u8>>>,
    cells: Seq<Seq<Seq<u8>>>,
    players0: Seq<Stats>,
    k: int,
) -> Seq<Stats>
    recommends
        k <= ids.len(),
        ids.len() == cells.len(),
    decreases k,
{
    if k <= 0 {
        players0
    } else {
        let prev = spec_process_rows(p, ids, cells, players0, k - 1);
        match spec_extract_player_id(ids[k - 1]) {
            Option::None => prev,
            Option::Some(id) => spec_merge_into(prev, spec_row_stats(p, cells[k - 1], id)),
        }
    }
}

/// Parses the statistic fields of one row: cells after the two leading
/// rank and name columns written, in order, to the schema's fields.
#[verifier::loop_isolation(false)]
#[verifier::rlimit(60)]
pub fn parse_row_base(schema: &Vec<StatField>, row_cells: &Vec<Vec<u8>>) -> (r: StatsBase)
    ensures
        r == spec_stats_fields(schema@, row_cells.deep_view(), row_cells@.len() as int),
        base_in_range(r),
{
    let ghost rc = row_cells.deep_view();
    let m = row_cells.len();
    proof {
        assert(rc.len() == m);
    }
    let mut base = zero_base_exec();
    let mut ci: usize = 0;
    while ci < m
        invariant
            0 <= ci <= m == rc.len(),
            rc == row_cells.deep_view(),
            base == spec_stats_fields(schema@, rc, ci as int),
            base_in_range(base),
        decreases m - ci,
    {
        proof {
            assert(rc[ci as int] =~= row_cells@[ci as int]@);
        }
        if ci >= 2 && ci - 2 < schema.len() {
            let v = parse_milli_or_zero(row_cells[ci].as_slice());
            let f = schema[ci - 2];
            f.set(&mut base, v);
        }
        ci = ci + 1;
    }
    base
}

/// Parses one category's statistics table and folds each row into the
/// collected lines: lenient cells, dropped id-less rows, field-wise-maximum
/// merging for players already collected.
#[verifier::loop_isolation(false)]
#[verifier::rlimit(60)]
pub fn parse_stats_table(
    p: Position,
    class_attrs: &Vec<Option<Vec<u8>>>,
    cells: &Vec<Vec<Vec<u8>>>,
    players: &mut Vec<Stats>,
)
    requires
        class_attrs@.len() == cells@.len(),
    ensures
        final(players)@ == spec_process_rows(
            p,
            class_attrs.deep_view(),
            cells.deep_view(),
            old(players)@,
            cells@.len() as int,
        ),
{
    let ghost idv = class_attrs.deep_view();
    let ghost cv = cells.deep_view();
    let n = cells.len();
    proof {
        assert(idv.len() == n && cv.len() == n);
    }
    let schema = category_schema(p);
    let mut i: usize = 0;
    while i < n
        invariant
            0 <= i <= n,
            schema@ == spec_category_schema(p),
            players@ == spec_process_rows(p, idv, cv, old(players)@, i as int),
        decreases n - i,
    {
        proof {
            assert(class_attrs.deep_view()[i as int] == class_attrs@[i as int].deep_view());
            assert(cells.deep_view()[i as int] == cells@[i as int].deep_view());
        }
        let id = match extract_player_id(&class_attrs[i]) {
            Option::None => {
                i = i + 1;
                continue ;
            },
            Option::Some(id) => id,
        };
        let base = parse_row_base(&schema, &cells[i]);
        let mut line = Stats::new(id);
        line.base = base;
        proof {
            assert(line =~= spec_row_stats(p, cv[i as int], id));
        }
        merge_into(players, line);
        i = i + 1;
    }
}

/// A zeroed statistics base.
fn zero_base_exec() -> (r: StatsBase)
    ensures
        r == spec_zero_base(),
{
    let s = Stats::new(0);
    s.base
}

/// Folds one report into the collected lines: the first line with the same
/// player id takes the field-wise maximum, a new player is appended.
#[verifier::loop_isolation(false)]
pub fn merge_into(players: &mut Vec<Stats>, s: Stats)
    ensures
        final(players)@ == spec_merge_into(old(players)@, s),
{
    let n = players.len();
    let mut i: usize = 0;
    while i < n
        invariant
            0 <= i <= n == players@.len(),
            players@ == old(players)@,
            forall|j: int| 0 <= j < i ==> (#[trigger] players@[j]).player_id != s.player_id,
        decreases n - i,
    {
        if players[i].player_id == s.player_id {
            proof {
                lemma_find_player_unique(players@, s.player_id, i as int);
            }
            let merged = players[i];
            let mut m = merged;
            m.update_from(&s);
            players[i] = m;
            proof {
                assert(players@ =~= spec_merge_into(old(players)@, s));
            }
            return ;
        }
        i = i + 1;
    }
    proof {
        lemma_find_player_unique(players@, s.player_id, n as int);
    }
    players.push(s);
    proof {
        assert(players@ =~= spec_merge_into(old(players)@, s));
    }
}

/// Every line in the collection keeps its base within the parse cap.
pub open spec fn all_bases_in_range(players: Seq<Stats>) -> bool {
    forall|i: int| 0 <= i < players.len() ==> base_in_range((#[trigger] players[i]).base)
}

proof fn lemma_merge_into_in_range(players: Seq<Stats>, s: Stats)
    requires
        all_bases_in_range(players),
        base_in_range(s.base),
    ensures
        all_bases_in_range(spec_merge_into(players, s)),
{
    lemma_find_player(players, s.player_id);
    let merged = spec_merge_into(players, s);
    assert forall|i: int| 0 <= i < merged.len() implies base_in_range(
        (#[trigger] merged[i]).base,
    ) by {
        let idx = find_player(players, s.player_id);
        if idx < players.len() && i == idx {
            assert(merged[i].base == crate::stats::spec_merge_base(players[idx].base, s.base));
        } else if i < players.len() {
            assert(merged[i] == players[i]);
        }
    }
}

/// The lines the category passes collect always keep their bases within
/// the parse cap, given they started that way.
pub proof fn lemma_process_rows_in_range(
    p: Position,
    ids: Seq<Option<Seq<u8>>>,
    cells: Seq<Seq<Seq<u8>>>,
    players0: Seq<Stats>,
    k: int,
)
    requires
        all_bases_in_range(players0),
    ensures
        all_bases_in_range(spec_process_rows(p, ids, cells, players0, k)),
    decreases k,
{
    if k > 0 {
        lemma_process_rows_in_range(p, ids, cells, players0, k - 1);
        match spec_extract_player_id(ids[k - 1]) {
            Option::None => {},
            Option::Some(id) => {
                lemma_stats_fields_in_range(
                    spec_category_schema(p),
                    cells[k - 1],
                    cells[k - 1].len() as int,
                );
                lemma_merge_into_in_range(
                    spec_process_rows(p, ids, cells, players0, k - 1),
                    spec_row_stats(p, cells[k - 1], id),
                );
            },
        }
    }
}

/// Whether every field of a base lies within the parse cap.
pub fn base_ok(b: &StatsBase) -> (r: bool)
    ensures
        r == base_in_range(*b),
{
    -MAX_MILLI <= b.pass_cmp && b.pass_cmp <= MAX_MILLI
        && -MAX_MILLI <= b.pass_att && b.pass_att <= MAX_MILLI
        && -MAX_MILLI <= b.pass_cmp_pct && b.pass_cmp_pct <= MAX_MILLI
        && -MAX_MILLI <= b.pass_yds && b.pass_yds <= MAX_MILLI
        && -MAX_MILLI <= b.pass_yds_per_att && b.pass_yds_per_att <= MAX_MILLI
        && -MAX_MILLI <= b.pass_td && b.pass_td <= MAX_MILLI
        && -MAX_MILLI <= b.pass_int && b.pass_int <= MAX_MILLI
        && -MAX_MILLI <= b.pass_sacks && b.pass_sacks <= MAX_MILLI
        && -MAX_MILLI <= b.rush_att && b.rush_att <= MAX_MILLI
        && -MAX_MILLI <= b.rush_yds && b.rush_yds <= MAX_MILLI
        && -MAX_MILLI <= b.rush_yds_per_att && b.rush_yds_per_att <= MAX_MILLI
        && -MAX_MILLI <= b.rush_long && b.rush_long <= MAX_MILLI
        && -MAX_MILLI <= b.rush_20 && b.rush_20 <= MAX_MILLI
        && -MAX_MILLI <= b.rush_td && b.rush_td <= MAX_MILLI
        && -MAX_MILLI <= b.fumbles && b.fumbles <= MAX_MILLI
        && -MAX_MILLI <= b.receptions && b.receptions <= MAX_MILLI
        && -MAX_MILLI <= b.rec_tgt && b.rec_tgt <= MAX_MILLI
        && -MAX_MILLI <= b.rec_yds && b.rec_yds <= MAX_MILLI
        && -MAX_MILLI <= b.rec_yds_per_rec && b.rec_yds_per_rec <= MAX_MILLI
        && -MAX_MILLI <= b.rec_long && b.rec_long <= MAX_MILLI
        && -MAX_MILLI <= b.rec_20 && b.rec_20 <= MAX_MILLI
        && -MAX_MILLI <= b.rec_td && b.rec_td <= MAX_MILLI
        && -MAX_MILLI <= b.field_goals && b.field_goals <= MAX_MILLI
        && -MAX_MILLI <= b.fg_att && b.fg_att <= MAX_MILLI
        && -MAX_MILLI <= b.fg_pct && b.fg_pct <= MAX_MILLI
        && -MAX_MILLI <= b.fg_long && b.fg_long <= MAX_MILLI
        && -MAX_MILLI <= b.fg_1_19 && b.fg_1_19 <= MAX_MILLI
        && -MAX_MILLI <= b.fg_20_29 && b.fg_20_29 <= MAX_MILLI
        && -MAX_MILLI <= b.fg_30_39 && b.fg_30_39 <= MAX_MILLI
        && -MAX_MILLI <= b.fg_40_49 && b.fg_40_49 <= MAX_MILLI
        && -MAX_MILLI <= b.fg_50 && b.fg_50 <= MAX_MILLI
        && -MAX_MILLI <= b.extra_points && b.extra_points <= MAX_MILLI
        && -MAX_MILLI <= b.xp_att && b.xp_att <= MAX_MILLI
        && -MAX_MILLI <= b.sacks && b.sacks <= MAX_MILLI
        && -MAX_MILLI <= b.def_int && b.def_int <= MAX_MILLI
        && -MAX_MILLI <= b.fumbles_recovered && b.fumbles_recovered <= MAX_MILLI
        && -MAX_MILLI <= b.fumbles_forced && b.fumbles_forced <= MAX_MILLI
        && -MAX_MILLI <= b.def_td && b.def_td <= MAX_MILLI
        && -MAX_MILLI <= b.safeties && b.safeties <= MAX_MILLI
        && -MAX_MILLI <= b.special_teams_td && b.special_teams_td <= MAX_MILLI
        && -MAX_MILLI <= b.games && b.games <= MAX_MILLI
}

/// Runs the scoring calculator once over every fully merged line, after all
/// category passes are done: each line's three totals and three per-game
/// rates become functions of its merged base. A line whose base lies
/// outside the parse cap is left unscored; the category passes never
/// collect one (`lemma_process_rows_in_range`).
#[verifier::loop_isolation(false)]
pub fn score_merged_stats(players: &mut Vec<Stats>)
    ensures
        final(players)@.len() == old(players)@.len(),
        forall|i: int|
            0 <= i < old(players)@.len() ==> #[trigger] final(players)@[i] == (
            if base_in_range(old(players)@[i].base) {
                spec_apply_scoring(old(players)@[i])
            } else {
                old(players)@[i]
            }),
{
    let n = players.len();
    let mut i: usize = 0;
    while i < n
        invariant
            0 <= i <= n == players@.len(),
            forall|j: int|
                0 <= j < i ==> #[trigger] players@[j] == (
                if base_in_range(old(players)@[j].base) {
                    spec_apply_scoring(old(players)@[j])
                } else {
                    old(players)@[j]
                }),
            forall|j: int| i <= j < n ==> #[trigger] players@[j] == old(players)@[j],
        decreases n - i,
    {
        let line = players[i];
        if base_ok(&line.base) {
            let mut scored = line;
            apply_scoring(&mut scored);
            players[i] = scored;
        }
        i = i + 1;
    }
}

} // verus!
