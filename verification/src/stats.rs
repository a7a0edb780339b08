//! Statistic lines and the scoring formula.
//!
//! Every statistic is an `i64` count of thousandths of the unit the page
//! reports (milli-units). Point totals and per-game rates are stored in
//! hundred-thousandths of a point, so that the fixed linear weights -- which
//! have at most two decimal places -- multiply exactly. A line merged from
//! more than one category table takes the field-wise maximum of the values
//! reported, never their sum.

use vstd::prelude::*;

use crate::num::MAX_MILLI;
use crate::num::spec_round_div;
use crate::num::round_div;


verus! {

/// Bound on every point total: the weights sum to under 200 points per
/// milli-unit, so totals stay far below this.
pub const MAX_PTS: i64 = 20_000_000_000_000_000;

/// The named numeric fields a statistics table can report, in milli-units.
#[derive(Debug, Clone, Copy, PartialEq, Eq, Structural)]
#[verifier::ext_equal]
pub struct StatsBase {
    pub pass_cmp: i64,
    pub pass_att: i64,
    pub pass_cmp_pct: i64,
    pub pass_yds: i64,
    pub pass_yds_per_att: i64,
    pub pass_td: i64,
    pub pass_int: i64,
    pub pass_sacks: i64,
    pub rush_att: i64,
    pub rush_yds: i64,
    pub rush_yds_per_att: i64,
    pub rush_long: i64,
    pub rush_20: i64,
    pub rush_td: i64,
    pub fumbles: i64,
    pub receptions: i64,
    pub rec_tgt: i64,
    pub rec_yds: i64,
    pub rec_yds_per_rec: i64,
    pub rec_long: i64,
    pub rec_20: i64,
    pub rec_td: i64,
    pub field_goals: i64,
    pub fg_att: i64,
    pub fg_pct: i64,
    pub fg_long: i64,
    pub fg_1_19: i64,
    pub fg_20_29: i64,
    pub fg_30_39: i64,
    pub fg_40_49: i64,
    pub fg_50: i64,
    pub extra_points: i64,
    pub xp_att: i64,
    pub sacks: i64,
    pub def_int: i64,
    pub fumbles_recovered: i64,
    pub fumbles_forced: i64,
    pub def_td: i64,
    pub safeties: i64,
    pub special_teams_td: i64,
    pub games: i64,
}

/// One player's merged statistic line with computed point totals, totals and
/// rates in hundred-thousandths of a point.
#[derive(Debug, Clone, Copy, PartialEq, Eq, Structural)]
#[verifier::ext_equal]
pub struct Stats {
    pub player_id: i32,
    pub base: StatsBase,
    pub standard_pts: i64,
    pub standard_pts_per_game: i64,
    pub half_ppr_pts: i64,
    pub half_ppr_pts_per_game: i64,
    pub ppr_pts: i64,
    pub ppr_pts_per_game: i64,
}

pub open spec fn stat_in_range(v: i64) -> bool {
    -MAX_MILLI <= v <= MAX_MILLI
}

/// Every field a parser may set stays within the parse cap.
pub open spec fn base_in_range(b: StatsBase) -> bool {
    &&& stat_in_range(b.pass_cmp)
    &&& stat_in_range(b.pass_att)
    &&& stat_in_range(b.pass_cmp_pct)
    &&& stat_in_range(b.pass_yds)
    &&& stat_in_range(b.pass_yds_per_att)
    &&& stat_in_range(b.pass_td)
    &&& stat_in_range(b.pass_int)
    &&& stat_in_range(b.pass_sacks)
    &&& stat_in_range(b.rush_att)
    &&& stat_in_range(b.rush_yds)
    &&& stat_in_range(b.rush_yds_per_att)
    &&& stat_in_range(b.rush_long)
    &&& stat_in_range(b.rush_20)
    &&& stat_in_range(b.rush_td)
    &&& stat_in_range(b.fumbles)
    &&& stat_in_range(b.receptions)
    &&& stat_in_range(b.rec_tgt)
    &&& stat_in_range(b.rec_yds)
    &&& stat_in_range(b.rec_yds_per_rec)
    &&& stat_in_range(b.rec_long)
    &&& stat_in_range(b.rec_20)
    &&& stat_in_range(b.rec_td)
    &&& stat_in_range(b.field_goals)
    &&& stat_in_range(b.fg_att)
    &&& stat_in_range(b.fg_pct)
    &&& stat_in_range(b.fg_long)
    &&& stat_in_range(b.fg_1_19)
    &&& stat_in_range(b.fg_20_29)
    &&& stat_in_range(b.fg_30_39)
    &&& stat_in_range(b.fg_40_49)
    &&& stat_in_range(b.fg_50)
    &&& stat_in_range(b.extra_points)
    &&& stat_in_range(b.xp_att)
    &&& stat_in_range(b.sacks)
    &&& stat_in_range(b.def_int)
    &&& stat_in_range(b.fumbles_recovered)
    &&& stat_in_range(b.fumbles_forced)
    &&& stat_in_range(b.def_td)
    &&& stat_in_range(b.safeties)
    &&& stat_in_range(b.special_teams_td)
    &&& stat_in_range(b.games)
}

pub open spec fn spec_max_i64(a: i64, b: i64) -> i64 {
    if a >= b {
        a
    } else {
        b
    }
}

pub fn max_i64(a: i64, b: i64) -> (r: i64)
    ensures
        r == spec_max_i64(a, b),
{
    if a >= b {
        a
    } else {
        b
    }
}

/// The field-wise maximum of two reported bases.
pub open spec fn spec_merge_base(a: StatsBase, b: StatsBase) -> StatsBase {
    StatsBase {
        pass_cmp: spec_max_i64(a.pass_cmp, b.pass_cmp),
        pass_att: spec_max_i64(a.pass_att, b.pass_att),
        pass_cmp_pct: spec_max_i64(a.pass_cmp_pct, b.pass_cmp_pct),
        pass_yds: spec_max_i64(a.pass_yds, b.pass_yds),
        pass_yds_per_att: spec_max_i64(a.pass_yds_per_att, b.pass_yds_per_att),
        pass_td: spec_max_i64(a.pass_td, b.pass_td),
        pass_int: spec_max_i64(a.pass_int, b.pass_int),
        pass_sacks: spec_max_i64(a.pass_sacks, b.pass_sacks),
        rush_att: spec_max_i64(a.rush_att, b.rush_att),
        rush_yds: spec_max_i64(a.rush_yds, b.rush_yds),
        rush_yds_per_att: spec_max_i64(a.rush_yds_per_att, b.rush_yds_per_att),
        rush_long: spec_max_i64(a.rush_long, b.rush_long),
        rush_20: spec_max_i64(a.rush_20, b.rush_20),
        rush_td: spec_max_i64(a.rush_td, b.rush_td),
        fumbles: spec_max_i64(a.fumbles, b.fumbles),
        receptions: spec_max_i64(a.receptions, b.receptions),
        rec_tgt: spec_max_i64(a.rec_tgt, b.rec_tgt),
        rec_yds: spec_max_i64(a.rec_yds, b.rec_yds),
        rec_yds_per_rec: spec_max_i64(a.rec_yds_per_rec, b.rec_yds_per_rec),
        rec_long: spec_max_i64(a.rec_long, b.rec_long),
        rec_20: spec_max_i64(a.rec_20, b.rec_20),
        rec_td: spec_max_i64(a.rec_td, b.rec_td),
        field_goals: spec_max_i64(a.field_goals, b.field_goals),
        fg_att: spec_max_i64(a.fg_att, b.fg_att),
        fg_pct: spec_max_i64(a.fg_pct, b.fg_pct),
        fg_long: spec_max_i64(a.fg_long, b.fg_long),
        fg_1_19: spec_max_i64(a.fg_1_19, b.fg_1_19),
        fg_20_29: spec_max_i64(a.fg_20_29, b.fg_20_29),
        fg_30_39: spec_max_i64(a.fg_30_39, b.fg_30_39),
        fg_40_49: spec_max_i64(a.fg_40_49, b.fg_40_49),
        fg_50: spec_max_i64(a.fg_50, b.fg_50),
        extra_points: spec_max_i64(a.extra_points, b.extra_points),
        xp_att: spec_max_i64(a.xp_att, b.xp_att),
        sacks: spec_max_i64(a.sacks, b.sacks),
        def_int: spec_max_i64(a.def_int, b.def_int),
        fumbles_recovered: spec_max_i64(a.fumbles_recovered, b.fumbles_recovered),
        fumbles_forced: spec_max_i64(a.fumbles_forced, b.fumbles_forced),
        def_td: spec_max_i64(a.def_td, b.def_td),
        safeties: spec_max_i64(a.safeties, b.safeties),
        special_teams_td: spec_max_i64(a.special_teams_td, b.special_teams_td),
        games: spec_max_i64(a.games, b.games),
    }
}

/// The merge of a later report `b` into a line `a`: field-wise maximum of
/// both the base statistics and the computed point figures; the player id
/// stays.
pub open spec fn spec_merge_stats(a: Stats, b: Stats) -> Stats {
    Stats {
        player_id: a.player_id,
        base: spec_merge_base(a.base, b.base),
        standard_pts: spec_max_i64(a.standard_pts, b.standard_pts),
        standard_pts_per_game: spec_max_i64(a.standard_pts_per_game, b.standard_pts_per_game),
        half_ppr_pts: spec_max_i64(a.half_ppr_pts, b.half_ppr_pts),
        half_ppr_pts_per_game: spec_max_i64(a.half_ppr_pts_per_game, b.half_ppr_pts_per_game),
        ppr_pts: spec_max_i64(a.ppr_pts, b.ppr_pts),
        ppr_pts_per_game: spec_max_i64(a.ppr_pts_per_game, b.ppr_pts_per_game),
    }
}

impl Stats {
    /// A fresh line for a player: every statistic and total zero.
    pub fn new(player_id: i32) -> (r: Stats)
        ensures
            r.player_id == player_id,
            r.base == spec_zero_base(),
            r.standard_pts == 0,
            r.standard_pts_per_game == 0,
            r.half_ppr_pts == 0,
            r.half_ppr_pts_per_game == 0,
            r.ppr_pts == 0,
            r.ppr_pts_per_game == 0,
    {
        Stats {
            player_id,
            base: StatsBase {
                pass_cmp: 0,
                pass_att: 0,
                pass_cmp_pct: 0,
                pass_yds: 0,
                pass_yds_per_att: 0,
                pass_td: 0,
                pass_int: 0,
                pass_sacks: 0,
                rush_att: 0,
                rush_yds: 0,
                rush_yds_per_att: 0,
                rush_long: 0,
                rush_20: 0,
                rush_td: 0,
                fumbles: 0,
                receptions: 0,
                rec_tgt: 0,
                rec_yds: 0,
                rec_yds_per_rec: 0,
                rec_long: 0,
                rec_20: 0,
                rec_td: 0,
                field_goals: 0,
                fg_att: 0,
                fg_pct: 0,
                fg_long: 0,
                fg_1_19: 0,
                fg_20_29: 0,
                fg_30_39: 0,
                fg_40_49: 0,
                fg_50: 0,
                extra_points: 0,
                xp_att: 0,
                sacks: 0,
                def_int: 0,
                fumbles_recovered: 0,
                fumbles_forced: 0,
                def_td: 0,
                safeties: 0,
                special_teams_td: 0,
                games: 0,
            },
            standard_pts: 0,
            standard_pts_per_game: 0,
            half_ppr_pts: 0,
            half_ppr_pts_per_game: 0,
            ppr_pts: 0,
            ppr_pts_per_game: 0,
        }
    }

    /// Merges another report of the same player into this line, taking the
    /// field-wise maximum everywhere.
    pub fn update_from(&mut self, other: &Stats)
        ensures
            *final(self) == spec_merge_stats(*old(self), *other),
    {
        self.base.pass_cmp = max_i64(self.base.pass_cmp, other.base.pass_cmp);
        self.base.pass_att = max_i64(self.base.pass_att, other.base.pass_att);
        self.base.pass_cmp_pct = max_i64(self.base.pass_cmp_pct, other.base.pass_cmp_pct);
        self.base.pass_yds = max_i64(self.base.pass_yds, other.base.pass_yds);
        self.base.pass_yds_per_att = max_i64(self.base.pass_yds_per_att, other.base.pass_yds_per_att);
        self.base.pass_td = max_i64(self.base.pass_td, other.base.pass_td);
        self.base.pass_int = max_i64(self.base.pass_int, other.base.pass_int);
        self.base.pass_sacks = max_i64(self.base.pass_sacks, other.base.pass_sacks);
        self.base.rush_att = max_i64(self.base.rush_att, other.base.rush_att);
        self.base.rush_yds = max_i64(self.base.rush_yds, other.base.rush_yds);
        self.base.rush_yds_per_att = max_i64(self.base.rush_yds_per_att, other.base.rush_yds_per_att);
        self.base.rush_long = max_i64(self.base.rush_long, other.base.rush_long);
        self.base.rush_20 = max_i64(self.base.rush_20, other.base.rush_20);
        self.base.rush_td = max_i64(self.base.rush_td, other.base.rush_td);
        self.base.fumbles = max_i64(self.base.fumbles, other.base.fumbles);
        self.base.receptions = max_i64(self.base.receptions, other.base.receptions);
        self.base.rec_tgt = max_i64(self.base.rec_tgt, other.base.rec_tgt);
        self.base.rec_yds = max_i64(self.base.rec_yds, other.base.rec_yds);
        self.base.rec_yds_per_rec = max_i64(self.base.rec_yds_per_rec, other.base.rec_yds_per_rec);
        self.base.rec_long = max_i64(self.base.rec_long, other.base.rec_long);
        self.base.rec_20 = max_i64(self.base.rec_20, other.base.rec_20);
        self.base.rec_td = max_i64(self.base.rec_td, other.base.rec_td);
        self.base.field_goals = max_i64(self.base.field_goals, other.base.field_goals);
        self.base.fg_att = max_i64(self.base.fg_att, other.base.fg_att);
        self.base.fg_pct = max_i64(self.base.fg_pct, other.base.fg_pct);
        self.base.fg_long = max_i64(self.base.fg_long, other.base.fg_long);
        self.base.fg_1_19 = max_i64(self.base.fg_1_19, other.base.fg_1_19);
        self.base.fg_20_29 = max_i64(self.base.fg_20_29, other.base.fg_20_29);
        self.base.fg_30_39 = max_i64(self.base.fg_30_39, other.base.fg_30_39);
        self.base.fg_40_49 = max_i64(self.base.fg_40_49, other.base.fg_40_49);
        self.base.fg_50 = max_i64(self.base.fg_50, other.base.fg_50);
        self.base.extra_points = max_i64(self.base.extra_points, other.base.extra_points);
        self.base.xp_att = max_i64(self.base.xp_att, other.base.xp_att);
        self.base.sacks = max_i64(self.base.sacks, other.base.sacks);
        self.base.def_int = max_i64(self.base.def_int, other.base.def_int);
        self.base.fumbles_recovered = max_i64(self.base.fumbles_recovered, other.base.fumbles_recovered);
        self.base.fumbles_forced = max_i64(self.base.fumbles_forced, other.base.fumbles_forced);
        self.base.def_td = max_i64(self.base.def_td, other.base.def_td);
        self.base.safeties = max_i64(self.base.safeties, other.base.safeties);
        self.base.special_teams_td = max_i64(self.base.special_teams_td, other.base.special_teams_td);
        self.base.games = max_i64(self.base.games, other.base.games);
        self.standard_pts = max_i64(self.standard_pts, other.standard_pts);
        self.standard_pts_per_game = max_i64(self.standard_pts_per_game, other.standard_pts_per_game);
        self.half_ppr_pts = max_i64(self.half_ppr_pts, other.half_ppr_pts);
        self.half_ppr_pts_per_game = max_i64(self.half_ppr_pts_per_game, other.half_ppr_pts_per_game);
        self.ppr_pts = max_i64(self.ppr_pts, other.ppr_pts);
        self.ppr_pts_per_game = max_i64(self.ppr_pts_per_game, other.ppr_pts_per_game);
        assert(*self =~= spec_merge_stats(*old(self), *other));
    }
}

pub open spec fn spec_zero_base() -> StatsBase {
    StatsBase {
        pass_cmp: 0,
        pass_att: 0,
        pass_cmp_pct: 0,
        pass_yds: 0,
        pass_yds_per_att: 0,
        pass_td: 0,
        pass_int: 0,
        pass_sacks: 0,
        rush_att: 0,
        rush_yds: 0,
        rush_yds_per_att: 0,
        rush_long: 0,
        rush_20: 0,
        rush_td: 0,
        fumbles: 0,
        receptions: 0,
        rec_tgt: 0,
        rec_yds: 0,
        rec_yds_per_rec: 0,
        rec_long: 0,
        rec_20: 0,
        rec_td: 0,
        field_goals: 0,
        fg_att: 0,
        fg_pct: 0,
        fg_long: 0,
        fg_1_19: 0,
        fg_20_29: 0,
        fg_30_39: 0,
        fg_40_49: 0,
        fg_50: 0,
        extra_points: 0,
        xp_att: 0,
        sacks: 0,
        def_int: 0,
        fumbles_recovered: 0,
        fumbles_forced: 0,
        def_td: 0,
        safeties: 0,
        special_teams_td: 0,
        games: 0,
    }
}

/// Merging a line with an identical copy of itself changes nothing: the
/// field-wise maximum of equal values is that value.
pub proof fn lemma_merge_idempotent(s: Stats)
    ensures
        spec_merge_stats(s, s) == s,
{
    assert(spec_merge_stats(s, s) =~= s);
}

/// The merge never picks a value below either report: each merged field is
/// the maximum of the two reported values, not their sum and not the last
/// seen; which report came first does not matter for the statistics.
#[verifier::rlimit(100)]
pub proof fn lemma_merge_takes_max(a: Stats, b: Stats)
    ensures
        spec_merge_stats(a, b).base.games == spec_max_i64(a.base.games, b.base.games),
        spec_merge_stats(a, b).base == spec_merge_stats(b, a).base,
{
    assert(spec_merge_stats(a, b).base =~= spec_merge_stats(b, a).base);
}

/// The standard-scoring total of a base, in hundred-thousandths of a point.
pub open spec fn spec_standard_points(b: StatsBase) -> int {
    b.pass_yds * 4
        + b.pass_td * 400
        - b.pass_int * 200
        + b.rush_yds * 10
        + b.rush_td * 600
        - b.fumbles * 200
        + b.rec_yds * 10
        + b.rec_td * 600
        + b.fg_1_19 * 300
        + b.fg_20_29 * 300
        + b.fg_30_39 * 300
        + b.fg_40_49 * 400
        + b.fg_50 * 500
        + b.extra_points * 100
        + b.sacks * 100
        + b.def_int * 200
        + b.fumbles_recovered * 200
        + b.def_td * 600
        + b.safeties * 200
        + b.special_teams_td * 600
}

pub open spec fn spec_half_ppr_points(b: StatsBase) -> int {
    spec_standard_points(b) + b.receptions * 50
}

pub open spec fn spec_ppr_points(b: StatsBase) -> int {
    spec_standard_points(b) + b.receptions * 100
}

/// A per-game rate: the total divided by games played, rounded to one
/// decimal place, halves away from zero, in hundred-thousandths of a point.
/// A rate beyond the point cap -- possible only when a fractional games
/// figure far below one game divides a huge total -- saturates at the cap.
pub open spec fn spec_rate(pts: int, games: int) -> int
    recommends
        games > 0,
{
    let tenths = spec_round_div(pts, 10 * games);
    if tenths > (MAX_PTS / 10000) as int {
        MAX_PTS as int
    } else if tenths < -((MAX_PTS / 10000) as int) {
        -MAX_PTS as int
    } else {
        tenths * 10000
    }
}

/// The per-game rate of a total over a positive games figure.
pub fn rate_for(pts: i64, games: i64) -> (r: i64)
    requires
        0 < games <= MAX_MILLI,
        -MAX_PTS <= pts <= MAX_PTS,
    ensures
        r == spec_rate(pts as int, games as int),
        -MAX_PTS <= r <= MAX_PTS,
{
    let tenths = round_div(pts, 10 * games);
    if tenths > MAX_PTS / 10000 {
        MAX_PTS
    } else if tenths < -(MAX_PTS / 10000) {
        -MAX_PTS
    } else {
        tenths * 10000
    }
}

/// The standard-scoring total. Matches the fixed linear formula exactly.
#[verifier::rlimit(30)]
pub fn calculate_standard_points(stats: &Stats) -> (r: i64)
    requires
        base_in_range(stats.base),
    ensures
        r == spec_standard_points(stats.base),
        -MAX_PTS <= r <= MAX_PTS,
{
    stats.base.pass_yds * 4
        + stats.base.pass_td * 400
        - stats.base.pass_int * 200
        + stats.base.rush_yds * 10
        + stats.base.rush_td * 600
        - stats.base.fumbles * 200
        + stats.base.rec_yds * 10
        + stats.base.rec_td * 600
        + stats.base.fg_1_19 * 300
        + stats.base.fg_20_29 * 300
        + stats.base.fg_30_39 * 300
        + stats.base.fg_40_49 * 400
        + stats.base.fg_50 * 500
        + stats.base.extra_points * 100
        + stats.base.sacks * 100
        + stats.base.def_int * 200
        + stats.base.fumbles_recovered * 200
        + stats.base.def_td * 600
        + stats.base.safeties * 200
        + stats.base.special_teams_td * 600
}

pub fn calculate_half_ppr_points(stats: &Stats) -> (r: i64)
    requires
        base_in_range(stats.base),
    ensures
        r == spec_half_ppr_points(stats.base),
        -MAX_PTS <= r <= MAX_PTS,
{
    calculate_standard_points(stats) + stats.base.receptions * 50
}

pub fn calculate_ppr_points(stats: &Stats) -> (r: i64)
    requires
        base_in_range(stats.base),
    ensures
        r == spec_ppr_points(stats.base),
        -MAX_PTS <= r <= MAX_PTS,
{
    calculate_standard_points(stats) + stats.base.receptions * 100
}

/// The line after the scoring pass: when games were played, the three totals
/// and their per-game rates are filled in; a line with no games keeps its
/// zeros, never a divided-by-zero rate.
pub open spec fn spec_apply_scoring(s: Stats) -> Stats {
    if s.base.games > 0 {
        Stats {
            standard_pts: spec_standard_points(s.base) as i64,
            standard_pts_per_game: spec_rate(spec_standard_points(s.base), s.base.games as int) as i64,
            half_ppr_pts: spec_half_ppr_points(s.base) as i64,
            half_ppr_pts_per_game: spec_rate(spec_half_ppr_points(s.base), s.base.games as int) as i64,
            ppr_pts: spec_ppr_points(s.base) as i64,
            ppr_pts_per_game: spec_rate(spec_ppr_points(s.base), s.base.games as int) as i64,
            ..s
        }
    } else {
        s
    }
}

/// Fills the point totals and per-game rates of a merged line.
#[verifier::rlimit(30)]
pub fn apply_scoring(stats: &mut Stats)
    requires
        base_in_range(old(stats).base),
    ensures
        *final(stats) == spec_apply_scoring(*old(stats)),
{
    if stats.base.games > 0 {
        let games = stats.base.games;
        let standard = calculate_standard_points(stats);
        stats.standard_pts = standard;
        stats.standard_pts_per_game = rate_for(standard, games);
        let half = calculate_half_ppr_points(stats);
        stats.half_ppr_pts = half;
        stats.half_ppr_pts_per_game = rate_for(half, games);
        let ppr = calculate_ppr_points(stats);
        stats.ppr_pts = ppr;
        stats.ppr_pts_per_game = rate_for(ppr, games);
        assert(*stats =~= spec_apply_scoring(*old(stats)));
    }
}

} // verus!
