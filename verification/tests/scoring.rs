//! The scoring calculator and the merge policy.

use fantasy_ingest::stats::apply_scoring;
use fantasy_ingest::stats::calculate_half_ppr_points;
use fantasy_ingest::stats::calculate_ppr_points;
use fantasy_ingest::stats::calculate_standard_points;
use fantasy_ingest::stats::Stats;

#[test]
fn scoring_formula_example() {
    // passYds=300, passTD=2, passInt=1, receptions=1, games=1:
    // standard = 300*0.04 + 2*4 - 1*2 = 18; half = 18.5; ppr = 19.
    let mut s = Stats::new(7);
    s.base.pass_yds = 300_000;
    s.base.pass_td = 2_000;
    s.base.pass_int = 1_000;
    s.base.receptions = 1_000;
    s.base.games = 1_000;
    assert_eq!(calculate_standard_points(&s), 1_800_000);
    assert_eq!(calculate_half_ppr_points(&s), 1_850_000);
    assert_eq!(calculate_ppr_points(&s), 1_900_000);
    apply_scoring(&mut s);
    assert_eq!(s.standard_pts, 1_800_000);
    assert_eq!(s.half_ppr_pts, 1_850_000);
    assert_eq!(s.ppr_pts, 1_900_000);
    // games=1, so every per-game rate equals its total.
    assert_eq!(s.standard_pts_per_game, 1_800_000);
    assert_eq!(s.half_ppr_pts_per_game, 1_850_000);
    assert_eq!(s.ppr_pts_per_game, 1_900_000);
}

#[test]
fn per_game_rate_rounds_to_one_decimal() {
    // 25 standard points over 16 games: 1.5625 -> 1.6 per game.
    let mut s = Stats::new(1);
    s.base.rush_yds = 250_000;
    s.base.games = 16_000;
    apply_scoring(&mut s);
    assert_eq!(s.standard_pts, 2_500_000);
    assert_eq!(s.standard_pts_per_game, 160_000);
}

#[test]
fn no_games_no_rates() {
    let mut s = Stats::new(2);
    s.base.rush_yds = 100_000;
    apply_scoring(&mut s);
    assert_eq!(s.standard_pts, 0);
    assert_eq!(s.standard_pts_per_game, 0);
    assert_eq!(s.ppr_pts_per_game, 0);
}

#[test]
fn negative_totals_are_possible() {
    let mut s = Stats::new(3);
    s.base.pass_int = 3_000;
    s.base.games = 1_000;
    apply_scoring(&mut s);
    assert_eq!(s.standard_pts, -600_000);
    assert_eq!(s.standard_pts_per_game, -600_000);
}

#[test]
fn merge_is_idempotent() {
    let mut s = Stats::new(9);
    s.base.pass_yds = 4_000_000;
    s.base.games = 17_000;
    apply_scoring(&mut s);
    let copy = s;
    s.update_from(&copy);
    assert_eq!(s, copy);
}

#[test]
fn merge_takes_field_wise_maximum() {
    // games reported in two categories: the merged line keeps the maximum,
    // not the sum and not the last seen.
    let mut a = Stats::new(5);
    a.base.games = 16_000;
    a.base.rush_yds = 800_000;
    let mut b = Stats::new(5);
    b.base.games = 14_000;
    b.base.rush_yds = 900_000;
    a.update_from(&b);
    assert_eq!(a.base.games, 16_000);
    assert_eq!(a.base.rush_yds, 900_000);
    assert_eq!(a.player_id, 5);
}
