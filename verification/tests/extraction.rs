//! Extraction from page text: ranking tables, statistics tables, detail
//! pages, and deduplication across the three convention passes.

use fantasy_ingest::dedup::Deduplicator;
use fantasy_ingest::pipeline::extract_all_stats;
use fantasy_ingest::pipeline::extract_player_bio;
use fantasy_ingest::pipeline::extract_rankings;
use fantasy_ingest::pipeline::extract_stats;
use fantasy_ingest::stats_extract::score_merged_stats;
use fantasy_ingest::players::Position;
use fantasy_ingest::players::Team;
use fantasy_ingest::rankings::ranking_url;
use fantasy_ingest::rankings::ScoringSettings;
use fantasy_ingest::rankings::StructureError;
use fantasy_ingest::stats_extract::build_url;

fn ranking_row(rank: u32, id: u32, name: &str, team: &str, pos: &str, detail: &str) -> String {
    format!(
        "<tr class=\"player-row\"><td>{rank}</td><td>x</td>\
         <td><div class=\"player\" data-player=\"{id}\"></div>\
         <a href=\"/nfl/players/{detail}.php\">{name}</a><span>({team})</span></td>\
         <td>{pos}</td><td>1</td><td>3</td><td>1.5</td><td>0.7</td></tr>"
    )
}

fn ranking_table(rows: &[String]) -> String {
    format!(
        "<html><body><table id=\"ranking-table\"><tbody>{}</tbody></table></body></html>",
        rows.join("")
    )
}

#[test]
fn extracts_a_ranking_row() {
    let html = ranking_table(&[ranking_row(1, 1001, "John Smith", "KC", "WR1", "john-smith")]);
    let mut seen = Deduplicator::new();
    let (rankings, tasks) = extract_rankings(&html, ScoringSettings::Standard, &mut seen).unwrap();
    assert_eq!(rankings.len(), 1);
    let r = &rankings[0];
    assert_eq!(r.player_id, 1001);
    assert_eq!(r.scoring_settings, ScoringSettings::Standard);
    assert_eq!(r.base.overall, 1);
    assert_eq!(r.base.position, 1);
    assert_eq!(r.base.best, 1);
    assert_eq!(r.base.worst, 3);
    assert_eq!(r.base.average, 1_500);
    assert_eq!(r.base.standard_deviation, 700);
    assert_eq!(tasks.len(), 1);
    assert_eq!(tasks[0].identity.id, 1001);
    assert_eq!(tasks[0].identity.name, b"John Smith".to_vec());
    assert_eq!(tasks[0].identity.team, Team::KC);
    assert_eq!(
        tasks[0].identity.bio_url,
        b"/nfl/schedule/john-smith.php".to_vec()
    );
    assert_eq!(tasks[0].position, Position::WR);
}

#[test]
fn bad_overall_rank_aborts_the_pass() {
    let row = ranking_row(1, 1001, "John Smith", "KC", "WR1", "john-smith")
        .replace("<td>1</td><td>x</td>", "<td></td><td>x</td>");
    let html = ranking_table(&[row]);
    let mut seen = Deduplicator::new();
    let r = extract_rankings(&html, ScoringSettings::Standard, &mut seen);
    assert_eq!(r.unwrap_err(), StructureError::BadOverall);
}

#[test]
fn unknown_team_aborts_the_pass() {
    let html = ranking_table(&[ranking_row(1, 1001, "A B", "ZZZ", "WR1", "a-b")]);
    let mut seen = Deduplicator::new();
    let r = extract_rankings(&html, ScoringSettings::Standard, &mut seen);
    assert_eq!(r.unwrap_err(), StructureError::UnknownTeam);
}

#[test]
fn zero_position_rank_aborts_the_pass() {
    let html = ranking_table(&[ranking_row(1, 1001, "A B", "KC", "WR0", "a-b")]);
    let mut seen = Deduplicator::new();
    let r = extract_rankings(&html, ScoringSettings::Standard, &mut seen);
    assert_eq!(r.unwrap_err(), StructureError::BadPositionRank);
}

#[test]
fn tasks_are_one_per_distinct_player_across_passes() {
    // Two players in the first pass, the same two plus one new in the next
    // two passes: five distinct ids seen nine times issue five tasks.
    let t1 = ranking_table(&[
        ranking_row(1, 1, "A A", "KC", "QB1", "a"),
        ranking_row(2, 2, "B B", "GB", "RB1", "b"),
    ]);
    let t2 = ranking_table(&[
        ranking_row(1, 1, "A A", "KC", "QB1", "a"),
        ranking_row(2, 2, "B B", "GB", "RB1", "b"),
        ranking_row(3, 3, "C C", "SF", "WR1", "c"),
    ]);
    let t3 = ranking_table(&[
        ranking_row(1, 1, "A A", "KC", "QB1", "a"),
        ranking_row(2, 4, "D D", "TB", "TE1", "d"),
        ranking_row(3, 5, "E E", "FA", "K1", "e"),
        ranking_row(4, 3, "C C", "SF", "WR1", "c"),
    ]);
    let mut seen = Deduplicator::new();
    let mut total_tasks = 0;
    let mut total_rows = 0;
    for (html, scoring) in [
        (&t1, ScoringSettings::Standard),
        (&t2, ScoringSettings::Half),
        (&t3, ScoringSettings::PPR),
    ] {
        let (rankings, tasks) = extract_rankings(html, scoring, &mut seen).unwrap();
        total_rows += rankings.len();
        total_tasks += tasks.len();
    }
    assert_eq!(total_rows, 9);
    assert_eq!(total_tasks, 5);
    assert_eq!(seen.len(), 5);
}

fn stats_table(rows: &[String]) -> String {
    format!(
        "<html><body><table id=\"data\"><tbody>{}</tbody></table></body></html>",
        rows.join("")
    )
}

fn qb_row(id: u32, pass_yds: &str, pass_td: &str, pass_int: &str, games: &str) -> String {
    // qb columns: rank, name, pass_cmp, pass_att, pass_cmp_pct, pass_yds,
    // pass_yds_per_att, pass_td, pass_int, pass_sacks, rush_att, rush_yds,
    // rush_td, fumbles, games
    format!(
        "<tr class=\"mpb-player-{id}\"><td>1</td><td>N</td><td>0</td><td>0</td><td>0</td>\
         <td>{pass_yds}</td><td>0</td><td>{pass_td}</td><td>{pass_int}</td><td>0</td>\
         <td>0</td><td>0</td><td>0</td><td>0</td><td>{games}</td></tr>"
    )
}

#[test]
fn extracts_and_scores_a_stats_row() {
    let html = stats_table(&[qb_row(2001, "300", "2", "1", "1")]);
    let mut players = Vec::new();
    extract_stats(&html, Position::QB, &mut players);
    assert_eq!(players.len(), 1);
    // extraction alone leaves the totals unscored
    assert_eq!(players[0].standard_pts, 0);
    score_merged_stats(&mut players);
    let p = &players[0];
    assert_eq!(p.player_id, 2001);
    assert_eq!(p.base.pass_yds, 300_000);
    assert_eq!(p.base.pass_td, 2_000);
    assert_eq!(p.base.pass_int, 1_000);
    assert_eq!(p.base.games, 1_000);
    // standard = 300*0.04 + 2*4 - 1*2 = 18
    assert_eq!(p.standard_pts, 1_800_000);
    assert_eq!(p.standard_pts_per_game, 1_800_000);
}

#[test]
fn six_category_extraction_scores_once_at_the_end() {
    let empty = "<html><body></body></html>";
    let qb_html = stats_table(&[qb_row(2001, "300", "2", "1", "1")]);
    let players = extract_all_stats(&qb_html, empty, empty, empty, empty, empty);
    assert_eq!(players.len(), 1);
    assert_eq!(players[0].standard_pts, 1_800_000);
    assert_eq!(players[0].half_ppr_pts, 1_800_000);
    assert_eq!(players[0].standard_pts_per_game, 1_800_000);
}

#[test]
fn blank_stat_cells_read_as_zero() {
    let html = stats_table(&[qb_row(2002, "", "n/a", "1", "2")]);
    let mut players = Vec::new();
    extract_stats(&html, Position::QB, &mut players);
    assert_eq!(players[0].base.pass_yds, 0);
    assert_eq!(players[0].base.pass_td, 0);
    assert_eq!(players[0].base.pass_int, 1_000);
}

#[test]
fn rows_without_an_id_are_dropped() {
    let row = qb_row(2003, "100", "1", "0", "1").replace("mpb-player-2003", "no-id-here");
    let html = stats_table(&[row, qb_row(2004, "100", "1", "0", "1")]);
    let mut players = Vec::new();
    extract_stats(&html, Position::QB, &mut players);
    assert_eq!(players.len(), 1);
    assert_eq!(players[0].player_id, 2004);
}

fn rb_row(id: u32, rush_yds: &str, games: &str) -> String {
    // rb columns: rank, name, rush_att, rush_yds, rush_yds_per_att,
    // rush_long, rush_20, rush_td, receptions, rec_tgt, rec_yds,
    // rec_yds_per_rec, rec_td, fumbles, games
    format!(
        "<tr class=\"mpb-player-{id}\"><td>1</td><td>N</td><td>0</td><td>{rush_yds}</td>\
         <td>0</td><td>0</td><td>0</td><td>0</td><td>0</td><td>0</td><td>0</td><td>0</td>\
         <td>0</td><td>0</td><td>{games}</td></tr>"
    )
}

fn wr_row(id: u32, rush_yds: &str, games: &str) -> String {
    // wr columns: rank, name, receptions, rec_tgt, rec_yds,
    // rec_yds_per_rec, rec_long, rec_20, rec_td, rush_att, rush_yds,
    // rush_td, fumbles, games
    format!(
        "<tr class=\"mpb-player-{id}\"><td>1</td><td>N</td><td>0</td><td>0</td><td>0</td>\
         <td>0</td><td>0</td><td>0</td><td>0</td><td>0</td><td>{rush_yds}</td><td>0</td>\
         <td>0</td><td>{games}</td></tr>"
    )
}

#[test]
fn overlapping_categories_keep_the_maximum() {
    // The same player in the rushing and the receiving table, with games
    // and rushing yards reported in both: the merged line holds the maximum
    // of each field, not the sum and not the last seen value.
    let rb_html = stats_table(&[rb_row(3001, "500", "16")]);
    let wr_html = stats_table(&[wr_row(3001, "450", "17")]);
    let mut players = Vec::new();
    extract_stats(&rb_html, Position::RB, &mut players);
    extract_stats(&wr_html, Position::WR, &mut players);
    assert_eq!(players.len(), 1);
    assert_eq!(players[0].base.rush_yds, 500_000);
    assert_eq!(players[0].base.games, 17_000);
    // the calculator then runs on the merged record: 500 rushing yards are
    // 50 points, over 17 games 2.9 per game
    score_merged_stats(&mut players);
    assert_eq!(players[0].standard_pts, 5_000_000);
    assert_eq!(players[0].standard_pts_per_game, 290_000);
}

#[test]
fn rates_come_from_the_merged_record_not_from_row_rates() {
    // One category reports 100 rushing yards over 1 game (10 points, 10.0
    // per game taken alone), the other 200 over 4 (20 points, 5.0 per
    // game). The published rate belongs to the merged record: 20 points
    // over 4 games is 5.0, not the larger of the two row rates.
    let rb_html = stats_table(&[rb_row(3002, "100", "1")]);
    let wr_html = stats_table(&[wr_row(3002, "200", "4")]);
    let mut players = Vec::new();
    extract_stats(&rb_html, Position::RB, &mut players);
    extract_stats(&wr_html, Position::WR, &mut players);
    score_merged_stats(&mut players);
    assert_eq!(players.len(), 1);
    assert_eq!(players[0].base.rush_yds, 200_000);
    assert_eq!(players[0].base.games, 4_000);
    assert_eq!(players[0].standard_pts, 2_000_000);
    assert_eq!(players[0].standard_pts_per_game, 500_000);
}

#[test]
fn totals_come_from_the_merged_record_not_from_row_totals() {
    // One row of the passing table gives the player 100 passing yards (+4
    // points), another gives two interceptions (-4 points). The merged
    // record scores to zero; the maximum of the per-row totals would be 4.
    let html = stats_table(&[
        qb_row(3003, "100", "0", "0", "1"),
        qb_row(3003, "0", "0", "2", "1"),
    ]);
    let mut players = Vec::new();
    extract_stats(&html, Position::QB, &mut players);
    score_merged_stats(&mut players);
    assert_eq!(players.len(), 1);
    assert_eq!(players[0].base.pass_yds, 100_000);
    assert_eq!(players[0].base.pass_int, 2_000);
    assert_eq!(players[0].standard_pts, 0);
    assert_eq!(players[0].standard_pts_per_game, 0);
}

#[test]
fn extracts_bio_and_bye_week() {
    let html = "<html><body>\
        <div class=\"clearfix\">\
        <span class=\"bio-detail\">Height: 6' 2\"</span>\
        <span class=\"bio-detail\">Weight: 200lbs</span>\
        <span class=\"bio-detail\">Age: 27</span>\
        <span class=\"bio-detail\">College: Oregon</span>\
        </div>\
        <table class=\"table-bordered\"><tbody>\
        <tr><td>1</td><td>@DEN</td></tr>\
        <tr><td>2</td><td>BYE</td></tr>\
        <tr><td>3</td><td>KC</td></tr>\
        </tbody></table>\
        </body></html>";
    let bio = extract_player_bio(html);
    assert_eq!(bio.height, b"6' 2\"".to_vec());
    assert_eq!(bio.weight, b"200lbs".to_vec());
    assert_eq!(bio.age, Some(27));
    assert_eq!(bio.college, b"Oregon".to_vec());
    assert_eq!(bio.bye_week, Some(2));
}

#[test]
fn bye_cell_padded_with_non_breaking_spaces_still_counts() {
    let html = "<html><body>\
        <table class=\"table-bordered\"><tbody>\
        <tr><td>1</td><td>@DEN</td></tr>\
        <tr><td>2</td><td>\u{a0}BYE\u{a0}</td></tr>\
        </tbody></table>\
        </body></html>";
    let bio = extract_player_bio(html);
    assert_eq!(bio.bye_week, Some(2));
}

#[test]
fn missing_bio_fields_stay_empty() {
    let html = "<html><body><p>nothing here</p></body></html>";
    let bio = extract_player_bio(html);
    assert_eq!(bio.height, b"".to_vec());
    assert_eq!(bio.weight, b"".to_vec());
    assert_eq!(bio.age, None);
    assert_eq!(bio.college, b"".to_vec());
    assert_eq!(bio.bye_week, None);
}

#[test]
fn source_addresses_are_fixed() {
    assert_eq!(
        ranking_url(ScoringSettings::Standard),
        "https://www.fantasypros.com/nfl/rankings/consensus-cheatsheets.php"
    );
    assert_eq!(
        ranking_url(ScoringSettings::Half),
        "https://www.fantasypros.com/nfl/rankings/half-point-ppr-cheatsheets.php"
    );
    assert_eq!(
        ranking_url(ScoringSettings::PPR),
        "https://www.fantasypros.com/nfl/rankings/ppr-cheatsheets.php"
    );
    assert_eq!(build_url(Position::QB), "https://www.fantasypros.com/nfl/stats/qb/");
    assert_eq!(build_url(Position::DST), "https://www.fantasypros.com/nfl/stats/dst/");
}

#[test]
fn offering_an_id_twice_is_a_no_op() {
    let mut d = Deduplicator::new();
    assert!(d.offer(1));
    assert!(!d.offer(1));
    assert!(d.offer(2));
    assert!(!d.offer(1));
    assert_eq!(d.len(), 2);
}

#[test]
fn short_rows_abort_the_pass() {
    let html = ranking_table(&[
        "<tr class=\"player-row\"><td>1</td><td>x</td><td>y</td></tr>".to_string(),
    ]);
    let mut seen = Deduplicator::new();
    let r = extract_rankings(&html, ScoringSettings::Standard, &mut seen);
    assert_eq!(r.unwrap_err(), StructureError::TooFewCells);
}

#[test]
fn missing_player_id_aborts_the_pass() {
    let row = ranking_row(1, 1001, "A B", "KC", "WR1", "a-b").replace(" data-player=\"1001\"", "");
    let html = ranking_table(&[row]);
    let mut seen = Deduplicator::new();
    let r = extract_rankings(&html, ScoringSettings::Standard, &mut seen);
    assert_eq!(r.unwrap_err(), StructureError::MissingPlayerId);
}

#[test]
fn missing_team_label_aborts_the_pass() {
    let row = ranking_row(1, 1001, "A B", "KC", "WR1", "a-b").replace("<span>(KC)</span>", "");
    let html = ranking_table(&[row]);
    let mut seen = Deduplicator::new();
    let r = extract_rankings(&html, ScoringSettings::Standard, &mut seen);
    assert_eq!(r.unwrap_err(), StructureError::MissingTeam);
}

#[test]
fn missing_name_link_aborts_the_pass() {
    let row = ranking_row(1, 1001, "A B", "KC", "WR1", "a-b")
        .replace("<a href=\"/nfl/players/a-b.php\">A B</a>", "");
    let html = ranking_table(&[row]);
    let mut seen = Deduplicator::new();
    let r = extract_rankings(&html, ScoringSettings::Standard, &mut seen);
    assert_eq!(r.unwrap_err(), StructureError::MissingName);
}

#[test]
fn bad_average_aborts_the_pass() {
    let row = ranking_row(1, 1001, "A B", "KC", "WR1", "a-b")
        .replace("<td>1.5</td>", "<td>n/a</td>");
    let html = ranking_table(&[row]);
    let mut seen = Deduplicator::new();
    let r = extract_rankings(&html, ScoringSettings::Standard, &mut seen);
    assert_eq!(r.unwrap_err(), StructureError::BadAverage);
}

#[test]
fn an_empty_page_yields_an_empty_pass() {
    let mut seen = Deduplicator::new();
    let (rankings, tasks) =
        extract_rankings("<html><body></body></html>", ScoringSettings::PPR, &mut seen).unwrap();
    assert!(rankings.is_empty());
    assert!(tasks.is_empty());
}
