//! The refresh transaction, the run markers, and the assembly steps around
//! them.

use fantasy_ingest::dedup::Deduplicator;
use fantasy_ingest::pipeline::combine_player_data;
use fantasy_ingest::pipeline::enrich_players;
use fantasy_ingest::pipeline::extract_rankings;
use fantasy_ingest::pipeline::extract_stats;
use fantasy_ingest::stats_extract::score_merged_stats;
use fantasy_ingest::pipeline::player_from_task;
use fantasy_ingest::players::Player;
use fantasy_ingest::players::PlayerBio;
use fantasy_ingest::players::PlayerIdentity;
use fantasy_ingest::players::PlayerTask;
use fantasy_ingest::players::Position;
use fantasy_ingest::players::Team;
use fantasy_ingest::rankings::ScoringSettings;
use fantasy_ingest::stats::Stats;
use fantasy_ingest::store::apply_refresh;
use fantasy_ingest::store::RunBundle;
use fantasy_ingest::store::Store;
use fantasy_ingest::store::TransactionError;

fn sample_player(id: i32) -> Player {
    Player {
        id,
        name: b"Sample Player".to_vec(),
        position: Position::WR,
        team: Team::KC,
        bye_week: Some(6),
        height: b"6' 0\"".to_vec(),
        weight: b"190lbs".to_vec(),
        age: Some(25),
        college: b"Ohio State".to_vec(),
    }
}

fn sample_bundle() -> RunBundle {
    let mut s = Stats::new(1);
    s.base.rec_yds = 1_000_000;
    RunBundle { players: vec![sample_player(1)], rankings: vec![], stats: vec![s] }
}

#[test]
fn a_successful_refresh_replaces_everything_and_stamps() {
    let mut store = Store::new();
    store.players = vec![sample_player(9)];
    let r = apply_refresh(&mut store, sample_bundle(), 100, None);
    assert!(r.is_ok());
    assert_eq!(store.players.len(), 1);
    assert_eq!(store.players[0].id, 1);
    assert_eq!(store.stats.len(), 1);
    assert_eq!(store.run_markers, vec![100]);
    assert_eq!(store.last_successful_run(), Some(100));
}

#[test]
fn a_failed_refresh_leaves_the_prior_data_untouched() {
    // A failure between the delete and the insert: the previously published
    // rows stay exactly as they were and no marker is appended.
    let mut store = Store::new();
    apply_refresh(&mut store, sample_bundle(), 100, None).unwrap();
    let players_before = store.players.clone();
    let stats_before = store.stats.clone();
    let markers_before = store.run_markers.clone();
    let r = apply_refresh(
        &mut store,
        RunBundle { players: vec![], rankings: vec![], stats: vec![] },
        200,
        Some(TransactionError::InsertFailed),
    );
    assert_eq!(r, Err(TransactionError::InsertFailed));
    assert_eq!(store.players, players_before);
    assert_eq!(store.stats, stats_before);
    assert_eq!(store.run_markers, markers_before);
    assert_eq!(store.last_successful_run(), Some(100));
}

#[test]
fn no_run_no_marker() {
    let store = Store::new();
    assert_eq!(store.last_successful_run(), None);
}

fn ranking_row(rank: u32, id: u32, pos: &str) -> String {
    format!(
        "<tr class=\"player-row\"><td>{rank}</td><td>x</td>\
         <td><div data-player=\"{id}\"></div>\
         <a href=\"/nfl/players/p{id}.php\">P {id}</a><span>(KC)</span></td>\
         <td>{pos}</td><td>1</td><td>3</td><td>1.5</td><td>0.7</td></tr>"
    )
}

fn qb_row(id: u32, pass_yds: &str, games: &str) -> String {
    format!(
        "<tr class=\"mpb-player-{id}\"><td>1</td><td>N</td><td>0</td><td>0</td><td>0</td>\
         <td>{pass_yds}</td><td>0</td><td>0</td><td>0</td><td>0</td>\
         <td>0</td><td>0</td><td>0</td><td>0</td><td>{games}</td></tr>"
    )
}

/// One full ingestion over fixed page text, into a fresh bundle.
fn run_ingestion(rank_htmls: &[String; 3], stats_html: &str) -> RunBundle {
    let mut seen = Deduplicator::new();
    let mut rankings = Vec::new();
    let mut tasks = Vec::new();
    for (html, scoring) in rank_htmls.iter().zip([
        ScoringSettings::Standard,
        ScoringSettings::Half,
        ScoringSettings::PPR,
    ]) {
        let (r, t) = extract_rankings(html, scoring, &mut seen).unwrap();
        rankings.extend(r);
        tasks.extend(t);
    }
    let bios: Vec<Option<PlayerBio>> = tasks
        .iter()
        .map(|_| {
            Some(PlayerBio {
                height: b"6' 1\"".to_vec(),
                weight: b"210lbs".to_vec(),
                age: Some(26),
                college: b"Alabama".to_vec(),
                bye_week: Some(9),
            })
        })
        .collect();
    let players = enrich_players(tasks, bios);
    let mut stats = Vec::new();
    extract_stats(stats_html, Position::QB, &mut stats);
    score_merged_stats(&mut stats);
    RunBundle { players, rankings, stats }
}

#[test]
fn two_runs_over_unchanged_pages_publish_identical_tables() {
    let table = format!(
        "<html><body><table id=\"ranking-table\"><tbody>{}{}</tbody></table></body></html>",
        ranking_row(1, 11, "QB1"),
        ranking_row(2, 12, "QB2"),
    );
    let rank_htmls = [table.clone(), table.clone(), table];
    let stats_html = format!(
        "<html><body><table id=\"data\"><tbody>{}</tbody></table></body></html>",
        qb_row(11, "4000", "17"),
    );

    let b1 = run_ingestion(&rank_htmls, &stats_html);
    let b2 = run_ingestion(&rank_htmls, &stats_html);
    assert_eq!(b1.players, b2.players);
    assert_eq!(b1.rankings, b2.rankings);
    assert_eq!(b1.stats, b2.stats);

    let mut store = Store::new();
    apply_refresh(&mut store, b1, 100, None).unwrap();
    let p1 = store.players.clone();
    let r1 = store.rankings.clone();
    let s1 = store.stats.clone();
    apply_refresh(&mut store, b2, 200, None).unwrap();
    assert_eq!(store.players, p1);
    assert_eq!(store.rankings, r1);
    assert_eq!(store.stats, s1);
    assert_eq!(store.run_markers, vec![100, 200]);
    assert!(store.run_markers[0] < store.run_markers[1]);
}

#[test]
fn failed_enrichment_drops_only_that_player() {
    let task = |id: i32| PlayerTask {
        identity: PlayerIdentity {
            id,
            bio_url: b"/nfl/schedule/x.php".to_vec(),
            name: b"X Y".to_vec(),
            team: Team::GB,
        },
        position: Position::RB,
    };
    let bio = PlayerBio {
        height: b"5' 11\"".to_vec(),
        weight: b"205lbs".to_vec(),
        age: None,
        college: b"".to_vec(),
        bye_week: Some(13),
    };
    let players = enrich_players(
        vec![task(1), task(2), task(3)],
        vec![Some(bio.clone()), None, Some(bio)],
    );
    assert_eq!(players.len(), 2);
    assert_eq!(players[0].id, 1);
    assert_eq!(players[1].id, 3);
    assert_eq!(players[1].bye_week, Some(13));
}

#[test]
fn assembles_a_player_from_task_and_bio() {
    let task = PlayerTask {
        identity: PlayerIdentity {
            id: 42,
            bio_url: b"/nfl/schedule/a.php".to_vec(),
            name: b"A B".to_vec(),
            team: Team::SF,
        },
        position: Position::TE,
    };
    let bio = PlayerBio {
        height: b"6' 4\"".to_vec(),
        weight: b"250lbs".to_vec(),
        age: Some(28),
        college: b"Iowa".to_vec(),
        bye_week: Some(11),
    };
    let p = player_from_task(task, bio);
    assert_eq!(p.id, 42);
    assert_eq!(p.name, b"A B".to_vec());
    assert_eq!(p.position, Position::TE);
    assert_eq!(p.team, Team::SF);
    assert_eq!(p.bye_week, Some(11));
    assert_eq!(p.height, b"6' 4\"".to_vec());
    assert_eq!(p.age, Some(28));
    assert_eq!(p.college, b"Iowa".to_vec());
}

#[test]
fn pairs_players_with_their_stat_lines() {
    let players = vec![sample_player(1), sample_player(2)];
    let mut s1 = Stats::new(2);
    s1.base.games = 10_000;
    let stats = vec![s1];
    let combined = combine_player_data(players, &stats);
    assert_eq!(combined.len(), 2);
    assert_eq!(combined[0].0.id, 1);
    assert!(combined[0].1.is_none());
    assert_eq!(combined[1].0.id, 2);
    assert_eq!(combined[1].1.unwrap().base.games, 10_000);
}

#[test]
fn a_failed_delete_rolls_back_too() {
    let mut store = Store::new();
    apply_refresh(&mut store, sample_bundle(), 50, None).unwrap();
    let r = apply_refresh(
        &mut store,
        sample_bundle(),
        60,
        Some(TransactionError::DeleteFailed),
    );
    assert_eq!(r, Err(TransactionError::DeleteFailed));
    assert_eq!(store.run_markers, vec![50]);
    assert_eq!(store.players.len(), 1);
}
