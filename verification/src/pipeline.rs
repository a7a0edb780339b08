//! The pipeline's page-level steps and its cross-pass guarantees.
//!
//! Each step takes fetched page text and plain values and produces the
//! values the refresh publishes: ranking rows and enrichment tasks from the
//! three convention pages, a bio from each player's detail page, merged
//! statistic lines from the six category pages, and assembled player
//! records. Every step is a function of the page text alone, so running
//! the whole ingestion twice over unchanged pages reproduces the same
//! bundle.

use vstd::prelude::*;

use crate::bio::bio_matches;
use crate::bio::parse_player_bio;
use crate::dedup::Deduplicator;
use crate::dedup::fresh_idx;
use crate::dedup::lemma_fresh_idx_count;
use crate::htmlq;
use crate::players::Player;
use crate::players::PlayerBio;
use crate::players::PlayerTask;
use crate::rankings::Rankings;
use crate::rankings::ScoringSettings;
use crate::rankings::StructureError;
use crate::rankings::spec_table_outcome;
use crate::rankings::parse_ranking_table;
use crate::stats::Stats;
use crate::stats::spec_apply_scoring;
use crate::stats_extract::spec_process_rows;
use crate::stats_extract::parse_stats_table;
use crate::stats_extract::score_merged_stats;
use crate::stats_extract::all_bases_in_range;
use crate::stats_extract::lemma_process_rows_in_range;
use crate::stats_extract::find_player;
use crate::players::Position;

verus! {

/// Extracts one convention's pass from its rendered ranking table: the
/// pieces of every row are read out of the page text and parsed strictly.
/// The deduplicator carries the ids seen by earlier passes, so the tasks
/// returned are one per player fresh to the run.
pub fn extract_rankings(table_html: &str, scoring: ScoringSettings, seen: &mut Deduplicator) -> (r:
    Result<(Vec<Rankings>, Vec<PlayerTask>), StructureError>)
    requires
        old(seen).wf(),
    ensures
        final(seen).wf(),
        spec_table_outcome(
            htmlq::grouped_texts_of(table_html@, "tbody tr.player-row"@, "td"@),
            htmlq::grouped_first_attr_of(
                table_html@,
                "tbody tr.player-row"@,
                "td:nth-child(3) div"@,
                "data-player"@,
            ),
            htmlq::grouped_first_text_of(
                table_html@,
                "tbody tr.player-row"@,
                "td:nth-child(3) span"@,
            ),
            htmlq::grouped_first_attr_of(
                table_html@,
                "tbody tr.player-row"@,
                "td:nth-child(3) a"@,
                "href"@,
            ),
            htmlq::grouped_first_text_of(
                table_html@,
                "tbody tr.player-row"@,
                "td:nth-child(3) a"@,
            ),
            scoring,
            old(seen).ids(),
            r,
            final(seen).ids(),
        ),
{
    let cells = htmlq::grouped_texts(table_html, "tbody tr.player-row", "td");
    let id_attrs = htmlq::grouped_first_attr(
        table_html,
        "tbody tr.player-row",
        "td:nth-child(3) div",
        "data-player",
    );
    let team_texts = htmlq::grouped_first_text(
        table_html,
        "tbody tr.player-row",
        "td:nth-child(3) span",
    );
    let hrefs = htmlq::grouped_first_attr(
        table_html,
        "tbody tr.player-row",
        "td:nth-child(3) a",
        "href",
    );
    let name_texts = htmlq::grouped_first_text(
        table_html,
        "tbody tr.player-row",
        "td:nth-child(3) a",
    );
    parse_ranking_table(&cells, &id_attrs, &team_texts, &hrefs, &name_texts, scoring, seen)
}

/// One category pass over its page text: the rows read out of the page and
/// folded, unscored, into the collected lines.
pub open spec fn spec_stats_pass(page: Seq<char>, p: Position, players0: Seq<Stats>) -> Seq<
    Stats,
> {
    spec_process_rows(
        p,
        htmlq::matched_attrs_of(page, "table#data tbody tr"@, "class"@),
        htmlq::grouped_texts_of(page, "table#data tbody tr"@, "td"@),
        players0,
        htmlq::match_count_of(page, "table#data tbody tr"@) as int,
    )
}

/// Extracts one category's statistics table from its page text and folds
/// every row into the collected lines. The lines stay unscored: the scoring
/// calculator runs once over the fully merged records, after every
/// category's pass.
pub fn extract_stats(page_html: &str, p: Position, players: &mut Vec<Stats>)
    ensures
        final(players)@ == spec_stats_pass(page_html@, p, old(players)@),
{
    let class_attrs = htmlq::matched_attrs(page_html, "table#data tbody tr", "class");
    let cells = htmlq::grouped_texts(page_html, "table#data tbody tr", "td");
    parse_stats_table(p, &class_attrs, &cells, players)
}

/// The merged, unscored lines of the six category pages, processed in the
/// fixed category order.
pub open spec fn spec_all_stats_merged(
    qb: Seq<char>,
    rb: Seq<char>,
    wr: Seq<char>,
    te: Seq<char>,
    k: Seq<char>,
    dst: Seq<char>,
) -> Seq<Stats> {
    spec_stats_pass(
        dst,
        Position::DST,
        spec_stats_pass(
            k,
            Position::K,
            spec_stats_pass(
                te,
                Position::TE,
                spec_stats_pass(
                    wr,
                    Position::WR,
                    spec_stats_pass(rb, Position::RB, spec_stats_pass(qb, Position::QB, seq![])),
                ),
            ),
        ),
    )
}

/// The whole statistics extraction: each of the six category pages parsed
/// and merged in order, and then -- after all categories are processed --
/// the scoring calculator applied to every player's fully merged record, so
/// each published total and per-game rate is a function of the merged base.
pub fn extract_all_stats(
    qb_html: &str,
    rb_html: &str,
    wr_html: &str,
    te_html: &str,
    k_html: &str,
    dst_html: &str,
) -> (r: Vec<Stats>)
    ensures
        ({
            let merged = spec_all_stats_merged(
                qb_html@,
                rb_html@,
                wr_html@,
                te_html@,
                k_html@,
                dst_html@,
            );
            &&& r@.len() == merged.len()
            &&& forall|i: int|
                0 <= i < merged.len() ==> #[trigger] r@[i] == spec_apply_scoring(merged[i])
        }),
{
    let mut players: Vec<Stats> = Vec::new();
    extract_stats(qb_html, Position::QB, &mut players);
    extract_stats(rb_html, Position::RB, &mut players);
    extract_stats(wr_html, Position::WR, &mut players);
    extract_stats(te_html, Position::TE, &mut players);
    extract_stats(k_html, Position::K, &mut players);
    extract_stats(dst_html, Position::DST, &mut players);
    proof {
        lemma_all_stats_in_range(
            qb_html@,
            rb_html@,
            wr_html@,
            te_html@,
            k_html@,
            dst_html@,
        );
    }
    score_merged_stats(&mut players);
    players
}

/// The merged lines of the six passes keep every base within the parse cap.
proof fn lemma_all_stats_in_range(
    qb: Seq<char>,
    rb: Seq<char>,
    wr: Seq<char>,
    te: Seq<char>,
    k: Seq<char>,
    dst: Seq<char>,
)
    ensures
        all_bases_in_range(spec_all_stats_merged(qb, rb, wr, te, k, dst)),
{
    let s0 = Seq::<Stats>::empty();
    assert(all_bases_in_range(s0));
    assert(seq![] =~= s0);
    let s1 = spec_stats_pass(qb, Position::QB, s0);
    lemma_stats_pass_in_range(qb, Position::QB, s0);
    let s2 = spec_stats_pass(rb, Position::RB, s1);
    lemma_stats_pass_in_range(rb, Position::RB, s1);
    let s3 = spec_stats_pass(wr, Position::WR, s2);
    lemma_stats_pass_in_range(wr, Position::WR, s2);
    let s4 = spec_stats_pass(te, Position::TE, s3);
    lemma_stats_pass_in_range(te, Position::TE, s3);
    let s5 = spec_stats_pass(k, Position::K, s4);
    lemma_stats_pass_in_range(k, Position::K, s4);
    lemma_stats_pass_in_range(dst, Position::DST, s5);
}

proof fn lemma_stats_pass_in_range(page: Seq<char>, p: Position, players0: Seq<Stats>)
    requires
        all_bases_in_range(players0),
    ensures
        all_bases_in_range(spec_stats_pass(page, p, players0)),
{
    lemma_process_rows_in_range(
        p,
        htmlq::matched_attrs_of(page, "table#data tbody tr"@, "class"@),
        htmlq::grouped_texts_of(page, "table#data tbody tr"@, "td"@),
        players0,
        htmlq::match_count_of(page, "table#data tbody tr"@) as int,
    );
}

/// The detail texts of the page's first labeled bio section.
pub open spec fn spec_detail_texts(page: Seq<char>) -> Seq<Seq<u8>> {
    if htmlq::match_count_of(page, "div.clearfix"@) == 0 {
        Seq::<Seq<u8>>::empty()
    } else {
        htmlq::grouped_texts_of(page, "div.clearfix"@, "span.bio-detail"@)[0]
    }
}

/// Extracts one player's bio from their detail page: the labeled key/value
/// section of the first bio block, and the bye week from the schedule
/// table.
pub fn extract_player_bio(page_html: &str) -> (r: PlayerBio)
    ensures
        bio_matches(
            r,
            spec_detail_texts(page_html@),
            htmlq::grouped_texts_of(
                page_html@,
                "table.table-bordered:not(.sos) tbody tr"@,
                "td"@,
            ),
        ),
{
    let mut detail_groups = htmlq::grouped_texts(page_html, "div.clearfix", "span.bio-detail");
    let details: Vec<Vec<u8>> = if detail_groups.len() == 0 {
        Vec::new()
    } else {
        detail_groups.remove(0)
    };
    proof {
        if htmlq::match_count_of(page_html@, "div.clearfix"@) == 0 {
            assert(details.deep_view() =~= spec_detail_texts(page_html@));
        } else {
            assert(details.deep_view() == spec_detail_texts(page_html@));
        }
    }
    let sched_rows = htmlq::grouped_texts(page_html, "table.table-bordered:not(.sos) tbody tr", "td");
    parse_player_bio(&details, &sched_rows)
}

/// The assembled player record repeats its task's identity and category and
/// its bio's attributes.
pub open spec fn player_matches(p: Player, t: PlayerTask, b: PlayerBio) -> bool {
    &&& p.id == t.identity.id
    &&& p.name@ == t.identity.name@
    &&& p.position == t.position
    &&& p.team == t.identity.team
    &&& p.bye_week == b.bye_week
    &&& p.height@ == b.height@
    &&& p.weight@ == b.weight@
    &&& p.age == b.age
    &&& p.college@ == b.college@
}

/// Assembles the published player record from an enrichment task and the
/// bio its fetch produced.
pub fn player_from_task(task: PlayerTask, bio: PlayerBio) -> (r: Player)
    ensures
        player_matches(r, task, bio),
{
    let PlayerTask { identity, position } = task;
    let PlayerBio { height, weight, age, college, bye_week } = bio;
    Player {
        id: identity.id,
        name: identity.name,
        position,
        team: identity.team,
        bye_week,
        height,
        weight,
        age,
        college,
    }
}

/// The task indices whose enrichment produced a bio: tasks whose fetch
/// failed are dropped, the rest keep task order.
pub open spec fn enriched_idx(bios: Seq<Option<PlayerBio>>, k: int) -> Seq<int>
    decreases k,
{
    if k <= 0 {
        Seq::<int>::empty()
    } else {
        let prev = enriched_idx(bios, k - 1);
        if bios[k - 1] is Some {
            prev.push(k - 1)
        } else {
            prev
        }
    }
}

/// Assembles the player set from the issued tasks and each task's
/// enrichment result, in task order. A task whose fetch or parse failed
/// carries no bio: that player is dropped here and stays a ranked entity
/// without bio data, it never aborts the run.
#[verifier::loop_isolation(false)]
pub fn enrich_players(tasks: Vec<PlayerTask>, bios: Vec<Option<PlayerBio>>) -> (r: Vec<Player>)
    requires
        tasks@.len() == bios@.len(),
    ensures
        r@.len() == enriched_idx(bios@, bios@.len() as int).len(),
        forall|k: int|
            0 <= k < r@.len() ==> {
                let i = #[trigger] enriched_idx(bios@, bios@.len() as int)[k];
                &&& 0 <= i < tasks@.len()
                &&& bios@[i] is Some
                &&& player_matches(r@[k], tasks@[i], bios@[i]->0)
            },
{
    let ghost tasks0 = tasks@;
    let ghost bios0 = bios@;
    let mut tasks = tasks;
    let mut bios = bios;
    let mut out: Vec<Player> = Vec::new();
    let mut done: usize = 0;
    let n = bios.len();
    while done < n
        invariant
            0 <= done <= n == bios0.len() == tasks0.len(),
            tasks@ =~= tasks0.skip(done as int),
            bios@ =~= bios0.skip(done as int),
            out@.len() == enriched_idx(bios0, done as int).len(),
            forall|k: int|
                0 <= k < out@.len() ==> {
                    let i = #[trigger] enriched_idx(bios0, done as int)[k];
                    &&& 0 <= i < done
                    &&& bios0[i] is Some
                    &&& player_matches(out@[k], tasks0[i], bios0[i]->0)
                },
        decreases n - done,
    {
        let task = tasks.remove(0);
        let bio = bios.remove(0);
        proof {
            assert(task == tasks0[done as int]);
            assert(bio == bios0[done as int]);
            assert(tasks@ =~= tasks0.skip(done + 1));
            assert(bios@ =~= bios0.skip(done + 1));
        }
        match bio {
            Option::Some(b) => {
                out.push(player_from_task(task, b));
                proof {
                    assert(enriched_idx(bios0, done + 1) =~= enriched_idx(
                        bios0,
                        done as int,
                    ).push(done as int));
                }
            },
            Option::None => {
                proof {
                    assert(enriched_idx(bios0, done + 1) =~= enriched_idx(bios0, done as int));
                }
            },
        }
        done = done + 1;
    }
    out
}

/// Pairs each assembled player with their merged statistic line, keeping
/// player order; a player with no line in any category pairs with none.
#[verifier::loop_isolation(false)]
pub fn combine_player_data(players: Vec<Player>, stats: &Vec<Stats>) -> (r: Vec<
    (Player, Option<Stats>),
>)
    ensures
        r@.len() == players@.len(),
        forall|i: int|
            0 <= i < r@.len() ==> {
                &&& (#[trigger] r@[i]).0 == players@[i]
                &&& r@[i].1 == (if find_player(stats@, players@[i].id) < stats@.len() {
                    Option::Some(stats@[find_player(stats@, players@[i].id)])
                } else {
                    Option::<Stats>::None
                })
            },
{
    let ghost players0 = players@;
    let mut players = players;
    let mut out: Vec<(Player, Option<Stats>)> = Vec::new();
    let mut done: usize = 0;
    let n = players.len();
    while done < n
        invariant
            0 <= done <= n == players0.len(),
            players@ =~= players0.skip(done as int),
            out@.len() == done,
            forall|i: int|
                0 <= i < done ==> {
                    &&& (#[trigger] out@[i]).0 == players0[i]
                    &&& out@[i].1 == (if find_player(stats@, players0[i].id) < stats@.len() {
                        Option::Some(stats@[find_player(stats@, players0[i].id)])
                    } else {
                        Option::<Stats>::None
                    })
                },
        decreases n - done,
    {
        let player = players.remove(0);
        proof {
            assert(player == players0[done as int]);
            assert(players@ =~= players0.skip(done + 1));
        }
        let id = player.id;
        let m = stats.len();
        let mut j: usize = 0;
        let mut found: Option<Stats> = Option::None;
        while j < m
            invariant
                0 <= j <= m == stats@.len(),
                found is None,
                forall|t: int| 0 <= t < j ==> (#[trigger] stats@[t]).player_id != id,
            decreases m - j,
        {
            if stats[j].player_id == id {
                proof {
                    crate::stats_extract::lemma_find_player_unique(stats@, id, j as int);
                }
                found = Option::Some(stats[j]);
                break ;
            }
            j = j + 1;
        }
        proof {
            if found is None {
                crate::stats_extract::lemma_find_player_unique(stats@, id, m as int);
            }
        }
        out.push((player, found));
        done = done + 1;
    }
    out
}

/// Deduplication across the whole run: the enrichment tasks of the three
/// convention passes, processed in order through one deduplicator that
/// starts empty, number exactly the distinct player ids observed across all
/// three passes.
pub proof fn lemma_enrichment_tasks_count(ids1: Seq<i32>, ids2: Seq<i32>, ids3: Seq<i32>)
    ensures
        fresh_idx(ids1, Set::<i32>::empty(), ids1.len() as int).len() + fresh_idx(
            ids2,
            Set::<i32>::empty().union(ids1.to_set()),
            ids2.len() as int,
        ).len() + fresh_idx(
            ids3,
            Set::<i32>::empty().union(ids1.to_set()).union(ids2.to_set()),
            ids3.len() as int,
        ).len() == (ids1 + ids2 + ids3).to_set().len(),
{
    let s0 = Set::<i32>::empty();
    let s1 = s0.union(ids1.to_set());
    let s2 = s1.union(ids2.to_set());
    let s3 = s2.union(ids3.to_set());
    assert(ids1.take(ids1.len() as int) =~= ids1);
    assert(ids2.take(ids2.len() as int) =~= ids2);
    assert(ids3.take(ids3.len() as int) =~= ids3);
    assert(s0.finite());
    lemma_fresh_idx_count(ids1, s0, ids1.len() as int);
    lemma_fresh_idx_count(ids2, s1, ids2.len() as int);
    lemma_fresh_idx_count(ids3, s2, ids3.len() as int);
    lemma_concat_to_set(ids1, ids2);
    lemma_concat_to_set(ids1 + ids2, ids3);
    assert((ids1 + ids2 + ids3).to_set() =~= s3);
    assert(s0.len() == 0);
}

/// The ids of a concatenation are the union of the ids of the parts.
pub proof fn lemma_concat_to_set(a: Seq<i32>, b: Seq<i32>)
    ensures
        (a + b).to_set() == a.to_set().union(b.to_set()),
{
    let c = a + b;
    assert forall|x: i32| c.to_set().contains(x) implies a.to_set().union(b.to_set()).contains(
        x,
    ) by {
        let k = choose|k: int| 0 <= k < c.len() && c[k] == x;
        if k < a.len() {
            assert(a[k] == x);
        } else {
            assert(b[k - a.len()] == x);
        }
    }
    assert forall|x: i32| a.to_set().union(b.to_set()).contains(x) implies c.to_set().contains(
        x,
    ) by {
        if a.to_set().contains(x) {
            let k = choose|k: int| 0 <= k < a.len() && a[k] == x;
            assert(c[k] == x);
        } else {
            let k = choose|k: int| 0 <= k < b.len() && b[k] == x;
            assert(c[a.len() + k] == x);
        }
    }
    assert(c.to_set() =~= a.to_set().union(b.to_set()));
}

} // verus!
