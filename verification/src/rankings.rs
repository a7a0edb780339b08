//! The rankings extractor.
//!
//! Each scoring convention has one rankings page whose table holds a row per
//! player. A row yields the overall rank, the player's identity, a combined
//! position-and-rank field written as letters followed by digits, and the
//! best, worst, average and standard-deviation rank figures. Parsing is
//! strict: a required field that does not parse aborts the whole pass, so a
//! changed page layout can never publish corrupt rankings.

use vstd::prelude::*;

use crate::dedup::Deduplicator;
use crate::num::is_digit;
use crate::num::spec_parse_milli;
use crate::num::parse_milli;
use crate::num::MAX_MILLI;
use crate::players::Position;
use crate::players::Team;
use crate::players::PlayerIdentity;
use crate::players::PlayerTask;
use crate::players::spec_parse_i32;
use crate::players::parse_i32;
use crate::text::is_paren;
use crate::text::spec_trim;
use crate::text::trim_parens;
use crate::text::spec_replace;
use crate::text::replace;
use crate::text::copy_range;

verus! {

/// The three scoring conventions. A closed set, never extended at runtime.
#[derive(Debug, Clone, Copy, PartialEq, Eq, Hash, Structural)]
pub enum ScoringSettings {
    Standard,
    Half,
    PPR,
}

/// The rank figures of one player under one convention. The average and the
/// standard deviation are carried in thousandths.
#[derive(Debug, Clone, Copy, PartialEq, Eq, Structural)]
#[verifier::ext_equal]
pub struct RankingsBase {
    pub overall: i32,
    pub position: i32,
    pub best: i32,
    pub worst: i32,
    pub average: i64,
    pub standard_deviation: i64,
}

/// One ranking row: composite-keyed by player and convention.
#[derive(Debug, Clone, Copy, PartialEq, Eq, Structural)]
#[verifier::ext_equal]
pub struct Rankings {
    pub player_id: i32,
    pub scoring_settings: ScoringSettings,
    pub base: RankingsBase,
}

/// Why a ranking pass failed. Any of these aborts the whole pass: rankings
/// are never silently defaulted.
#[derive(Debug, Clone, Copy, PartialEq, Eq, Structural)]
pub enum StructureError {
    /// A row holds fewer cells than the detailed layout has.
    TooFewCells,
    /// The overall rank cell is not an integer.
    BadOverall,
    /// The row carries no parseable player id attribute.
    MissingPlayerId,
    /// The row carries no team label.
    MissingTeam,
    /// The team label is not a known team code.
    UnknownTeam,
    /// The row carries no player name link.
    MissingName,
    /// The combined position field is not letters followed by a positive
    /// rank.
    BadPositionRank,
    /// The letters of the combined position field name no known category.
    UnknownPosition,
    /// The best-rank cell is not an integer.
    BadBest,
    /// The worst-rank cell is not an integer.
    BadWorst,
    /// The average-rank cell is not a decimal number.
    BadAverage,
    /// The standard-deviation cell is not a decimal number.
    BadStdDev,
}

/// The fixed source address of a convention's rankings page.
pub open spec fn spec_ranking_url(s: ScoringSettings) -> Seq<char> {
    match s {
        ScoringSettings::Standard => "https://www.fantasypros.com/nfl/rankings/consensus-cheatsheets.php"@,
        ScoringSettings::Half => "https://www.fantasypros.com/nfl/rankings/half-point-ppr-cheatsheets.php"@,
        ScoringSettings::PPR => "https://www.fantasypros.com/nfl/rankings/ppr-cheatsheets.php"@,
    }
}

/// The rankings page to fetch for a convention.
pub fn ranking_url(s: ScoringSettings) -> (r: &'static str)
    ensures
        r@ == spec_ranking_url(s),
{
    match s {
        ScoringSettings::Standard => "https://www.fantasypros.com/nfl/rankings/consensus-cheatsheets.php",
        ScoringSettings::Half => "https://www.fantasypros.com/nfl/rankings/half-point-ppr-cheatsheets.php",
        ScoringSettings::PPR => "https://www.fantasypros.com/nfl/rankings/ppr-cheatsheets.php",
    }
}

/// Index of the first decimal digit of `s`, or `s.len()` when none occurs.
pub open spec fn first_digit_idx(s: Seq<u8>) -> int
    decreases s.len(),
{
    if s.len() == 0 {
        0
    } else if is_digit(s[0]) {
        0
    } else {
        1 + first_digit_idx(s.drop_first())
    }
}

pub proof fn lemma_first_digit_idx(s: Seq<u8>)
    ensures
        0 <= first_digit_idx(s) <= s.len(),
        forall|i: int| 0 <= i < first_digit_idx(s) ==> !is_digit(#[trigger] s[i]),
        first_digit_idx(s) < s.len() ==> is_digit(s[first_digit_idx(s)]),
    decreases s.len(),
{
    if s.len() > 0 && !is_digit(s[0]) {
        lemma_first_digit_idx(s.drop_first());
        assert forall|i: int| 0 <= i < first_digit_idx(s) implies !is_digit(s[i]) by {
            if i > 0 {
                assert(s[i] == s.drop_first()[i - 1]);
            }
        }
    }
}

pub proof fn lemma_first_digit_idx_unique(s: Seq<u8>, i: int)
    requires
        0 <= i <= s.len(),
        forall|j: int| 0 <= j < i ==> !is_digit(#[trigger] s[j]),
        i < s.len() ==> is_digit(s[i]),
    ensures
        i == first_digit_idx(s),
{
    lemma_first_digit_idx(s);
    if i < first_digit_idx(s) {
        assert(!is_digit(s[i]));
        assert(i < s.len());
    } else if first_digit_idx(s) < i {
        assert(is_digit(s[first_digit_idx(s)]));
    }
}

/// End of the run of digits that starts at `i`.
pub open spec fn digit_run_end(s: Seq<u8>, i: int) -> int
    recommends
        0 <= i <= s.len(),
    decreases s.len() - i when 0 <= i <= s.len()
{
    if i < s.len() && is_digit(s[i]) {
        digit_run_end(s, i + 1)
    } else {
        i
    }
}

pub proof fn lemma_digit_run_end(s: Seq<u8>, i: int)
    requires
        0 <= i <= s.len(),
    ensures
        i <= digit_run_end(s, i) <= s.len(),
        forall|j: int| i <= j < digit_run_end(s, i) ==> is_digit(#[trigger] s[j]),
        digit_run_end(s, i) < s.len() ==> !is_digit(s[digit_run_end(s, i)]),
    decreases s.len() - i,
{
    if i < s.len() && is_digit(s[i]) {
        lemma_digit_run_end(s, i + 1);
    }
}

pub proof fn lemma_digit_run_end_unique(s: Seq<u8>, i: int, j: int)
    requires
        0 <= i <= j <= s.len(),
        forall|k: int| i <= k < j ==> is_digit(#[trigger] s[k]),
        j < s.len() ==> !is_digit(s[j]),
    ensures
        j == digit_run_end(s, i),
    decreases j - i,
{
    if i < j {
        lemma_digit_run_end_unique(s, i + 1, j);
    }
}

/// The combined position field split into its letters and its digits: the
/// letters end where the first digit run begins. A field with no leading
/// letters or no digits does not split.
pub open spec fn spec_split_position_rank(s: Seq<u8>) -> Option<(Seq<u8>, Seq<u8>)> {
    let i = first_digit_idx(s);
    if i == 0 || i >= s.len() {
        Option::None
    } else {
        Option::Some((s.take(i), s.subrange(i, digit_run_end(s, i))))
    }
}

/// The parsed combined field: its category and its position rank. The rank
/// must be a positive integer; a zero or malformed rank fails the row, it is
/// never defaulted.
pub open spec fn spec_get_position_ranking(s: Seq<u8>) -> Result<
    (Position, i32),
    StructureError,
> {
    match spec_split_position_rank(s) {
        Option::None => Result::Err(StructureError::BadPositionRank),
        Option::Some((letters, digits)) => match Position::spec_from_code(letters) {
            Option::None => Result::Err(StructureError::UnknownPosition),
            Option::Some(p) => match spec_parse_i32(digits) {
                Option::None => Result::Err(StructureError::BadPositionRank),
                Option::Some(v) => if v >= 1 {
                    Result::Ok((p, v))
                } else {
                    Result::Err(StructureError::BadPositionRank)
                },
            },
        },
    }
}

/// Splits a combined position field such as the letters-then-digits form the
/// rankings table uses, and checks both halves.
#[verifier::loop_isolation(false)]
pub fn get_position_ranking(s: &[u8]) -> (r: Result<(Position, i32), StructureError>)
    ensures
        r == spec_get_position_ranking(s@),
{
    let n = s.len();
    let mut i: usize = 0;
    while i < n && (s[i] < 48 || s[i] > 57)
        invariant
            0 <= i <= n == s@.len(),
            forall|j: int| 0 <= j < i ==> !is_digit(#[trigger] s@[j]),
        decreases n - i,
    {
        i = i + 1;
    }
    proof {
        lemma_first_digit_idx_unique(s@, i as int);
    }
    if i == 0 || i >= n {
        return Result::Err(StructureError::BadPositionRank);
    }
    let mut j: usize = i;
    while j < n && 48 <= s[j] && s[j] <= 57
        invariant
            i <= j <= n,
            forall|k: int| i <= k < j ==> is_digit(#[trigger] s@[k]),
        decreases n - j,
    {
        j = j + 1;
    }
    proof {
        lemma_digit_run_end_unique(s@, i as int, j as int);
    }
    let letters = copy_range(s, 0, i);
    let digits = copy_range(s, i, j);
    proof {
        assert(s@.subrange(0, i as int) =~= s@.take(i as int));
    }
    match Position::from_code(letters.as_slice()) {
        Option::None => Result::Err(StructureError::UnknownPosition),
        Option::Some(p) => match parse_i32(digits.as_slice()) {
            Option::None => Result::Err(StructureError::BadPositionRank),
            Option::Some(v) => if v >= 1 {
                Result::Ok((p, v))
            } else {
                Result::Err(StructureError::BadPositionRank)
            },
        },
    }
}

/// The path segment of a player detail address.
pub open spec fn players_seg() -> Seq<u8> {
    seq![47u8, 112u8, 108u8, 97u8, 121u8, 101u8, 114u8, 115u8, 47u8]
}

/// The path segment of a player schedule address.
pub open spec fn schedule_seg() -> Seq<u8> {
    seq![47u8, 115u8, 99u8, 104u8, 101u8, 100u8, 117u8, 108u8, 101u8, 47u8]
}

/// The schedule address derived from a row's detail link: the players path
/// segment is substituted by the schedule one; a row without a link yields
/// an empty address.
pub open spec fn spec_bio_url(href: Option<Seq<u8>>) -> Seq<u8> {
    match href {
        Option::Some(h) => spec_replace(h, players_seg(), schedule_seg()),
        Option::None => Seq::<u8>::empty(),
    }
}

/// The id a ranking row names, once its attribute parses.
pub open spec fn spec_row_id(id_attr: Option<Seq<u8>>) -> i32 {
    spec_parse_i32(id_attr->0)->0
}

/// What stops a row's identity from parsing: a missing or malformed id
/// attribute, then a missing team label, then an unknown team code, then a
/// missing name link, in the order the row is read.
pub open spec fn spec_identity_error(
    id_attr: Option<Seq<u8>>,
    team_text: Option<Seq<u8>>,
    name_text: Option<Seq<u8>>,
) -> Option<StructureError> {
    if id_attr is None || spec_parse_i32(id_attr->0) is None {
        Option::Some(StructureError::MissingPlayerId)
    } else if team_text is None {
        Option::Some(StructureError::MissingTeam)
    } else if Team::spec_from_code(spec_trim(team_text->0, |b: u8| is_paren(b))) is None {
        Option::Some(StructureError::UnknownTeam)
    } else if name_text is None {
        Option::Some(StructureError::MissingName)
    } else {
        Option::None
    }
}

/// The parsed identity fields agree with what the raw row said.
pub open spec fn identity_matches(
    p: PlayerIdentity,
    id_attr: Option<Seq<u8>>,
    team_text: Option<Seq<u8>>,
    href: Option<Seq<u8>>,
    name_text: Option<Seq<u8>>,
) -> bool {
    &&& p.id == spec_row_id(id_attr)
    &&& Option::Some(p.team) == Team::spec_from_code(
        spec_trim(team_text->0, |b: u8| is_paren(b)),
    )
    &&& p.name@ == name_text->0
    &&& p.bio_url@ == spec_bio_url(href)
}

/// Reads a player's identity from the raw pieces of a ranking row: the id
/// attribute, the parenthesised team label, the detail link and its text.
pub fn get_player_identity(
    id_attr: &Option<Vec<u8>>,
    team_text: &Option<Vec<u8>>,
    href: &Option<Vec<u8>>,
    name_text: &Option<Vec<u8>>,
) -> (r: Result<PlayerIdentity, StructureError>)
    ensures
        match spec_identity_error(id_attr.deep_view(), team_text.deep_view(), name_text.deep_view()) {
            Option::Some(e) => r == Result::<PlayerIdentity, StructureError>::Err(e),
            Option::None => r is Ok && identity_matches(
                r->Ok_0,
                id_attr.deep_view(),
                team_text.deep_view(),
                href.deep_view(),
                name_text.deep_view(),
            ),
        },
{
    let id: i32 = match id_attr {
        Option::None => {
            return Result::Err(StructureError::MissingPlayerId);
        },
        Option::Some(a) => match {
            proof {
                assert(a.deep_view() =~= a@);
            }
            parse_i32(a.as_slice())
        } {
            Option::None => {
                return Result::Err(StructureError::MissingPlayerId);
            },
            Option::Some(v) => v,
        },
    };
    let team: Team = match team_text {
        Option::None => {
            return Result::Err(StructureError::MissingTeam);
        },
        Option::Some(t) => {
            proof {
                assert(t.deep_view() =~= t@);
            }
            let trimmed = trim_parens(t.as_slice());
            match Team::from_code(trimmed.as_slice()) {
                Option::None => {
                    return Result::Err(StructureError::UnknownTeam);
                },
                Option::Some(team) => team,
            }
        },
    };
    let name: Vec<u8> = match name_text {
        Option::None => {
            return Result::Err(StructureError::MissingName);
        },
        Option::Some(nm) => {
            proof {
                assert(nm.deep_view() =~= nm@);
            }
            nm.clone()
        },
    };
    let players_pat: [u8; 9] = [47u8, 112u8, 108u8, 97u8, 121u8, 101u8, 114u8, 115u8, 47u8];
    let schedule_pat: [u8; 10] = [
        47u8,
        115u8,
        99u8,
        104u8,
        101u8,
        100u8,
        117u8,
        108u8,
        101u8,
        47u8,
    ];
    proof {
        assert(players_pat@ =~= players_seg());
        assert(schedule_pat@ =~= schedule_seg());
    }
    let bio_url: Vec<u8> = match href {
        Option::None => Vec::new(),
        Option::Some(h) => {
            proof {
                assert(h.deep_view() =~= h@);
            }
            replace(h.as_slice(), players_pat.as_slice(), schedule_pat.as_slice())
        },
    };
    proof {
        assert(bio_url@ == spec_bio_url(href.deep_view()));
    }
    Result::Ok(PlayerIdentity { id, bio_url, name, team })
}

/// Reads a strictly required numeric cell: an integer or decimal number,
/// `None` when the text is anything else. In ranking tables such a failure
/// aborts the pass.
pub fn parse_cell_as_number(cell: &[u8]) -> (r: Option<i64>)
    ensures
        r == spec_cell_number(cell@),
{
    parse_milli(cell)
}

/// A strictly parsed numeric cell, in thousandths.
pub open spec fn spec_cell_number(s: Seq<u8>) -> Option<i64> {
    match spec_parse_milli(s) {
        Option::Some(v) => if -(MAX_MILLI as int) <= v <= MAX_MILLI as int {
            Option::Some(v as i64)
        } else {
            Option::None
        },
        Option::None => Option::None,
    }
}

/// Why a whole row fails, in the order its fields are read; a row shorter
/// than the detailed layout is reported before any field. `None` means the
/// row parses.
pub open spec fn spec_row_error(
    cells: Seq<Seq<u8>>,
    id_attr: Option<Seq<u8>>,
    team_text: Option<Seq<u8>>,
    name_text: Option<Seq<u8>>,
) -> Option<StructureError> {
    if cells.len() < 8 {
        Option::Some(StructureError::TooFewCells)
    } else if spec_parse_i32(cells[0]) is None {
        Option::Some(StructureError::BadOverall)
    } else if spec_identity_error(id_attr, team_text, name_text) is Some {
        spec_identity_error(id_attr, team_text, name_text)
    } else if spec_get_position_ranking(cells[3]) is Err {
        Option::Some(spec_get_position_ranking(cells[3])->Err_0)
    } else if spec_parse_i32(cells[4]) is None {
        Option::Some(StructureError::BadBest)
    } else if spec_parse_i32(cells[5]) is None {
        Option::Some(StructureError::BadWorst)
    } else if spec_cell_number(cells[6]) is None {
        Option::Some(StructureError::BadAverage)
    } else if spec_cell_number(cells[7]) is None {
        Option::Some(StructureError::BadStdDev)
    } else {
        Option::None
    }
}

/// The rank figures of a row that parses.
pub open spec fn spec_row_base(cells: Seq<Seq<u8>>) -> RankingsBase {
    RankingsBase {
        overall: spec_parse_i32(cells[0])->0,
        position: spec_get_position_ranking(cells[3])->Ok_0.1,
        best: spec_parse_i32(cells[4])->0,
        worst: spec_parse_i32(cells[5])->0,
        average: spec_cell_number(cells[6])->0,
        standard_deviation: spec_cell_number(cells[7])->0,
    }
}

/// The category a row's combined field names.
pub open spec fn spec_row_position(cells: Seq<Seq<u8>>) -> Position {
    spec_get_position_ranking(cells[3])->Ok_0.0
}

/// The ranking row a parsed row publishes under a convention.
pub open spec fn spec_row_ranking(
    cells: Seq<Seq<u8>>,
    id_attr: Option<Seq<u8>>,
    scoring: ScoringSettings,
) -> Rankings {
    Rankings {
        player_id: spec_row_id(id_attr),
        scoring_settings: scoring,
        base: spec_row_base(cells),
    }
}

/// Parses one ranking row from its cell texts and its raw identity pieces.
/// Any missing or malformed required field fails the row.
pub fn parse_ranking_row(
    cells: &Vec<Vec<u8>>,
    id_attr: &Option<Vec<u8>>,
    team_text: &Option<Vec<u8>>,
    href: &Option<Vec<u8>>,
    name_text: &Option<Vec<u8>>,
) -> (r: Result<(PlayerIdentity, Position, RankingsBase), StructureError>)
    ensures
        match spec_row_error(
            cells.deep_view(),
            id_attr.deep_view(),
            team_text.deep_view(),
            name_text.deep_view(),
        ) {
            Option::Some(e) => r == Result::<
                (PlayerIdentity, Position, RankingsBase),
                StructureError,
            >::Err(e),
            Option::None => {
                &&& r is Ok
                &&& identity_matches(
                    r->Ok_0.0,
                    id_attr.deep_view(),
                    team_text.deep_view(),
                    href.deep_view(),
                    name_text.deep_view(),
                )
                &&& r->Ok_0.1 == spec_row_position(cells.deep_view())
                &&& r->Ok_0.2 == spec_row_base(cells.deep_view())
            },
        },
{
    proof {
        assert forall|i: int| 0 <= i < cells@.len() implies #[trigger] cells.deep_view()[i]
            =~= cells@[i]@ by {
            assert(cells.deep_view()[i] == cells@[i].deep_view());
        }
    }
    if cells.len() < 8 {
        return Result::Err(StructureError::TooFewCells);
    }
    let overall: i32 = match parse_i32(cells[0].as_slice()) {
        Option::None => {
            return Result::Err(StructureError::BadOverall);
        },
        Option::Some(v) => v,
    };
    let identity = match get_player_identity(id_attr, team_text, href, name_text) {
        Result::Err(e) => {
            return Result::Err(e);
        },
        Result::Ok(p) => p,
    };
    let (position, position_rank) = match get_position_ranking(cells[3].as_slice()) {
        Result::Err(e) => {
            return Result::Err(e);
        },
        Result::Ok(t) => t,
    };
    let best: i32 = match parse_i32(cells[4].as_slice()) {
        Option::None => {
            return Result::Err(StructureError::BadBest);
        },
        Option::Some(v) => v,
    };
    let worst: i32 = match parse_i32(cells[5].as_slice()) {
        Option::None => {
            return Result::Err(StructureError::BadWorst);
        },
        Option::Some(v) => v,
    };
    let average: i64 = match parse_cell_as_number(cells[6].as_slice()) {
        Option::None => {
            return Result::Err(StructureError::BadAverage);
        },
        Option::Some(v) => v,
    };
    let standard_deviation: i64 = match parse_cell_as_number(cells[7].as_slice()) {
        Option::None => {
            return Result::Err(StructureError::BadStdDev);
        },
        Option::Some(v) => v,
    };
    let base = RankingsBase { overall, position: position_rank, best, worst, average, standard_deviation };
    proof {
        assert(base =~= spec_row_base(cells.deep_view()));
    }
    Result::Ok((identity, position, base))
}

/// The pass failed at row `i` with error `e`: every earlier row parses and
/// row `i` does not, and the deduplicator holds exactly the earlier rows'
/// ids on top of what it held before the pass.
pub open spec fn spec_first_error_at(
    cv: Seq<Seq<Seq<u8>>>,
    idv: Seq<Option<Seq<u8>>>,
    tv: Seq<Option<Seq<u8>>>,
    nv: Seq<Option<Seq<u8>>>,
    seen0: Set<i32>,
    seen1: Set<i32>,
    i: int,
    e: StructureError,
) -> bool {
    &&& 0 <= i < cv.len()
    &&& forall|j: int| 0 <= j < i ==> #[trigger] spec_row_error(cv[j], idv[j], tv[j], nv[j]) is None
    &&& spec_row_error(cv[i], idv[i], tv[i], nv[i]) == Option::Some(e)
    &&& seen1 == seen0.union(row_ids(idv).take(i).to_set())
}

/// A row that parses always carries a positive position rank: a rank that
/// is missing, malformed or zero fails the whole pass instead, it is never
/// silently defaulted.
pub proof fn lemma_position_rank_positive(
    cells: Seq<Seq<u8>>,
    id_attr: Option<Seq<u8>>,
    team_text: Option<Seq<u8>>,
    name_text: Option<Seq<u8>>,
)
    requires
        spec_row_error(cells, id_attr, team_text, name_text) is None,
    ensures
        spec_row_base(cells).position >= 1,
{
}

/// The id each row names, in row order.
pub open spec fn row_ids(id_attrs: Seq<Option<Seq<u8>>>) -> Seq<i32> {
    Seq::new(id_attrs.len(), |i: int| spec_row_id(id_attrs[i]))
}

/// Everything one convention's pass guarantees, given the raw pieces of its
/// table and the seen-set before and after. On success there is one ranking
/// per row, the seen-set grows by exactly the ids of the table, and one
/// enrichment task is issued per id fresh to the whole run, in
/// first-appearance order, carrying that row's identity and category. On
/// failure the error is the first row's failure, and nothing is returned
/// for the table.
pub open spec fn spec_table_outcome(
    cv: Seq<Seq<Seq<u8>>>,
    idv: Seq<Option<Seq<u8>>>,
    tv: Seq<Option<Seq<u8>>>,
    hv: Seq<Option<Seq<u8>>>,
    nv: Seq<Option<Seq<u8>>>,
    scoring: ScoringSettings,
    seen0: Set<i32>,
    r: Result<(Vec<Rankings>, Vec<PlayerTask>), StructureError>,
    seen1: Set<i32>,
) -> bool {
    match r {
        Result::Ok(out) => {
            let n = cv.len() as int;
            let fi = crate::dedup::fresh_idx(row_ids(idv), seen0, n);
            &&& forall|i: int|
                0 <= i < n ==> #[trigger] spec_row_error(cv[i], idv[i], tv[i], nv[i]) is None
            &&& out.0@.len() == n
            &&& forall|i: int|
                0 <= i < n ==> #[trigger] out.0@[i] == spec_row_ranking(cv[i], idv[i], scoring)
            &&& seen1 == seen0.union(row_ids(idv).to_set())
            &&& out.1@.len() == fi.len()
            &&& forall|k: int|
                0 <= k < fi.len() ==> {
                    let i = #[trigger] fi[k];
                    &&& 0 <= i < n
                    &&& identity_matches(out.1@[k].identity, idv[i], tv[i], hv[i], nv[i])
                    &&& out.1@[k].position == spec_row_position(cv[i])
                }
        },
        Result::Err(e) => exists|i: int| spec_first_error_at(cv, idv, tv, nv, seen0, seen1, i, e),
    }
}

/// Parses every row of one convention's ranking table, fail-fast: the first
/// bad row aborts the pass with its error and nothing is returned for the
/// table. On success there is one ranking per row, and one enrichment task
/// per player id that no pass had seen before, in first-appearance order.
#[verifier::loop_isolation(false)]
#[verifier::rlimit(60)]
pub fn parse_ranking_table(
    cells: &Vec<Vec<Vec<u8>>>,
    id_attrs: &Vec<Option<Vec<u8>>>,
    team_texts: &Vec<Option<Vec<u8>>>,
    hrefs: &Vec<Option<Vec<u8>>>,
    name_texts: &Vec<Option<Vec<u8>>>,
    scoring: ScoringSettings,
    seen: &mut Deduplicator,
) -> (r: Result<(Vec<Rankings>, Vec<PlayerTask>), StructureError>)
    requires
        old(seen).wf(),
        id_attrs@.len() == cells@.len(),
        team_texts@.len() == cells@.len(),
        hrefs@.len() == cells@.len(),
        name_texts@.len() == cells@.len(),
    ensures
        final(seen).wf(),
        spec_table_outcome(
            cells.deep_view(),
            id_attrs.deep_view(),
            team_texts.deep_view(),
            hrefs.deep_view(),
            name_texts.deep_view(),
            scoring,
            old(seen).ids(),
            r,
            final(seen).ids(),
        ),
{
    let ghost cv = cells.deep_view();
    let ghost idv = id_attrs.deep_view();
    let ghost tv = team_texts.deep_view();
    let ghost hv = hrefs.deep_view();
    let ghost nv = name_texts.deep_view();
    let ghost old_ids = old(seen).ids();
    let ghost rids = row_ids(idv);
    let n = cells.len();
    proof {
        assert(cv.len() == n && idv.len() == n && tv.len() == n && hv.len() == n && nv.len() == n);
    }
    let mut rankings: Vec<Rankings> = Vec::new();
    let mut tasks: Vec<PlayerTask> = Vec::new();
    let mut i: usize = 0;
    while i < n
        invariant
            0 <= i <= n,
            seen.wf(),
            rankings@.len() == i,
            tasks@.len() == crate::dedup::fresh_idx(rids, old_ids, i as int).len(),
            seen.ids() == old_ids.union(rids.take(i as int).to_set()),
            forall|j: int|
                0 <= j < i ==> #[trigger] spec_row_error(cv[j], idv[j], tv[j], nv[j]) is None,
            forall|j: int|
                0 <= j < i ==> #[trigger] rankings@[j] == spec_row_ranking(cv[j], idv[j], scoring),
            forall|k: int|
                0 <= k < tasks@.len() ==> {
                    let t = #[trigger] crate::dedup::fresh_idx(rids, old_ids, i as int)[k];
                    &&& 0 <= t < i
                    &&& identity_matches(tasks@[k].identity, idv[t], tv[t], hv[t], nv[t])
                    &&& tasks@[k].position == spec_row_position(cv[t])
                },
        decreases n - i,
    {
        proof {
            assert(cells.deep_view()[i as int] == cells@[i as int].deep_view());
            assert(id_attrs.deep_view()[i as int] == id_attrs@[i as int].deep_view());
            assert(team_texts.deep_view()[i as int] == team_texts@[i as int].deep_view());
            assert(hrefs.deep_view()[i as int] == hrefs@[i as int].deep_view());
            assert(name_texts.deep_view()[i as int] == name_texts@[i as int].deep_view());
        }
        let row = match parse_ranking_row(
            &cells[i],
            &id_attrs[i],
            &team_texts[i],
            &hrefs[i],
            &name_texts[i],
        ) {
            Result::Err(e) => {
                proof {
                    assert(spec_first_error_at(cv, idv, tv, nv, old_ids, seen.ids(), i as int, e));
                }
                return Result::Err(e);
            },
            Result::Ok(t) => t,
        };
        let (identity, position, base) = row;
        let player_id = identity.id;
        proof {
            assert(player_id == rids[i as int]);
        }
        rankings.push(
            Rankings { player_id, scoring_settings: scoring, base },
        );
        proof {
            assert(rankings@[i as int] =~= spec_row_ranking(cv[i as int], idv[i as int], scoring));
        }
        let ghost fi_old = crate::dedup::fresh_idx(rids, old_ids, i as int);
        let fresh = seen.offer(player_id);
        proof {
            assert(rids.take(i + 1) =~= rids.take(i as int).push(rids[i as int]));
            crate::dedup::lemma_to_set_push(rids.take(i as int), rids[i as int]);
            assert(old_ids.union(rids.take(i as int).to_set()).insert(rids[i as int])
                =~= old_ids.union(rids.take(i + 1).to_set()));
            assert(fresh == !old_ids.union(rids.take(i as int).to_set()).contains(
                rids[i as int],
            ));
        }
        if fresh {
            tasks.push(PlayerTask { identity, position });
            proof {
                assert(crate::dedup::fresh_idx(rids, old_ids, i + 1) =~= fi_old.push(i as int));
            }
        } else {
            proof {
                assert(crate::dedup::fresh_idx(rids, old_ids, i + 1) =~= fi_old);
            }
        }
        i = i + 1;
    }
    proof {
        assert(rids.take(n as int) =~= rids);
    }
    Result::Ok((rankings, tasks))
}

} // verus!
