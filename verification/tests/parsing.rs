//! Number, text and field parsing.

use fantasy_ingest::num::parse_digits;
use fantasy_ingest::num::parse_int;
use fantasy_ingest::num::parse_milli;
use fantasy_ingest::num::parse_milli_or_zero;
use fantasy_ingest::num::round_div;
use fantasy_ingest::players::parse_i32;
use fantasy_ingest::players::Position;
use fantasy_ingest::players::Team;
use fantasy_ingest::rankings::get_position_ranking;
use fantasy_ingest::rankings::parse_cell_as_number;
use fantasy_ingest::rankings::StructureError;
use fantasy_ingest::stats_extract::extract_player_id;
use fantasy_ingest::text::replace;
use fantasy_ingest::text::trim_parens;
use fantasy_ingest::text::trim_ws;

#[test]
fn parses_plain_integers() {
    assert_eq!(parse_int(b"123"), Some(123));
    assert_eq!(parse_int(b"-45"), Some(-45));
    assert_eq!(parse_int(b"+7"), Some(7));
    assert_eq!(parse_int(b""), None);
    assert_eq!(parse_int(b"-"), None);
    assert_eq!(parse_int(b"12a"), None);
    assert_eq!(parse_int(b"1.5"), None);
}

#[test]
fn parses_decimals_to_thousandths() {
    assert_eq!(parse_milli(b"16.5"), Some(16_500));
    assert_eq!(parse_milli(b"0.7"), Some(700));
    assert_eq!(parse_milli(b"-2.25"), Some(-2_250));
    assert_eq!(parse_milli(b"300"), Some(300_000));
    assert_eq!(parse_milli(b".5"), Some(500));
    assert_eq!(parse_milli(b"5."), Some(5_000));
    assert_eq!(parse_milli(b"1.2345"), Some(1_234));
    assert_eq!(parse_milli(b"."), None);
    assert_eq!(parse_milli(b"1.2.3"), None);
    assert_eq!(parse_milli(b"abc"), None);
    assert_eq!(parse_milli(b""), None);
}

#[test]
fn lenient_cells_default_to_zero() {
    assert_eq!(parse_milli_or_zero(b""), 0);
    assert_eq!(parse_milli_or_zero(b"-"), 0);
    assert_eq!(parse_milli_or_zero(b"65.9"), 65_900);
}

#[test]
fn strict_cells_refuse_junk() {
    assert_eq!(parse_cell_as_number(b"1.5"), Some(1_500));
    assert_eq!(parse_cell_as_number(b""), None);
    assert_eq!(parse_cell_as_number(b"n/a"), None);
}

#[test]
fn digit_runs_cap_at_the_parse_limit() {
    assert_eq!(parse_digits(b"999", 0, 3), Some(999));
    assert_eq!(parse_digits(b"9999999999999", 0, 13), None);
}

#[test]
fn rounds_halves_away_from_zero() {
    assert_eq!(round_div(5, 10), 1);
    assert_eq!(round_div(4, 10), 0);
    assert_eq!(round_div(-5, 10), -1);
    assert_eq!(round_div(15, 10), 2);
    assert_eq!(round_div(14, 10), 1);
}

#[test]
fn parses_i32_within_range_only() {
    assert_eq!(parse_i32(b"2147483647"), Some(2147483647));
    assert_eq!(parse_i32(b"2147483648"), None);
    assert_eq!(parse_i32(b"-2147483648"), Some(-2147483648));
}

#[test]
fn trims_parens_and_whitespace() {
    assert_eq!(trim_parens(b"(KC)"), b"KC".to_vec());
    assert_eq!(trim_parens(b"KC"), b"KC".to_vec());
    assert_eq!(trim_parens(b"((FA))"), b"FA".to_vec());
    assert_eq!(trim_ws(b"  BYE \n"), b"BYE".to_vec());
    assert_eq!(trim_ws(b"BYE"), b"BYE".to_vec());
    assert_eq!(trim_ws(b" \t "), b"".to_vec());
    // the two-byte non-breaking space is stripped too
    assert_eq!(trim_ws("\u{a0}BYE\u{a0} ".as_bytes()), b"BYE".to_vec());
}

#[test]
fn replaces_path_segments() {
    assert_eq!(
        replace(b"/nfl/players/john-smith.php", b"/players/", b"/schedule/"),
        b"/nfl/schedule/john-smith.php".to_vec()
    );
    assert_eq!(replace(b"abcabc", b"abc", b"x"), b"xx".to_vec());
    assert_eq!(replace(b"abc", b"zz", b"x"), b"abc".to_vec());
}

#[test]
fn reads_team_and_position_codes() {
    assert_eq!(Team::from_code(b"KC"), Some(Team::KC));
    assert_eq!(Team::from_code(b"FA"), Some(Team::FA));
    assert_eq!(Team::from_code(b"XX"), None);
    assert_eq!(Position::from_code(b"WR"), Some(Position::WR));
    assert_eq!(Position::from_code(b"DST"), Some(Position::DST));
    assert_eq!(Position::from_code(b"ZZ"), None);
}

#[test]
fn splits_position_and_rank() {
    assert_eq!(get_position_ranking(b"WR12"), Ok((Position::WR, 12)));
    assert_eq!(get_position_ranking(b"DST5"), Ok((Position::DST, 5)));
    assert_eq!(
        get_position_ranking(b"QB3extra"),
        Ok((Position::QB, 3))
    );
}

#[test]
fn position_rank_must_be_positive() {
    assert_eq!(
        get_position_ranking(b"WR0"),
        Err(StructureError::BadPositionRank)
    );
    assert_eq!(
        get_position_ranking(b"12"),
        Err(StructureError::BadPositionRank)
    );
    assert_eq!(
        get_position_ranking(b"WR"),
        Err(StructureError::BadPositionRank)
    );
    assert_eq!(
        get_position_ranking(b"XX12"),
        Err(StructureError::UnknownPosition)
    );
}

#[test]
fn reads_player_id_from_row_class() {
    assert_eq!(extract_player_id(&Some(b"mpb-player-2001 row".to_vec())), Some(2001));
    assert_eq!(extract_player_id(&Some(b"no digits".to_vec())), None);
    assert_eq!(extract_player_id(&None), None);
    assert_eq!(extract_player_id(&Some(b"x99999999999999".to_vec())), None);
}

#[test]
fn team_and_position_codes_round_trip() {
    assert_eq!(Team::KC.code(), b"KC".to_vec());
    assert_eq!(Team::JAC.code(), b"JAC".to_vec());
    assert_eq!(Position::DST.code(), b"DST".to_vec());
    assert_eq!(Team::from_code(&Team::LAR.code()), Some(Team::LAR));
    assert_eq!(Position::from_code(&Position::K.code()), Some(Position::K));
}
