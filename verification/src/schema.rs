//! The category schema table: each of the six position categories maps to
//! the ordered list of statistic fields that its table's columns report,
//! after the two leading rank and name columns.

use vstd::prelude::*;

use crate::players::Position;
use crate::stats::StatsBase;

verus! {

/// A named statistic field of `StatsBase`.
#[derive(Debug, Clone, Copy, PartialEq, Eq, Structural)]
pub enum StatField {
    PassCmp,
    PassAtt,
    PassCmpPct,
    PassYds,
    PassYdsPerAtt,
    PassTd,
    PassInt,
    PassSacks,
    RushAtt,
    RushYds,
    RushYdsPerAtt,
    RushLong,
    Rush20,
    RushTd,
    Fumbles,
    Receptions,
    RecTgt,
    RecYds,
    RecYdsPerRec,
    RecLong,
    Rec20,
    RecTd,
    FieldGoals,
    FgAtt,
    FgPct,
    FgLong,
    Fg119,
    Fg2029,
    Fg3039,
    Fg4049,
    Fg50,
    ExtraPoints,
    XpAtt,
    Sacks,
    DefInt,
    FumblesRecovered,
    FumblesForced,
    DefTd,
    Safeties,
    SpecialTeamsTd,
    Games,
}

impl StatField {
    /// The value this field holds in a base.
    pub open spec fn spec_get(self, b: StatsBase) -> i64 {
        match self {
            StatField::PassCmp => b.pass_cmp,
            StatField::PassAtt => b.pass_att,
            StatField::PassCmpPct => b.pass_cmp_pct,
            StatField::PassYds => b.pass_yds,
            StatField::PassYdsPerAtt => b.pass_yds_per_att,
            StatField::PassTd => b.pass_td,
            StatField::PassInt => b.pass_int,
            StatField::PassSacks => b.pass_sacks,
            StatField::RushAtt => b.rush_att,
            StatField::RushYds => b.rush_yds,
            StatField::RushYdsPerAtt => b.rush_yds_per_att,
            StatField::RushLong => b.rush_long,
            StatField::Rush20 => b.rush_20,
            StatField::RushTd => b.rush_td,
            StatField::Fumbles => b.fumbles,
            StatField::Receptions => b.receptions,
            StatField::RecTgt => b.rec_tgt,
            StatField::RecYds => b.rec_yds,
            StatField::RecYdsPerRec => b.rec_yds_per_rec,
            StatField::RecLong => b.rec_long,
            StatField::Rec20 => b.rec_20,
            StatField::RecTd => b.rec_td,
            StatField::FieldGoals => b.field_goals,
            StatField::FgAtt => b.fg_att,
            StatField::FgPct => b.fg_pct,
            StatField::FgLong => b.fg_long,
            StatField::Fg119 => b.fg_1_19,
            StatField::Fg2029 => b.fg_20_29,
            StatField::Fg3039 => b.fg_30_39,
            StatField::Fg4049 => b.fg_40_49,
            StatField::Fg50 => b.fg_50,
            StatField::ExtraPoints => b.extra_points,
            StatField::XpAtt => b.xp_att,
            StatField::Sacks => b.sacks,
            StatField::DefInt => b.def_int,
            StatField::FumblesRecovered => b.fumbles_recovered,
            StatField::FumblesForced => b.fumbles_forced,
            StatField::DefTd => b.def_td,
            StatField::Safeties => b.safeties,
            StatField::SpecialTeamsTd => b.special_teams_td,
            StatField::Games => b.games,
        }
    }

    /// The base with this field set to `v` and all else kept.
    pub open spec fn spec_set(self, b: StatsBase, v: i64) -> StatsBase {
        match self {
            StatField::PassCmp => StatsBase { pass_cmp: v, ..b },
            StatField::PassAtt => StatsBase { pass_att: v, ..b },
            StatField::PassCmpPct => StatsBase { pass_cmp_pct: v, ..b },
            StatField::PassYds => StatsBase { pass_yds: v, ..b },
            StatField::PassYdsPerAtt => StatsBase { pass_yds_per_att: v, ..b },
            StatField::PassTd => StatsBase { pass_td: v, ..b },
            StatField::PassInt => StatsBase { pass_int: v, ..b },
            StatField::PassSacks => StatsBase { pass_sacks: v, ..b },
            StatField::RushAtt => StatsBase { rush_att: v, ..b },
            StatField::RushYds => StatsBase { rush_yds: v, ..b },
            StatField::RushYdsPerAtt => StatsBase { rush_yds_per_att: v, ..b },
            StatField::RushLong => StatsBase { rush_long: v, ..b },
            StatField::Rush20 => StatsBase { rush_20: v, ..b },
            StatField::RushTd => StatsBase { rush_td: v, ..b },
            StatField::Fumbles => StatsBase { fumbles: v, ..b },
            StatField::Receptions => StatsBase { receptions: v, ..b },
            StatField::RecTgt => StatsBase { rec_tgt: v, ..b },
            StatField::RecYds => StatsBase { rec_yds: v, ..b },
            StatField::RecYdsPerRec => StatsBase { rec_yds_per_rec: v, ..b },
            StatField::RecLong => StatsBase { rec_long: v, ..b },
            StatField::Rec20 => StatsBase { rec_20: v, ..b },
            StatField::RecTd => StatsBase { rec_td: v, ..b },
            StatField::FieldGoals => StatsBase { field_goals: v, ..b },
            StatField::FgAtt => StatsBase { fg_att: v, ..b },
            StatField::FgPct => StatsBase { fg_pct: v, ..b },
            StatField::FgLong => StatsBase { fg_long: v, ..b },
            StatField::Fg119 => StatsBase { fg_1_19: v, ..b },
            StatField::Fg2029 => StatsBase { fg_20_29: v, ..b },
            StatField::Fg3039 => StatsBase { fg_30_39: v, ..b },
            StatField::Fg4049 => StatsBase { fg_40_49: v, ..b },
            StatField::Fg50 => StatsBase { fg_50: v, ..b },
            StatField::ExtraPoints => StatsBase { extra_points: v, ..b },
            StatField::XpAtt => StatsBase { xp_att: v, ..b },
            StatField::Sacks => StatsBase { sacks: v, ..b },
            StatField::DefInt => StatsBase { def_int: v, ..b },
            StatField::FumblesRecovered => StatsBase { fumbles_recovered: v, ..b },
            StatField::FumblesForced => StatsBase { fumbles_forced: v, ..b },
            StatField::DefTd => StatsBase { def_td: v, ..b },
            StatField::Safeties => StatsBase { safeties: v, ..b },
            StatField::SpecialTeamsTd => StatsBase { special_teams_td: v, ..b },
            StatField::Games => StatsBase { games: v, ..b },
        }
    }

    pub fn get(self, b: &StatsBase) -> (r: i64)
        ensures
            r == self.spec_get(*b),
    {
        match self {
            StatField::PassCmp => b.pass_cmp,
            StatField::PassAtt => b.pass_att,
            StatField::PassCmpPct => b.pass_cmp_pct,
            StatField::PassYds => b.pass_yds,
            StatField::PassYdsPerAtt => b.pass_yds_per_att,
            StatField::PassTd => b.pass_td,
            StatField::PassInt => b.pass_int,
            StatField::PassSacks => b.pass_sacks,
            StatField::RushAtt => b.rush_att,
            StatField::RushYds => b.rush_yds,
            StatField::RushYdsPerAtt => b.rush_yds_per_att,
            StatField::RushLong => b.rush_long,
            StatField::Rush20 => b.rush_20,
            StatField::RushTd => b.rush_td,
            StatField::Fumbles => b.fumbles,
            StatField::Receptions => b.receptions,
            StatField::RecTgt => b.rec_tgt,
            StatField::RecYds => b.rec_yds,
            StatField::RecYdsPerRec => b.rec_yds_per_rec,
            StatField::RecLong => b.rec_long,
            StatField::Rec20 => b.rec_20,
            StatField::RecTd => b.rec_td,
            StatField::FieldGoals => b.field_goals,
            StatField::FgAtt => b.fg_att,
            StatField::FgPct => b.fg_pct,
            StatField::FgLong => b.fg_long,
            StatField::Fg119 => b.fg_1_19,
            StatField::Fg2029 => b.fg_20_29,
            StatField::Fg3039 => b.fg_30_39,
            StatField::Fg4049 => b.fg_40_49,
            StatField::Fg50 => b.fg_50,
            StatField::ExtraPoints => b.extra_points,
            StatField::XpAtt => b.xp_att,
            StatField::Sacks => b.sacks,
            StatField::DefInt => b.def_int,
            StatField::FumblesRecovered => b.fumbles_recovered,
            StatField::FumblesForced => b.fumbles_forced,
            StatField::DefTd => b.def_td,
            StatField::Safeties => b.safeties,
            StatField::SpecialTeamsTd => b.special_teams_td,
            StatField::Games => b.games,
        }
    }

    pub fn set(self, b: &mut StatsBase, v: i64)
        ensures
            *final(b) == self.spec_set(*old(b), v),
    {
        match self {
            StatField::PassCmp => { b.pass_cmp = v; },
            StatField::PassAtt => { b.pass_att = v; },
            StatField::PassCmpPct => { b.pass_cmp_pct = v; },
            StatField::PassYds => { b.pass_yds = v; },
            StatField::PassYdsPerAtt => { b.pass_yds_per_att = v; },
            StatField::PassTd => { b.pass_td = v; },
            StatField::PassInt => { b.pass_int = v; },
            StatField::PassSacks => { b.pass_sacks = v; },
            StatField::RushAtt => { b.rush_att = v; },
            StatField::RushYds => { b.rush_yds = v; },
            StatField::RushYdsPerAtt => { b.rush_yds_per_att = v; },
            StatField::RushLong => { b.rush_long = v; },
            StatField::Rush20 => { b.rush_20 = v; },
            StatField::RushTd => { b.rush_td = v; },
            StatField::Fumbles => { b.fumbles = v; },
            StatField::Receptions => { b.receptions = v; },
            StatField::RecTgt => { b.rec_tgt = v; },
            StatField::RecYds => { b.rec_yds = v; },
            StatField::RecYdsPerRec => { b.rec_yds_per_rec = v; },
            StatField::RecLong => { b.rec_long = v; },
            StatField::Rec20 => { b.rec_20 = v; },
            StatField::RecTd => { b.rec_td = v; },
            StatField::FieldGoals => { b.field_goals = v; },
            StatField::FgAtt => { b.fg_att = v; },
            StatField::FgPct => { b.fg_pct = v; },
            StatField::FgLong => { b.fg_long = v; },
            StatField::Fg119 => { b.fg_1_19 = v; },
            StatField::Fg2029 => { b.fg_20_29 = v; },
            StatField::Fg3039 => { b.fg_30_39 = v; },
            StatField::Fg4049 => { b.fg_40_49 = v; },
            StatField::Fg50 => { b.fg_50 = v; },
            StatField::ExtraPoints => { b.extra_points = v; },
            StatField::XpAtt => { b.xp_att = v; },
            StatField::Sacks => { b.sacks = v; },
            StatField::DefInt => { b.def_int = v; },
            StatField::FumblesRecovered => { b.fumbles_recovered = v; },
            StatField::FumblesForced => { b.fumbles_forced = v; },
            StatField::DefTd => { b.def_td = v; },
            StatField::Safeties => { b.safeties = v; },
            StatField::SpecialTeamsTd => { b.special_teams_td = v; },
            StatField::Games => { b.games = v; },
        }
    }
}

/// The ordered column schema of a category's statistics table.
pub open spec fn spec_category_schema(p: Position) -> Seq<StatField> {
    match p {
        Position::QB => seq![StatField::PassCmp, StatField::PassAtt, StatField::PassCmpPct, StatField::PassYds, StatField::PassYdsPerAtt, StatField::PassTd, StatField::PassInt, StatField::PassSacks, StatField::RushAtt, StatField::RushYds, StatField::RushTd, StatField::Fumbles, StatField::Games],
        Position::RB => seq![StatField::RushAtt, StatField::RushYds, StatField::RushYdsPerAtt, StatField::RushLong, StatField::Rush20, StatField::RushTd, StatField::Receptions, StatField::RecTgt, StatField::RecYds, StatField::RecYdsPerRec, StatField::RecTd, StatField::Fumbles, StatField::Games],
        Position::WR => seq![StatField::Receptions, StatField::RecTgt, StatField::RecYds, StatField::RecYdsPerRec, StatField::RecLong, StatField::Rec20, StatField::RecTd, StatField::RushAtt, StatField::RushYds, StatField::RushTd, StatField::Fumbles, StatField::Games],
        Position::TE => seq![StatField::Receptions, StatField::RecTgt, StatField::RecYds, StatField::RecYdsPerRec, StatField::RecLong, StatField::Rec20, StatField::RecTd, StatField::RushAtt, StatField::RushYds, StatField::RushTd, StatField::Fumbles, StatField::Games],
        Position::K => seq![StatField::FieldGoals, StatField::FgAtt, StatField::FgPct, StatField::FgLong, StatField::Fg119, StatField::Fg2029, StatField::Fg3039, StatField::Fg4049, StatField::Fg50, StatField::ExtraPoints, StatField::XpAtt, StatField::Games],
        Position::DST => seq![StatField::Sacks, StatField::DefInt, StatField::FumblesRecovered, StatField::FumblesForced, StatField::DefTd, StatField::Safeties, StatField::SpecialTeamsTd, StatField::Games],
    }
}

/// The ordered list of fields the category's table reports, one per column
/// after the two leading rank and name columns.
pub fn category_schema(p: Position) -> (r: Vec<StatField>)
    ensures
        r@ == spec_category_schema(p),
{
    let r: Vec<StatField> = match p {
        Position::QB => vec![StatField::PassCmp, StatField::PassAtt, StatField::PassCmpPct, StatField::PassYds, StatField::PassYdsPerAtt, StatField::PassTd, StatField::PassInt, StatField::PassSacks, StatField::RushAtt, StatField::RushYds, StatField::RushTd, StatField::Fumbles, StatField::Games],
        Position::RB => vec![StatField::RushAtt, StatField::RushYds, StatField::RushYdsPerAtt, StatField::RushLong, StatField::Rush20, StatField::RushTd, StatField::Receptions, StatField::RecTgt, StatField::RecYds, StatField::RecYdsPerRec, StatField::RecTd, StatField::Fumbles, StatField::Games],
        Position::WR => vec![StatField::Receptions, StatField::RecTgt, StatField::RecYds, StatField::RecYdsPerRec, StatField::RecLong, StatField::Rec20, StatField::RecTd, StatField::RushAtt, StatField::RushYds, StatField::RushTd, StatField::Fumbles, StatField::Games],
        Position::TE => vec![StatField::Receptions, StatField::RecTgt, StatField::RecYds, StatField::RecYdsPerRec, StatField::RecLong, StatField::Rec20, StatField::RecTd, StatField::RushAtt, StatField::RushYds, StatField::RushTd, StatField::Fumbles, StatField::Games],
        Position::K => vec![StatField::FieldGoals, StatField::FgAtt, StatField::FgPct, StatField::FgLong, StatField::Fg119, StatField::Fg2029, StatField::Fg3039, StatField::Fg4049, StatField::Fg50, StatField::ExtraPoints, StatField::XpAtt, StatField::Games],
        Position::DST => vec![StatField::Sacks, StatField::DefInt, StatField::FumblesRecovered, StatField::FumblesForced, StatField::DefTd, StatField::Safeties, StatField::SpecialTeamsTd, StatField::Games],
    };
    assert(r@ =~= spec_category_schema(p));
    r
}

} // verus!
