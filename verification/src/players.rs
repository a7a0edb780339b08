//! Player-side data model: position categories, team codes, identities,
//! biographical attributes, and the assembled player record.

use vstd::prelude::*;

use crate::num::spec_parse_int;

verus! {

/// The six position categories that rankings and statistics know.
#[derive(Debug, Clone, Copy, PartialEq, Eq, Structural)]
pub enum Position {
    QB,
    RB,
    WR,
    TE,
    K,
    DST,
}

/// Team codes, including FA for free agents.
#[derive(Debug, Clone, Copy, PartialEq, Eq, Structural)]
pub enum Team {
    ARI,
    ATL,
    BAL,
    BUF,
    CAR,
    CHI,
    CIN,
    CLE,
    DAL,
    DEN,
    DET,
    GB,
    HOU,
    IND,
    JAC,
    KC,
    LV,
    LAC,
    LAR,
    MIA,
    MIN,
    NE,
    NO,
    NYG,
    NYJ,
    PHI,
    PIT,
    SF,
    SEA,
    TB,
    TEN,
    WAS,
    FA,
}

/// Compares two byte strings.
pub fn bytes_eq(a: &[u8], b: &[u8]) -> (r: bool)
    ensures
        r == (a@ == b@),
{
    if a.len() != b.len() {
        assert(a@ != b@) by {
            assert(a@.len() != b@.len());
        }
        return false;
    }
    let n = a.len();
    let mut i: usize = 0;
    while i < n
        invariant
            0 <= i <= n,
            n == a@.len() == b@.len(),
            forall|j: int| 0 <= j < i ==> a@[j] == b@[j],
        decreases n - i,
    {
        if a[i] != b[i] {
            return false;
        }
        i = i + 1;
    }
    proof {
        assert(a@ =~= b@);
    }
    true
}

impl Position {
    /// The letters that name this category in page text.
    pub open spec fn spec_code(self) -> Seq<u8> {
        match self {
            Position::QB => seq![81u8, 66u8],
            Position::RB => seq![82u8, 66u8],
            Position::WR => seq![87u8, 82u8],
            Position::TE => seq![84u8, 69u8],
            Position::K => seq![75u8],
            Position::DST => seq![68u8, 83u8, 84u8],
        }
    }

    /// The category read from page text, as written there.
    pub open spec fn spec_from_code(s: Seq<u8>) -> Option<Position> {
        if s == seq![81u8, 66u8] {
            Option::Some(Position::QB)
        } else if s == seq![82u8, 66u8] {
            Option::Some(Position::RB)
        } else if s == seq![87u8, 82u8] {
            Option::Some(Position::WR)
        } else if s == seq![84u8, 69u8] {
            Option::Some(Position::TE)
        } else if s == seq![75u8] {
            Option::Some(Position::K)
        } else if s == seq![68u8, 83u8, 84u8] {
            Option::Some(Position::DST)
        } else {
            Option::None
        }
    }

    pub fn from_code(s: &[u8]) -> (r: Option<Position>)
        ensures
            r == Position::spec_from_code(s@),
    {
        let c_qb: [u8; 2] = [81u8, 66u8];
        assert(c_qb@ =~= seq![81u8, 66u8]);
        if bytes_eq(s, c_qb.as_slice()) {
            return Option::Some(Position::QB);
        }
        let c_rb: [u8; 2] = [82u8, 66u8];
        assert(c_rb@ =~= seq![82u8, 66u8]);
        if bytes_eq(s, c_rb.as_slice()) {
            return Option::Some(Position::RB);
        }
        let c_wr: [u8; 2] = [87u8, 82u8];
        assert(c_wr@ =~= seq![87u8, 82u8]);
        if bytes_eq(s, c_wr.as_slice()) {
            return Option::Some(Position::WR);
        }
        let c_te: [u8; 2] = [84u8, 69u8];
        assert(c_te@ =~= seq![84u8, 69u8]);
        if bytes_eq(s, c_te.as_slice()) {
            return Option::Some(Position::TE);
        }
        let c_k: [u8; 1] = [75u8];
        assert(c_k@ =~= seq![75u8]);
        if bytes_eq(s, c_k.as_slice()) {
            return Option::Some(Position::K);
        }
        let c_dst: [u8; 3] = [68u8, 83u8, 84u8];
        assert(c_dst@ =~= seq![68u8, 83u8, 84u8]);
        if bytes_eq(s, c_dst.as_slice()) {
            return Option::Some(Position::DST);
        }
        Option::None
    }

    pub fn code(self) -> (r: Vec<u8>)
        ensures
            r@ == self.spec_code(),
    {
        let mut v: Vec<u8> = Vec::new();
        match self {
            Position::QB => { v.push(81u8); v.push(66u8); },
            Position::RB => { v.push(82u8); v.push(66u8); },
            Position::WR => { v.push(87u8); v.push(82u8); },
            Position::TE => { v.push(84u8); v.push(69u8); },
            Position::K => { v.push(75u8); },
            Position::DST => { v.push(68u8); v.push(83u8); v.push(84u8); },
        }
        assert(v@ =~= self.spec_code());
        v
    }
}

impl Team {
    /// The letters of this team code.
    pub open spec fn spec_code(self) -> Seq<u8> {
        match self {
            Team::ARI => seq![65u8, 82u8, 73u8],
            Team::ATL => seq![65u8, 84u8, 76u8],
            Team::BAL => seq![66u8, 65u8, 76u8],
            Team::BUF => seq![66u8, 85u8, 70u8],
            Team::CAR => seq![67u8, 65u8, 82u8],
            Team::CHI => seq![67u8, 72u8, 73u8],
            Team::CIN => seq![67u8, 73u8, 78u8],
            Team::CLE => seq![67u8, 76u8, 69u8],
            Team::DAL => seq![68u8, 65u8, 76u8],
            Team::DEN => seq![68u8, 69u8, 78u8],
            Team::DET => seq![68u8, 69u8, 84u8],
            Team::GB => seq![71u8, 66u8],
            Team::HOU => seq![72u8, 79u8, 85u8],
            Team::IND => seq![73u8, 78u8, 68u8],
            Team::JAC => seq![74u8, 65u8, 67u8],
            Team::KC => seq![75u8, 67u8],
            Team::LV => seq![76u8, 86u8],
            Team::LAC => seq![76u8, 65u8, 67u8],
            Team::LAR => seq![76u8, 65u8, 82u8],
            Team::MIA => seq![77u8, 73u8, 65u8],
            Team::MIN => seq![77u8, 73u8, 78u8],
            Team::NE => seq![78u8, 69u8],
            Team::NO => seq![78u8, 79u8],
            Team::NYG => seq![78u8, 89u8, 71u8],
            Team::NYJ => seq![78u8, 89u8, 74u8],
            Team::PHI => seq![80u8, 72u8, 73u8],
            Team::PIT => seq![80u8, 73u8, 84u8],
            Team::SF => seq![83u8, 70u8],
            Team::SEA => seq![83u8, 69u8, 65u8],
            Team::TB => seq![84u8, 66u8],
            Team::TEN => seq![84u8, 69u8, 78u8],
            Team::WAS => seq![87u8, 65u8, 83u8],
            Team::FA => seq![70u8, 65u8],
        }
    }

    /// The team read from page text, as written there.
    pub open spec fn spec_from_code(s: Seq<u8>) -> Option<Team> {
        if s == seq![65u8, 82u8, 73u8] {
            Option::Some(Team::ARI)
        } else if s == seq![65u8, 84u8, 76u8] {
            Option::Some(Team::ATL)
        } else if s == seq![66u8, 65u8, 76u8] {
            Option::Some(Team::BAL)
        } else if s == seq![66u8, 85u8, 70u8] {
            Option::Some(Team::BUF)
        } else if s == seq![67u8, 65u8, 82u8] {
            Option::Some(Team::CAR)
        } else if s == seq![67u8, 72u8, 73u8] {
            Option::Some(Team::CHI)
        } else if s == seq![67u8, 73u8, 78u8] {
            Option::Some(Team::CIN)
        } else if s == seq![67u8, 76u8, 69u8] {
            Option::Some(Team::CLE)
        } else if s == seq![68u8, 65u8, 76u8] {
            Option::Some(Team::DAL)
        } else if s == seq![68u8, 69u8, 78u8] {
            Option::Some(Team::DEN)
        } else if s == seq![68u8, 69u8, 84u8] {
            Option::Some(Team::DET)
        } else if s == seq![71u8, 66u8] {
            Option::Some(Team::GB)
        } else if s == seq![72u8, 79u8, 85u8] {
            Option::Some(Team::HOU)
        } else if s == seq![73u8, 78u8, 68u8] {
            Option::Some(Team::IND)
        } else if s == seq![74u8, 65u8, 67u8] {
            Option::Some(Team::JAC)
        } else if s == seq![75u8, 67u8] {
            Option::Some(Team::KC)
        } else if s == seq![76u8, 86u8] {
            Option::Some(Team::LV)
        } else if s == seq![76u8, 65u8, 67u8] {
            Option::Some(Team::LAC)
        } else if s == seq![76u8, 65u8, 82u8] {
            Option::Some(Team::LAR)
        } else if s == seq![77u8, 73u8, 65u8] {
            Option::Some(Team::MIA)
        } else if s == seq![77u8, 73u8, 78u8] {
            Option::Some(Team::MIN)
        } else if s == seq![78u8, 69u8] {
            Option::Some(Team::NE)
        } else if s == seq![78u8, 79u8] {
            Option::Some(Team::NO)
        } else if s == seq![78u8, 89u8, 71u8] {
            Option::Some(Team::NYG)
        } else if s == seq![78u8, 89u8, 74u8] {
            Option::Some(Team::NYJ)
        } else if s == seq![80u8, 72u8, 73u8] {
            Option::Some(Team::PHI)
        } else if s == seq![80u8, 73u8, 84u8] {
            Option::Some(Team::PIT)
        } else if s == seq![83u8, 70u8] {
            Option::Some(Team::SF)
        } else if s == seq![83u8, 69u8, 65u8] {
            Option::Some(Team::SEA)
        } else if s == seq![84u8, 66u8] {
            Option::Some(Team::TB)
        } else if s == seq![84u8, 69u8, 78u8] {
            Option::Some(Team::TEN)
        } else if s == seq![87u8, 65u8, 83u8] {
            Option::Some(Team::WAS)
        } else if s == seq![70u8, 65u8] {
            Option::Some(Team::FA)
        } else {
            Option::None
        }
    }

    pub fn from_code(s: &[u8]) -> (r: Option<Team>)
        ensures
            r == Team::spec_from_code(s@),
    {
        let c_ari: [u8; 3] = [65u8, 82u8, 73u8];
        assert(c_ari@ =~= seq![65u8, 82u8, 73u8]);
        if bytes_eq(s, c_ari.as_slice()) {
            return Option::Some(Team::ARI);
        }
        let c_atl: [u8; 3] = [65u8, 84u8, 76u8];
        assert(c_atl@ =~= seq![65u8, 84u8, 76u8]);
        if bytes_eq(s, c_atl.as_slice()) {
            return Option::Some(Team::ATL);
        }
        let c_bal: [u8; 3] = [66u8, 65u8, 76u8];
        assert(c_bal@ =~= seq![66u8, 65u8, 76u8]);
        if bytes_eq(s, c_bal.as_slice()) {
            return Option::Some(Team::BAL);
        }
        let c_buf: [u8; 3] = [66u8, 85u8, 70u8];
        assert(c_buf@ =~= seq![66u8, 85u8, 70u8]);
        if bytes_eq(s, c_buf.as_slice()) {
            return Option::Some(Team::BUF);
        }
        let c_car: [u8; 3] = [67u8, 65u8, 82u8];
        assert(c_car@ =~= seq![67u8, 65u8, 82u8]);
        if bytes_eq(s, c_car.as_slice()) {
            return Option::Some(Team::CAR);
        }
        let c_chi: [u8; 3] = [67u8, 72u8, 73u8];
        assert(c_chi@ =~= seq![67u8, 72u8, 73u8]);
        if bytes_eq(s, c_chi.as_slice()) {
            return Option::Some(Team::CHI);
        }
        let c_cin: [u8; 3] = [67u8, 73u8, 78u8];
        assert(c_cin@ =~= seq![67u8, 73u8, 78u8]);
        if bytes_eq(s, c_cin.as_slice()) {
            return Option::Some(Team::CIN);
        }
        let c_cle: [u8; 3] = [67u8, 76u8, 69u8];
        assert(c_cle@ =~= seq![67u8, 76u8, 69u8]);
        if bytes_eq(s, c_cle.as_slice()) {
            return Option::Some(Team::CLE);
        }
        let c_dal: [u8; 3] = [68u8, 65u8, 76u8];
        assert(c_dal@ =~= seq![68u8, 65u8, 76u8]);
        if bytes_eq(s, c_dal.as_slice()) {
            return Option::Some(Team::DAL);
        }
        let c_den: [u8; 3] = [68u8, 69u8, 78u8];
        assert(c_den@ =~= seq![68u8, 69u8, 78u8]);
        if bytes_eq(s, c_den.as_slice()) {
            return Option::Some(Team::DEN);
        }
        let c_det: [u8; 3] = [68u8, 69u8, 84u8];
        assert(c_det@ =~= seq![68u8, 69u8, 84u8]);
        if bytes_eq(s, c_det.as_slice()) {
            return Option::Some(Team::DET);
        }
        let c_gb: [u8; 2] = [71u8, 66u8];
        assert(c_gb@ =~= seq![71u8, 66u8]);
        if bytes_eq(s, c_gb.as_slice()) {
            return Option::Some(Team::GB);
        }
        let c_hou: [u8; 3] = [72u8, 79u8, 85u8];
        assert(c_hou@ =~= seq![72u8, 79u8, 85u8]);
        if bytes_eq(s, c_hou.as_slice()) {
            return Option::Some(Team::HOU);
        }
        let c_ind: [u8; 3] = [73u8, 78u8, 68u8];
        assert(c_ind@ =~= seq![73u8, 78u8, 68u8]);
        if bytes_eq(s, c_ind.as_slice()) {
            return Option::Some(Team::IND);
        }
        let c_jac: [u8; 3] = [74u8, 65u8, 67u8];
        assert(c_jac@ =~= seq![74u8, 65u8, 67u8]);
        if bytes_eq(s, c_jac.as_slice()) {
            return Option::Some(Team::JAC);
        }
        let c_kc: [u8; 2] = [75u8, 67u8];
        assert(c_kc@ =~= seq![75u8, 67u8]);
        if bytes_eq(s, c_kc.as_slice()) {
            return Option::Some(Team::KC);
        }
        let c_lv: [u8; 2] = [76u8, 86u8];
        assert(c_lv@ =~= seq![76u8, 86u8]);
        if bytes_eq(s, c_lv.as_slice()) {
            return Option::Some(Team::LV);
        }
        let c_lac: [u8; 3] = [76u8, 65u8, 67u8];
        assert(c_lac@ =~= seq![76u8, 65u8, 67u8]);
        if bytes_eq(s, c_lac.as_slice()) {
            return Option::Some(Team::LAC);
        }
        let c_lar: [u8; 3] = [76u8, 65u8, 82u8];
        assert(c_lar@ =~= seq![76u8, 65u8, 82u8]);
        if bytes_eq(s, c_lar.as_slice()) {
            return Option::Some(Team::LAR);
        }
        let c_mia: [u8; 3] = [77u8, 73u8, 65u8];
        assert(c_mia@ =~= seq![77u8, 73u8, 65u8]);
        if bytes_eq(s, c_mia.as_slice()) {
            return Option::Some(Team::MIA);
        }
        let c_min: [u8; 3] = [77u8, 73u8, 78u8];
        assert(c_min@ =~= seq![77u8, 73u8, 78u8]);
        if bytes_eq(s, c_min.as_slice()) {
            return Option::Some(Team::MIN);
        }
        let c_ne: [u8; 2] = [78u8, 69u8];
        assert(c_ne@ =~= seq![78u8, 69u8]);
        if bytes_eq(s, c_ne.as_slice()) {
            return Option::Some(Team::NE);
        }
        let c_no: [u8; 2] = [78u8, 79u8];
        assert(c_no@ =~= seq![78u8, 79u8]);
        if bytes_eq(s, c_no.as_slice()) {
            return Option::Some(Team::NO);
        }
        let c_nyg: [u8; 3] = [78u8, 89u8, 71u8];
        assert(c_nyg@ =~= seq![78u8, 89u8, 71u8]);
        if bytes_eq(s, c_nyg.as_slice()) {
            return Option::Some(Team::NYG);
        }
        let c_nyj: [u8; 3] = [78u8, 89u8, 74u8];
        assert(c_nyj@ =~= seq![78u8, 89u8, 74u8]);
        if bytes_eq(s, c_nyj.as_slice()) {
            return Option::Some(Team::NYJ);
        }
        let c_phi: [u8; 3] = [80u8, 72u8, 73u8];
        assert(c_phi@ =~= seq![80u8, 72u8, 73u8]);
        if bytes_eq(s, c_phi.as_slice()) {
            return Option::Some(Team::PHI);
        }
        let c_pit: [u8; 3] = [80u8, 73u8, 84u8];
        assert(c_pit@ =~= seq![80u8, 73u8, 84u8]);
        if bytes_eq(s, c_pit.as_slice()) {
            return Option::Some(Team::PIT);
        }
        let c_sf: [u8; 2] = [83u8, 70u8];
        assert(c_sf@ =~= seq![83u8, 70u8]);
        if bytes_eq(s, c_sf.as_slice()) {
            return Option::Some(Team::SF);
        }
        let c_sea: [u8; 3] = [83u8, 69u8, 65u8];
        assert(c_sea@ =~= seq![83u8, 69u8, 65u8]);
        if bytes_eq(s, c_sea.as_slice()) {
            return Option::Some(Team::SEA);
        }
        let c_tb: [u8; 2] = [84u8, 66u8];
        assert(c_tb@ =~= seq![84u8, 66u8]);
        if bytes_eq(s, c_tb.as_slice()) {
            return Option::Some(Team::TB);
        }
        let c_ten: [u8; 3] = [84u8, 69u8, 78u8];
        assert(c_ten@ =~= seq![84u8, 69u8, 78u8]);
        if bytes_eq(s, c_ten.as_slice()) {
            return Option::Some(Team::TEN);
        }
        let c_was: [u8; 3] = [87u8, 65u8, 83u8];
        assert(c_was@ =~= seq![87u8, 65u8, 83u8]);
        if bytes_eq(s, c_was.as_slice()) {
            return Option::Some(Team::WAS);
        }
        let c_fa: [u8; 2] = [70u8, 65u8];
        assert(c_fa@ =~= seq![70u8, 65u8]);
        if bytes_eq(s, c_fa.as_slice()) {
            return Option::Some(Team::FA);
        }
        Option::None
    }

    /// The letters of this team code, as page text and printouts write it.
    pub fn code(self) -> (r: Vec<u8>)
        ensures
            r@ == self.spec_code(),
    {
        let mut v: Vec<u8> = Vec::new();
        match self {
            Team::ARI => { v.push(65u8); v.push(82u8); v.push(73u8); },
            Team::ATL => { v.push(65u8); v.push(84u8); v.push(76u8); },
            Team::BAL => { v.push(66u8); v.push(65u8); v.push(76u8); },
            Team::BUF => { v.push(66u8); v.push(85u8); v.push(70u8); },
            Team::CAR => { v.push(67u8); v.push(65u8); v.push(82u8); },
            Team::CHI => { v.push(67u8); v.push(72u8); v.push(73u8); },
            Team::CIN => { v.push(67u8); v.push(73u8); v.push(78u8); },
            Team::CLE => { v.push(67u8); v.push(76u8); v.push(69u8); },
            Team::DAL => { v.push(68u8); v.push(65u8); v.push(76u8); },
            Team::DEN => { v.push(68u8); v.push(69u8); v.push(78u8); },
            Team::DET => { v.push(68u8); v.push(69u8); v.push(84u8); },
            Team::GB => { v.push(71u8); v.push(66u8); },
            Team::HOU => { v.push(72u8); v.push(79u8); v.push(85u8); },
            Team::IND => { v.push(73u8); v.push(78u8); v.push(68u8); },
            Team::JAC => { v.push(74u8); v.push(65u8); v.push(67u8); },
            Team::KC => { v.push(75u8); v.push(67u8); },
            Team::LV => { v.push(76u8); v.push(86u8); },
            Team::LAC => { v.push(76u8); v.push(65u8); v.push(67u8); },
            Team::LAR => { v.push(76u8); v.push(65u8); v.push(82u8); },
            Team::MIA => { v.push(77u8); v.push(73u8); v.push(65u8); },
            Team::MIN => { v.push(77u8); v.push(73u8); v.push(78u8); },
            Team::NE => { v.push(78u8); v.push(69u8); },
            Team::NO => { v.push(78u8); v.push(79u8); },
            Team::NYG => { v.push(78u8); v.push(89u8); v.push(71u8); },
            Team::NYJ => { v.push(78u8); v.push(89u8); v.push(74u8); },
            Team::PHI => { v.push(80u8); v.push(72u8); v.push(73u8); },
            Team::PIT => { v.push(80u8); v.push(73u8); v.push(84u8); },
            Team::SF => { v.push(83u8); v.push(70u8); },
            Team::SEA => { v.push(83u8); v.push(69u8); v.push(65u8); },
            Team::TB => { v.push(84u8); v.push(66u8); },
            Team::TEN => { v.push(84u8); v.push(69u8); v.push(78u8); },
            Team::WAS => { v.push(87u8); v.push(65u8); v.push(83u8); },
            Team::FA => { v.push(70u8); v.push(65u8); },
        }
        assert(v@ =~= self.spec_code());
        v
    }
}

/// What one ranking row says about who a player is. The id is the stable
/// join key for every other entity of a run.
#[derive(Debug, Clone, PartialEq, Eq)]
pub struct PlayerIdentity {
    pub id: i32,
    pub bio_url: Vec<u8>,
    pub name: Vec<u8>,
    pub team: Team,
}

/// Physical and biographical attributes read from a player's detail page.
#[derive(Debug, Clone, PartialEq, Eq)]
pub struct PlayerBio {
    pub height: Vec<u8>,
    pub weight: Vec<u8>,
    pub age: Option<i32>,
    pub college: Vec<u8>,
    pub bye_week: Option<i32>,
}

/// One unit of enrichment work: fetch and parse one player's detail page.
#[derive(Debug, Clone, PartialEq, Eq)]
pub struct PlayerTask {
    pub identity: PlayerIdentity,
    pub position: Position,
}

/// The assembled player record that a run publishes.
#[derive(Debug, Clone, PartialEq, Eq)]
pub struct Player {
    pub id: i32,
    pub name: Vec<u8>,
    pub position: Position,
    pub team: Team,
    pub bye_week: Option<i32>,
    pub height: Vec<u8>,
    pub weight: Vec<u8>,
    pub age: Option<i32>,
    pub college: Vec<u8>,
}

/// Filters that the query surface passes when listing players.
#[derive(Debug, Clone)]
pub struct PlayerQueryParameters {
    pub position: Option<Position>,
    pub team: Option<Team>,
    pub name: Option<Vec<u8>>,
}

/// A 32-bit integer read from page text, `None` when the text is not one.
pub open spec fn spec_parse_i32(s: Seq<u8>) -> Option<i32> {
    match spec_parse_int(s) {
        Option::Some(v) => if -0x8000_0000 <= v <= 0x7fff_ffff {
            Option::Some(v as i32)
        } else {
            Option::None
        },
        Option::None => Option::None,
    }
}

pub fn parse_i32(s: &[u8]) -> (r: Option<i32>)
    ensures
        r == spec_parse_i32(s@),
{
    match crate::num::parse_int(s) {
        Option::Some(v) => if -0x8000_0000i64 <= v && v <= 0x7fff_ffffi64 {
            Option::Some(v as i32)
        } else {
            Option::None
        },
        Option::None => Option::None,
    }
}

} // verus!
