//! Live game data for a small e-ink display: decoding of the scoreboard,
//! box-score and play-by-play documents, classification of plays, per-category
//! leaders, game phase, and fixed-width text layout.
use vstd::prelude::*;

pub mod text;
pub mod json;
pub mod datetime;
pub mod action;
pub mod box_score;
pub mod render;
pub mod change;
pub mod schedule;
pub mod display;

pub use crate::schedule::{Scoreboard, Today};

use crate::json::{Json, deref_opt};
use crate::datetime::{UtcInstant, instant_of, parse_instant};
use crate::text::{decimal, push_decimal, push_str, str_eq};

verus! {

/// A value that arrives either as a JSON string or as a JSON number.
#[derive(Debug, Clone, PartialEq)]
pub enum StringOrNumber {
    String(String),
    Number(u32),
}

/// The mathematical content of a `StringOrNumber`.
pub ghost enum ScalarView {
    Text(Seq<char>),
    Number(u32),
}

impl ScalarView {
    /// The text the value displays as.
    pub open spec fn text(self) -> Seq<char> {
        match self {
            ScalarView::Text(s) => s,
            ScalarView::Number(n) => decimal(n as nat),
        }
    }
}

impl View for StringOrNumber {
    type V = ScalarView;

    open spec fn view(&self) -> ScalarView {
        match self {
            StringOrNumber::String(s) => ScalarView::Text(s@),
            StringOrNumber::Number(n) => ScalarView::Number(*n),
        }
    }
}

/// A string, or an integer that fits `u32`.
pub open spec fn scalar_of(j: Json) -> Option<ScalarView> {
    match j {
        Json::Str(s) => Some(ScalarView::Text(s@)),
        Json::UInt(u) => if u <= u32::MAX {
            Some(ScalarView::Number(u as u32))
        } else {
            None
        },
        _ => None,
    }
}

pub open spec fn u8_of(j: Json) -> Option<u8> {
    match j {
        Json::UInt(u) => if u <= u8::MAX {
            Some(u as u8)
        } else {
            None
        },
        _ => None,
    }
}

pub open spec fn i8_of(j: Json) -> Option<i8> {
    match j {
        Json::UInt(u) => if u <= i8::MAX {
            Some(u as i8)
        } else {
            None
        },
        Json::Int(i) => if i8::MIN <= i <= i8::MAX {
            Some(i as i8)
        } else {
            None
        },
        _ => None,
    }
}

pub open spec fn bool_of(j: Json) -> Option<bool> {
    match j {
        Json::Bool(b) => Some(b),
        _ => None,
    }
}

/// An optional member: absent and `null` read as nothing.
pub open spec fn present(v: Option<Json>) -> Option<Json> {
    match v {
        Some(Json::Null) => None,
        other => other,
    }
}

pub open spec fn scalar_opt_view(v: Option<StringOrNumber>) -> Option<ScalarView> {
    match v {
        Some(s) => Some(s@),
        None => None,
    }
}

pub open spec fn string_opt_view(v: Option<String>) -> Option<Seq<char>> {
    match v {
        Some(s) => Some(s@),
        None => None,
    }
}

fn decode_u8(j: &Json) -> (r: Option<u8>)
    ensures
        r == u8_of(*j),
{
    match j {
        Json::UInt(u) => if *u <= 255 {
            Some(*u as u8)
        } else {
            None
        },
        _ => None,
    }
}

fn decode_i8(j: &Json) -> (r: Option<i8>)
    ensures
        r == i8_of(*j),
{
    match j {
        Json::UInt(u) => if *u <= 127 {
            Some(*u as i8)
        } else {
            None
        },
        Json::Int(i) => if -128 <= *i && *i <= 127 {
            Some(*i as i8)
        } else {
            None
        },
        _ => None,
    }
}

fn decode_bool(j: &Json) -> (r: Option<bool>)
    ensures
        r == bool_of(*j),
{
    match j {
        Json::Bool(b) => Some(*b),
        _ => None,
    }
}

fn decode_string(j: &Json) -> (r: Option<String>)
    ensures
        string_opt_view(r) == j.str_of(),
{
    match j {
        Json::Str(s) => Some(s.clone()),
        _ => None,
    }
}

fn present_ref(v: Option<&Json>) -> (r: Option<&Json>)
    ensures
        deref_opt(r) == present(deref_opt(v)),
{
    match v {
        Some(Json::Null) => None,
        other => other,
    }
}

impl StringOrNumber {
    /// Decodes a JSON string or an integer that fits `u32`.
    pub fn from_json(j: &Json) -> (r: Option<StringOrNumber>)
        ensures
            scalar_opt_view(r) == scalar_of(*j),
    {
        match j {
            Json::Str(s) => Some(StringOrNumber::String(s.clone())),
            Json::UInt(u) => if *u <= 4294967295 {
                Some(StringOrNumber::Number(*u as u32))
            } else {
                None
            },
            _ => None,
        }
    }

    /// The text the value displays as, whichever way it arrived.
    pub fn to_string(&self) -> (r: String)
        ensures
            r@ == self@.text(),
    {
        match self {
            StringOrNumber::String(s) => s.clone(),
            StringOrNumber::Number(n) => {
                let mut r = String::new();
                push_decimal(&mut r, *n as u64);
                r
            },
        }
    }

    /// Compares the displayed text with a plain string.
    pub fn eq_str(&self, other: &str) -> (r: bool)
        ensures
            r == (self@.text() == other@),
    {
        let t = self.to_string();
        str_eq(t.as_str(), other)
    }

    pub fn same(&self, other: &StringOrNumber) -> (r: bool)
        ensures
            r == (self@ == other@),
    {
        match (self, other) {
            (StringOrNumber::String(a), StringOrNumber::String(b)) => str_eq(a.as_str(), b.as_str()),
            (StringOrNumber::Number(a), StringOrNumber::Number(b)) => *a == *b,
            _ => false,
        }
    }
}

/// A rich period record.
#[derive(Debug, Clone, Copy, PartialEq, Eq, Structural)]
pub struct Period {
    pub current: u8,
    pub ty: u8,
    pub is_halftime: bool,
    pub is_end_of_period: bool,
}

/// The period of a game: a rich record or a bare number.
#[derive(Debug, Clone, Copy, PartialEq, Eq, Structural)]
pub enum PeriodOrNumber {
    Period(Period),
    Number(u8),
}

pub open spec fn period_of(j: Json) -> Option<Period> {
    let current = j.field("current"@);
    let ty = j.field("type"@);
    let half = j.field("isHalftime"@);
    let end = j.field("isEndOfPeriod"@);
    if current is Some && u8_of(current.unwrap()) is Some && ty is Some && u8_of(ty.unwrap()) is Some
        && half is Some && bool_of(half.unwrap()) is Some && end is Some && bool_of(
        end.unwrap(),
    ) is Some {
        Some(
            Period {
                current: u8_of(current.unwrap()).unwrap(),
                ty: u8_of(ty.unwrap()).unwrap(),
                is_halftime: bool_of(half.unwrap()).unwrap(),
                is_end_of_period: bool_of(end.unwrap()).unwrap(),
            },
        )
    } else {
        None
    }
}

/// A period record if the value reads as one, else a bare number.
pub open spec fn period_or_number_of(j: Json) -> Option<PeriodOrNumber> {
    match period_of(j) {
        Some(p) => Some(PeriodOrNumber::Period(p)),
        None => match u8_of(j) {
            Some(n) => Some(PeriodOrNumber::Number(n)),
            None => None,
        },
    }
}

impl Period {
    pub fn from_json(j: &Json) -> (r: Option<Period>)
        ensures
            r == period_of(*j),
    {
        let current = decode_u8(j.get("current")?)?;
        let ty = decode_u8(j.get("type")?)?;
        let is_halftime = decode_bool(j.get("isHalftime")?)?;
        let is_end_of_period = decode_bool(j.get("isEndOfPeriod")?)?;
        Some(Period { current, ty, is_halftime, is_end_of_period })
    }
}

impl PeriodOrNumber {
    pub fn from_json(j: &Json) -> (r: Option<PeriodOrNumber>)
        ensures
            r == period_or_number_of(*j),
    {
        match Period::from_json(j) {
            Some(p) => Some(PeriodOrNumber::Period(p)),
            None => match decode_u8(j) {
                Some(n) => Some(PeriodOrNumber::Number(n)),
                None => None,
            },
        }
    }

    pub open spec fn as_number_spec(self) -> u8 {
        match self {
            PeriodOrNumber::Period(p) => p.current,
            PeriodOrNumber::Number(n) => n,
        }
    }

    /// The period number, whichever form it came in.
    pub fn as_number(&self) -> (r: u8)
        ensures
            r == self.as_number_spec(),
    {
        match self {
            PeriodOrNumber::Period(inner) => inner.current,
            PeriodOrNumber::Number(inner) => *inner,
        }
    }
}

/// An optional string member: nothing if absent or `null`, else it must be a string.
pub open spec fn opt_str_ok(v: Option<Json>) -> bool {
    present(v) is None || present(v).unwrap().str_of() is Some
}

pub open spec fn opt_str_val(v: Option<Json>) -> Option<Seq<char>> {
    match present(v) {
        Some(x) => x.str_of(),
        None => None,
    }
}

/// A string member with a default: empty if absent, else it must be a string.
pub open spec fn dflt_str_ok(v: Option<Json>) -> bool {
    v is None || v.unwrap().str_of() is Some
}

pub open spec fn dflt_str_val(v: Option<Json>) -> Seq<char> {
    match v {
        Some(x) => x.str_of().unwrap(),
        None => Seq::empty(),
    }
}

/// A `u8` member with a default: zero if absent, else it must fit `u8`.
pub open spec fn dflt_u8_ok(v: Option<Json>) -> bool {
    v is None || u8_of(v.unwrap()) is Some
}

pub open spec fn dflt_u8_val(v: Option<Json>) -> u8 {
    match v {
        Some(x) => u8_of(x).unwrap(),
        None => 0,
    }
}

pub open spec fn req_scalar_ok(v: Option<Json>) -> bool {
    v is Some && scalar_of(v.unwrap()) is Some
}

pub open spec fn req_str_ok(v: Option<Json>) -> bool {
    v is Some && v.unwrap().str_of() is Some
}

fn decode_opt_string(v: Option<&Json>) -> (r: Option<Option<String>>)
    ensures
        r is Some <==> opt_str_ok(deref_opt(v)),
        r matches Some(o) ==> string_opt_view(o) == opt_str_val(deref_opt(v)),
{
    match present_ref(v) {
        None => Some(None),
        Some(x) => match decode_string(x) {
            Some(s) => Some(Some(s)),
            None => None,
        },
    }
}

fn decode_dflt_string(v: Option<&Json>) -> (r: Option<String>)
    ensures
        r is Some <==> dflt_str_ok(deref_opt(v)),
        r matches Some(s) ==> s@ == dflt_str_val(deref_opt(v)),
{
    match v {
        None => Some(String::new()),
        Some(x) => decode_string(x),
    }
}

fn decode_dflt_u8(v: Option<&Json>) -> (r: Option<u8>)
    ensures
        r is Some <==> dflt_u8_ok(deref_opt(v)),
        r matches Some(n) ==> n == dflt_u8_val(deref_opt(v)),
{
    match v {
        None => Some(0),
        Some(x) => decode_u8(x),
    }
}

/// The score of one period.
#[derive(Debug, Clone, PartialEq)]
pub struct LineScore {
    pub score: StringOrNumber,
}

impl View for LineScore {
    type V = ScalarView;

    open spec fn view(&self) -> ScalarView {
        self.score@
    }
}

/// An array of period records, each with a `score`.
pub open spec fn line_scores_of(j: Json) -> Option<Seq<ScalarView>> {
    match j {
        Json::Array(items) => if forall|i: int|
            0 <= i < items@.len() ==> req_scalar_ok(#[trigger] items@[i].field("score"@)) {
            Some(
                Seq::new(
                    items@.len(),
                    |i: int| scalar_of(items@[i].field("score"@).unwrap()).unwrap(),
                ),
            )
        } else {
            None
        },
        _ => None,
    }
}

pub open spec fn line_scores_view(v: Seq<LineScore>) -> Seq<ScalarView> {
    v.map_values(|l: LineScore| l@)
}

fn decode_line_scores(j: &Json) -> (r: Option<Vec<LineScore>>)
    ensures
        r is Some <==> line_scores_of(*j) is Some,
        r matches Some(v) ==> line_scores_view(v@) == line_scores_of(*j).unwrap(),
{
    match j {
        Json::Array(items) => {
            let mut out: Vec<LineScore> = Vec::new();
            let mut i: usize = 0;
            while i < items.len()
                invariant
                    *j == Json::Array(*items),
                    i <= items@.len(),
                    out@.len() == i,
                    forall|k: int| 0 <= k < i ==> req_scalar_ok(#[trigger] items@[k].field("score"@)),
                    forall|k: int|
                        0 <= k < i ==> (#[trigger] out@[k])@ == scalar_of(
                            items@[k].field("score"@).unwrap(),
                        ).unwrap(),
                decreases items@.len() - i,
            {
                let score = match items[i].get("score") {
                    Some(x) => StringOrNumber::from_json(x),
                    None => None,
                };
                match score {
                    Some(score) => out.push(LineScore { score }),
                    None => {
                        assert(!req_scalar_ok(items@[i as int].field("score"@)));
                        return None;
                    },
                }
                i = i + 1;
            }
            assert(line_scores_view(out@) =~= line_scores_of(*j).unwrap());
            Some(out)
        },
        _ => None,
    }
}

/// One team in a scoreboard entry.
#[derive(Debug, Clone, PartialEq)]
pub struct Team {
    pub id: StringOrNumber,
    pub team_name: Option<String>,
    pub team_city: Option<String>,
    pub tri_code: String,
    pub win: StringOrNumber,
    pub loss: StringOrNumber,
    pub score: StringOrNumber,
    pub in_bonus: Option<StringOrNumber>,
    pub timeouts_remaining: Option<i8>,
    pub periods: Vec<LineScore>,
}

pub ghost struct TeamView {
    pub id: ScalarView,
    pub team_name: Option<Seq<char>>,
    pub team_city: Option<Seq<char>>,
    pub tri_code: Seq<char>,
    pub win: ScalarView,
    pub loss: ScalarView,
    pub score: ScalarView,
    pub in_bonus: Option<ScalarView>,
    pub timeouts_remaining: Option<i8>,
    pub periods: Seq<ScalarView>,
}

impl View for Team {
    type V = TeamView;

    open spec fn view(&self) -> TeamView {
        TeamView {
            id: self.id@,
            team_name: string_opt_view(self.team_name),
            team_city: string_opt_view(self.team_city),
            tri_code: self.tri_code@,
            win: self.win@,
            loss: self.loss@,
            score: self.score@,
            in_bonus: scalar_opt_view(self.in_bonus),
            timeouts_remaining: self.timeouts_remaining,
            periods: line_scores_view(self.periods@),
        }
    }
}

pub open spec fn team_opt_view(t: Option<Team>) -> Option<TeamView> {
    match t {
        Some(t) => Some(t@),
        None => None,
    }
}

/// A team member under any of its names, with the optional ones allowed to
/// be absent.
pub open spec fn team_of(j: Json) -> Option<TeamView> {
    let id = j.field_any(seq!["id"@, "teamId"@]);
    let name = j.field("teamName"@);
    let city = j.field("teamCity"@);
    let tri = j.field_any(seq!["triCode"@, "teamTricode"@]);
    let win = j.field_any(seq!["win"@, "wins"@]);
    let loss = j.field_any(seq!["loss"@, "losses"@]);
    let score = j.field("score"@);
    let bonus = present(j.field("inBonus"@));
    let timeouts = present(j.field("timeoutsRemaining"@));
    let periods = j.field_any(seq!["periods"@, "linescore"@]);
    if req_scalar_ok(id) && opt_str_ok(name) && opt_str_ok(city) && req_str_ok(tri) && req_scalar_ok(
        win,
    ) && req_scalar_ok(loss) && req_scalar_ok(score) && (bonus is None || scalar_of(
        bonus.unwrap(),
    ) is Some) && (timeouts is None || i8_of(timeouts.unwrap()) is Some) && periods is Some
        && line_scores_of(periods.unwrap()) is Some {
        Some(
            TeamView {
                id: scalar_of(id.unwrap()).unwrap(),
                team_name: opt_str_val(name),
                team_city: opt_str_val(city),
                tri_code: tri.unwrap().str_of().unwrap(),
                win: scalar_of(win.unwrap()).unwrap(),
                loss: scalar_of(loss.unwrap()).unwrap(),
                score: scalar_of(score.unwrap()).unwrap(),
                in_bonus: match bonus {
                    Some(b) => scalar_of(b),
                    None => None,
                },
                timeouts_remaining: match timeouts {
                    Some(t) => i8_of(t),
                    None => None,
                },
                periods: line_scores_of(periods.unwrap()).unwrap(),
            },
        )
    } else {
        None
    }
}

impl Team {
    pub fn from_json(j: &Json) -> (r: Option<Team>)
        ensures
            team_opt_view(r) == team_of(*j),
    {
        let id = StringOrNumber::from_json(j.get2("id", "teamId")?)?;
        let team_name = decode_opt_string(j.get("teamName"))?;
        let team_city = decode_opt_string(j.get("teamCity"))?;
        let tri_code = decode_string(j.get2("triCode", "teamTricode")?)?;
        let win = StringOrNumber::from_json(j.get2("win", "wins")?)?;
        let loss = StringOrNumber::from_json(j.get2("loss", "losses")?)?;
        let score = StringOrNumber::from_json(j.get("score")?)?;
        let in_bonus = match present_ref(j.get("inBonus")) {
            Some(b) => Some(StringOrNumber::from_json(b)?),
            None => None,
        };
        let timeouts_remaining = match present_ref(j.get("timeoutsRemaining")) {
            Some(t) => Some(decode_i8(t)?),
            None => None,
        };
        let periods = decode_line_scores(j.get2("periods", "linescore")?)?;
        Some(
            Team {
                id,
                team_name,
                team_city,
                tri_code,
                win,
                loss,
                score,
                in_bonus,
                timeouts_remaining,
                periods,
            },
        )
    }
}

/// A game's leading player for one team.
#[derive(Debug, Clone, PartialEq)]
pub struct GameLeader {
    pub id: StringOrNumber,
    pub name: String,
    pub number: String,
    pub position: String,
    pub player_slug: Option<String>,
    pub points: u8,
    pub rebounds: u8,
    pub assists: u8,
}

pub ghost struct GameLeaderView {
    pub id: ScalarView,
    pub name: Seq<char>,
    pub number: Seq<char>,
    pub position: Seq<char>,
    pub player_slug: Option<Seq<char>>,
    pub points: u8,
    pub rebounds: u8,
    pub assists: u8,
}

impl View for GameLeader {
    type V = GameLeaderView;

    open spec fn view(&self) -> GameLeaderView {
        GameLeaderView {
            id: self.id@,
            name: self.name@,
            number: self.number@,
            position: self.position@,
            player_slug: string_opt_view(self.player_slug),
            points: self.points,
            rebounds: self.rebounds,
            assists: self.assists,
        }
    }
}

pub open spec fn leader_of(j: Json) -> Option<GameLeaderView> {
    let id = j.field_any(seq!["id"@, "personId"@]);
    let name = j.field("name"@);
    let number = j.field_any(seq!["number"@, "jerseyNum"@]);
    let position = j.field("position"@);
    let slug = j.field("playerSlug"@);
    let points = j.field("points"@);
    let rebounds = j.field("rebounds"@);
    let assists = j.field("assists"@);
    if req_scalar_ok(id) && dflt_str_ok(name) && dflt_str_ok(number) && dflt_str_ok(position)
        && opt_str_ok(slug) && dflt_u8_ok(points) && dflt_u8_ok(rebounds) && dflt_u8_ok(assists) {
        Some(
            GameLeaderView {
                id: scalar_of(id.unwrap()).unwrap(),
                name: dflt_str_val(name),
                number: dflt_str_val(number),
                position: dflt_str_val(position),
                player_slug: opt_str_val(slug),
                points: dflt_u8_val(points),
                rebounds: dflt_u8_val(rebounds),
                assists: dflt_u8_val(assists),
            },
        )
    } else {
        None
    }
}

impl GameLeader {
    pub fn from_json(j: &Json) -> (r: Option<GameLeader>)
        ensures
            r is Some <==> leader_of(*j) is Some,
            r matches Some(l) ==> leader_of(*j) == Some(l@),
    {
        let id = StringOrNumber::from_json(j.get2("id", "personId")?)?;
        let name = decode_dflt_string(j.get("name"))?;
        let number = decode_dflt_string(j.get2("number", "jerseyNum"))?;
        let position = decode_dflt_string(j.get("position"))?;
        let player_slug = decode_opt_string(j.get("playerSlug"))?;
        let points = decode_dflt_u8(j.get("points"))?;
        let rebounds = decode_dflt_u8(j.get("rebounds"))?;
        let assists = decode_dflt_u8(j.get("assists"))?;
        Some(GameLeader { id, name, number, position, player_slug, points, rebounds, assists })
    }
}

/// The leading players of both teams.
#[derive(Debug, Clone, PartialEq)]
pub struct GameLeaders {
    pub home_leaders: GameLeader,
    pub away_leaders: GameLeader,
}

pub ghost struct GameLeadersView {
    pub home_leaders: GameLeaderView,
    pub away_leaders: GameLeaderView,
}

impl View for GameLeaders {
    type V = GameLeadersView;

    open spec fn view(&self) -> GameLeadersView {
        GameLeadersView { home_leaders: self.home_leaders@, away_leaders: self.away_leaders@ }
    }
}

pub open spec fn leaders_of(j: Json) -> Option<GameLeadersView> {
    let home = j.field("homeLeaders"@);
    let away = j.field("awayLeaders"@);
    if home is Some && leader_of(home.unwrap()) is Some && away is Some && leader_of(away.unwrap()) is Some {
        Some(
            GameLeadersView {
                home_leaders: leader_of(home.unwrap()).unwrap(),
                away_leaders: leader_of(away.unwrap()).unwrap(),
            },
        )
    } else {
        None
    }
}

impl GameLeaders {
    pub fn from_json(j: &Json) -> (r: Option<GameLeaders>)
        ensures
            r is Some <==> leaders_of(*j) is Some,
            r matches Some(l) ==> leaders_of(*j) == Some(l@),
    {
        let home_leaders = GameLeader::from_json(j.get("homeLeaders")?)?;
        let away_leaders = GameLeader::from_json(j.get("awayLeaders")?)?;
        Some(GameLeaders { home_leaders, away_leaders })
    }
}

/// The state of one game at the time of a poll.
#[derive(Debug, Clone, PartialEq)]
pub struct Game {
    pub id: StringOrNumber,
    pub start_time: UtcInstant,
    pub end_time: Option<UtcInstant>,
    pub clock: String,
    pub period: PeriodOrNumber,
    pub home: Team,
    pub away: Team,
    pub game_leaders: Option<GameLeaders>,
}

pub ghost struct GameView {
    pub id: ScalarView,
    pub start_time: UtcInstant,
    pub end_time: Option<UtcInstant>,
    pub clock: Seq<char>,
    pub period: PeriodOrNumber,
    pub home: TeamView,
    pub away: TeamView,
    pub game_leaders: Option<GameLeadersView>,
}

impl View for Game {
    type V = GameView;

    open spec fn view(&self) -> GameView {
        GameView {
            id: self.id@,
            start_time: self.start_time,
            end_time: self.end_time,
            clock: self.clock@,
            period: self.period,
            home: self.home@,
            away: self.away@,
            game_leaders: match self.game_leaders {
                Some(l) => Some(l@),
                None => None,
            },
        }
    }
}

pub open spec fn game_opt_view(g: Option<Game>) -> Option<GameView> {
    match g {
        Some(g) => Some(g@),
        None => None,
    }
}

/// A scoreboard entry under any of the names the endpoints use.
pub open spec fn game_of(j: Json) -> Option<GameView> {
    let id = j.field_any(seq!["id"@, "gameId"@]);
    let start = j.field_any(seq!["startTime"@, "startTimeUTC"@, "gameTimeUTC"@]);
    let end = present(j.field_any(seq!["endTime"@, "endTimeUTC"@]));
    let clock = j.field_any(seq!["clock"@, "gameClock"@]);
    let period = j.field("period"@);
    let home = j.field_any(seq!["home"@, "hTeam"@, "homeTeam"@]);
    let away = j.field_any(seq!["away"@, "vTeam"@, "awayTeam"@]);
    let leaders = present(j.field("gameLeaders"@));
    if req_scalar_ok(id) && req_str_ok(start) && instant_of(start.unwrap().str_of().unwrap()) is Some
        && (end is None || (end.unwrap().str_of() is Some && instant_of(
        end.unwrap().str_of().unwrap(),
    ) is Some)) && req_str_ok(clock) && period is Some && period_or_number_of(period.unwrap()) is Some
        && home is Some && team_of(home.unwrap()) is Some && away is Some && team_of(away.unwrap()) is Some
        && (leaders is None || leaders_of(leaders.unwrap()) is Some) {
        Some(
            GameView {
                id: scalar_of(id.unwrap()).unwrap(),
                start_time: instant_of(start.unwrap().str_of().unwrap()).unwrap(),
                end_time: match end {
                    Some(e) => instant_of(e.str_of().unwrap()),
                    None => None,
                },
                clock: clock.unwrap().str_of().unwrap(),
                period: period_or_number_of(period.unwrap()).unwrap(),
                home: team_of(home.unwrap()).unwrap(),
                away: team_of(away.unwrap()).unwrap(),
                game_leaders: match leaders {
                    Some(l) => leaders_of(l),
                    None => None,
                },
            },
        )
    } else {
        None
    }
}

fn decode_instant(j: &Json) -> (r: Option<UtcInstant>)
    ensures
        r is Some <==> (j.str_of() is Some && instant_of(j.str_of().unwrap()) is Some),
        r is Some ==> r == instant_of(j.str_of().unwrap()),
{
    match j {
        Json::Str(s) => parse_instant(s.as_str()),
        _ => None,
    }
}

impl Game {
    /// Decodes one scoreboard entry; a required member that is absent or
    /// malformed fails the whole entry.
    pub fn from_json(j: &Json) -> (r: Option<Game>)
        ensures
            game_opt_view(r) == game_of(*j),
    {
        let id = StringOrNumber::from_json(j.get2("id", "gameId")?)?;
        let start_time = decode_instant(j.get3("startTime", "startTimeUTC", "gameTimeUTC")?)?;
        let end_time = match present_ref(j.get2("endTime", "endTimeUTC")) {
            Some(e) => Some(decode_instant(e)?),
            None => None,
        };
        let clock = decode_string(j.get2("clock", "gameClock")?)?;
        let period = PeriodOrNumber::from_json(j.get("period")?)?;
        let home = Team::from_json(j.get3("home", "hTeam", "homeTeam")?)?;
        let away = Team::from_json(j.get3("away", "vTeam", "awayTeam")?)?;
        let game_leaders = match present_ref(j.get("gameLeaders")) {
            Some(l) => Some(GameLeaders::from_json(l)?),
            None => None,
        };
        Some(Game { id, start_time, end_time, clock, period, home, away, game_leaders })
    }

    pub open spec fn has_ended_spec(self) -> bool {
        self.end_time is Some || self.clock@.len() == 0
    }

    pub open spec fn is_active_at_spec(self, now: UtcInstant) -> bool {
        !self.has_ended_spec() && self.start_time.at_or_before_spec(now)
    }

    /// A game has ended once it has an end time or its clock is empty.
    pub fn has_ended(&self) -> (r: bool)
        ensures
            r == self.has_ended_spec(),
    {
        self.end_time.is_some() || self.clock.as_str().unicode_len() == 0
    }

    /// A game is active at `now` if it has not ended and started at or before `now`.
    pub fn is_active_at(&self, now: &UtcInstant) -> (r: bool)
        ensures
            r == self.is_active_at_spec(*now),
    {
        !self.has_ended() && self.start_time.at_or_before(now)
    }

    /// Whether the game is active at the current instant.
    pub fn is_active(&self) -> (r: bool)
        ensures
            r ==> !self.has_ended_spec(),
            self.has_ended_spec() ==> !r,
            exists|at: UtcInstant| r == #[trigger] self.is_active_at_spec(at),
    {
        let now = crate::datetime::now();
        let r = self.is_active_at(&now);
        assert(r == self.is_active_at_spec(now));
        r
    }
}

/// One line of display text at one of the three type sizes.
#[derive(Debug, Clone, PartialEq)]
pub enum Line {
    Small(String),
    Medium(String),
    Large(String),
}

/// A line as its size tag (0 small, 1 medium, 2 large) and its text.
impl View for Line {
    type V = (u8, Seq<char>);

    open spec fn view(&self) -> (u8, Seq<char>) {
        match self {
            Line::Small(t) => (0, t@),
            Line::Medium(t) => (1, t@),
            Line::Large(t) => (2, t@),
        }
    }
}

pub open spec fn tag_char(size: u8) -> char {
    if size == 0 {
        '0'
    } else if size == 1 {
        '1'
    } else {
        '2'
    }
}

/// The encoding of a line: its size tag, its text, a newline.
pub open spec fn rendered(l: (u8, Seq<char>)) -> Seq<char> {
    seq![tag_char(l.0)] + l.1 + seq!['\n']
}

impl Line {
    pub fn small(s: &str) -> (r: Line)
        ensures
            r@ == (0u8, s@),
    {
        Line::Small(s.to_owned())
    }

    pub fn medium(s: &str) -> (r: Line)
        ensures
            r@ == (1u8, s@),
    {
        Line::Medium(s.to_owned())
    }

    pub fn large(s: &str) -> (r: Line)
        ensures
            r@ == (2u8, s@),
    {
        Line::Large(s.to_owned())
    }

    pub fn render(&self) -> (r: String)
        ensures
            r@ == rendered(self@),
    {
        let (tag, text) = match self {
            Line::Small(line) => ("0", line),
            Line::Medium(line) => ("1", line),
            Line::Large(line) => ("2", line),
        };
        proof {
            reveal_strlit("0");
            reveal_strlit("1");
            reveal_strlit("2");
            reveal_strlit("\n");
        }
        let mut r = tag.to_owned();
        push_str(&mut r, text.as_str());
        push_str(&mut r, "\n");
        assert(r@ =~= rendered(self@));
        r
    }
}

/// A game with a clock, no end time and a start at or before `at` is active
/// at `at`; a game with an end time has ended, whatever its clock, and is not
/// active.
pub proof fn lemma_game_phase(g: Game, at: UtcInstant)
    ensures
        (g.clock@.len() > 0 && g.end_time is None && g.start_time.at_or_before_spec(at))
            ==> g.is_active_at_spec(at),
        g.end_time is Some ==> g.has_ended_spec() && !g.is_active_at_spec(at),
{
}

fn same_opt_string(a: &Option<String>, b: &Option<String>) -> (r: bool)
    ensures
        r == (string_opt_view(*a) == string_opt_view(*b)),
{
    match (a, b) {
        (Some(x), Some(y)) => str_eq(x.as_str(), y.as_str()),
        (None, None) => true,
        _ => false,
    }
}

fn same_opt_scalar(a: &Option<StringOrNumber>, b: &Option<StringOrNumber>) -> (r: bool)
    ensures
        r == (scalar_opt_view(*a) == scalar_opt_view(*b)),
{
    match (a, b) {
        (Some(x), Some(y)) => x.same(y),
        (None, None) => true,
        _ => false,
    }
}

fn same_line_scores(a: &Vec<LineScore>, b: &Vec<LineScore>) -> (r: bool)
    ensures
        r == (line_scores_view(a@) == line_scores_view(b@)),
{
    if a.len() != b.len() {
        assert(line_scores_view(a@).len() != line_scores_view(b@).len());
        return false;
    }
    let mut i: usize = 0;
    while i < a.len()
        invariant
            a@.len() == b@.len(),
            i <= a@.len(),
            forall|k: int| 0 <= k < i ==> (#[trigger] a@[k])@ == b@[k]@,
        decreases a@.len() - i,
    {
        if !a[i].score.same(&b[i].score) {
            assert(line_scores_view(a@)[i as int] != line_scores_view(b@)[i as int]);
            return false;
        }
        i = i + 1;
    }
    assert(line_scores_view(a@) =~= line_scores_view(b@));
    true
}

impl Team {
    /// Structural equality.
    pub fn same(&self, other: &Team) -> (r: bool)
        ensures
            r == (self@ == other@),
    {
        self.id.same(&other.id) && same_opt_string(&self.team_name, &other.team_name)
            && same_opt_string(&self.team_city, &other.team_city) && str_eq(
            self.tri_code.as_str(),
            other.tri_code.as_str(),
        ) && self.win.same(&other.win) && self.loss.same(&other.loss) && self.score.same(
            &other.score,
        ) && same_opt_scalar(&self.in_bonus, &other.in_bonus) && self.timeouts_remaining
            == other.timeouts_remaining && same_line_scores(&self.periods, &other.periods)
    }
}

impl GameLeader {
    /// Structural equality.
    pub fn same(&self, other: &GameLeader) -> (r: bool)
        ensures
            r == (self@ == other@),
    {
        self.id.same(&other.id) && str_eq(self.name.as_str(), other.name.as_str()) && str_eq(
            self.number.as_str(),
            other.number.as_str(),
        ) && str_eq(self.position.as_str(), other.position.as_str()) && same_opt_string(
            &self.player_slug,
            &other.player_slug,
        ) && self.points == other.points && self.rebounds == other.rebounds && self.assists
            == other.assists
    }
}

impl GameLeaders {
    /// Structural equality.
    pub fn same(&self, other: &GameLeaders) -> (r: bool)
        ensures
            r == (self@ == other@),
    {
        self.home_leaders.same(&other.home_leaders) && self.away_leaders.same(&other.away_leaders)
    }
}

impl Game {
    /// Structural equality.
    pub fn same(&self, other: &Game) -> (r: bool)
        ensures
            r == (self@ == other@),
    {
        let ends = match (&self.end_time, &other.end_time) {
            (Some(x), Some(y)) => *x == *y,
            (None, None) => true,
            _ => false,
        };
        let leaders = match (&self.game_leaders, &other.game_leaders) {
            (Some(x), Some(y)) => x.same(y),
            (None, None) => true,
            _ => false,
        };
        self.id.same(&other.id) && self.start_time == other.start_time && ends && str_eq(
            self.clock.as_str(),
            other.clock.as_str(),
        ) && self.period == other.period && self.home.same(&other.home) && self.away.same(
            &other.away,
        ) && leaders
    }
}

/// The events of a play-by-play document, as raw objects.
#[derive(Debug)]
pub struct PlayByPlayGame {
    pub actions: Vec<Json>,
}

/// A play-by-play document.
#[derive(Debug)]
pub struct PlayByPlay {
    pub game: PlayByPlayGame,
}

impl PlayByPlay {
    /// Takes `game.actions` out of a play-by-play document; nothing if it is
    /// not an array.
    pub fn from_json(doc: Json) -> (r: Option<PlayByPlay>)
        ensures
            r is Some <==> (doc.field("game"@) is Some && doc.field("game"@).unwrap().field("actions"@) matches Some(Json::Array(_))),
            r matches Some(p) ==> doc.field("game"@).unwrap().field("actions"@) == Some(Json::Array(p.game.actions)),
    {
        let game = crate::json::take_member(doc, "game")?;
        match crate::json::take_member(game, "actions")? {
            Json::Array(actions) => Some(PlayByPlay { game: PlayByPlayGame { actions } }),
            _ => None,
        }
    }
}

} // verus!
