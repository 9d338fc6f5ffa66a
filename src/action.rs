//! Play-by-play events: classification of one raw event into an `Action`,
//! its description, and the ordering of a whole feed.
use vstd::prelude::*;
use crate::json::{Json, chars_opt};
use crate::text::{all_digits, decimal, is_digit, push_decimal, push_str, str_eq, parse_u16, parse_u16_spec};

verus! {

/// The payload every action carries.
#[derive(Debug, Clone, PartialEq)]
pub struct ActionInfo {
    pub number: i64,
    pub clock: String,
    pub desc: String,
    pub home_score: u16,
    pub away_score: u16,
    pub quarter: u8,
}

/// One canonical play-by-play event.
#[derive(Debug, Clone, PartialEq)]
pub enum Action {
    Period(ActionInfo),
    JumpBall(ActionInfo),
    Points(ActionInfo),
    Rebound(ActionInfo),
    Stoppage(ActionInfo),
    Block(ActionInfo),
    Turnover(ActionInfo),
    Steal(ActionInfo),
    Timeout(ActionInfo),
    Substitution(ActionInfo),
    Foul(ActionInfo),
    FreeThrow(ActionInfo),
    Violation(ActionInfo),
    Game(ActionInfo),
    Unknown(ActionInfo),
}

pub ghost enum ActionKind {
    Period,
    JumpBall,
    Points,
    Rebound,
    Stoppage,
    Block,
    Turnover,
    Steal,
    Timeout,
    Substitution,
    Foul,
    FreeThrow,
    Violation,
    Game,
    Unknown,
}

pub ghost struct ActionView {
    pub kind: ActionKind,
    pub number: i64,
    pub clock: Seq<char>,
    pub desc: Seq<char>,
    pub home_score: u16,
    pub away_score: u16,
    pub quarter: u8,
}

impl Action {
    pub open spec fn info_spec(self) -> ActionInfo {
        match self {
            Action::Period(info) => info,
            Action::JumpBall(info) => info,
            Action::Points(info) => info,
            Action::Rebound(info) => info,
            Action::Stoppage(info) => info,
            Action::Block(info) => info,
            Action::Turnover(info) => info,
            Action::Steal(info) => info,
            Action::Timeout(info) => info,
            Action::Substitution(info) => info,
            Action::Foul(info) => info,
            Action::FreeThrow(info) => info,
            Action::Violation(info) => info,
            Action::Game(info) => info,
            Action::Unknown(info) => info,
        }
    }

    pub open spec fn kind(self) -> ActionKind {
        match self {
            Action::Period(_) => ActionKind::Period,
            Action::JumpBall(_) => ActionKind::JumpBall,
            Action::Points(_) => ActionKind::Points,
            Action::Rebound(_) => ActionKind::Rebound,
            Action::Stoppage(_) => ActionKind::Stoppage,
            Action::Block(_) => ActionKind::Block,
            Action::Turnover(_) => ActionKind::Turnover,
            Action::Steal(_) => ActionKind::Steal,
            Action::Timeout(_) => ActionKind::Timeout,
            Action::Substitution(_) => ActionKind::Substitution,
            Action::Foul(_) => ActionKind::Foul,
            Action::FreeThrow(_) => ActionKind::FreeThrow,
            Action::Violation(_) => ActionKind::Violation,
            Action::Game(_) => ActionKind::Game,
            Action::Unknown(_) => ActionKind::Unknown,
        }
    }
}

impl View for Action {
    type V = ActionView;

    open spec fn view(&self) -> ActionView {
        let info = self.info_spec();
        ActionView {
            kind: self.kind(),
            number: info.number,
            clock: info.clock@,
            desc: info.desc@,
            home_score: info.home_score,
            away_score: info.away_score,
            quarter: info.quarter,
        }
    }
}

pub open spec fn action_opt_view(a: Option<Action>) -> Option<ActionView> {
    match a {
        Some(a) => Some(a@),
        None => None,
    }
}

impl Action {
    fn info(&self) -> (r: &ActionInfo)
        ensures
            *r == self.info_spec(),
    {
        match self {
            Action::Period(info) => info,
            Action::JumpBall(info) => info,
            Action::Points(info) => info,
            Action::Rebound(info) => info,
            Action::Stoppage(info) => info,
            Action::Block(info) => info,
            Action::Turnover(info) => info,
            Action::Steal(info) => info,
            Action::Timeout(info) => info,
            Action::Substitution(info) => info,
            Action::Foul(info) => info,
            Action::FreeThrow(info) => info,
            Action::Violation(info) => info,
            Action::Game(info) => info,
            Action::Unknown(info) => info,
        }
    }

    /// The sequence number, the sole ordering key of a feed.
    pub fn number(&self) -> (r: i64)
        ensures
            r == self@.number,
    {
        self.info().number
    }

    pub fn quarter(&self) -> (r: u8)
        ensures
            r == self@.quarter,
    {
        self.info().quarter
    }

    pub fn desc(&self) -> (r: &str)
        ensures
            r@ == self@.desc,
    {
        self.info().desc.as_str()
    }

    pub fn clock(&self) -> (r: &str)
        ensures
            r@ == self@.clock,
    {
        self.info().clock.as_str()
    }
}

/// The display clock of a duration: after the `PT` prefix, `M` becomes `:`
/// and everything from the first `.` on is dropped.
pub open spec fn clock_body(s: Seq<char>) -> Seq<char>
    decreases s.len(),
{
    if s.len() == 0 || s[0] == '.' {
        Seq::empty()
    } else if s[0] == 'M' {
        seq![':'] + clock_body(s.drop_first())
    } else {
        seq![s[0]] + clock_body(s.drop_first())
    }
}

pub open spec fn duration_to_clock_spec(s: Seq<char>) -> Option<Seq<char>> {
    if s.len() >= 2 && s[0] == 'P' && s[1] == 'T' {
        Some(clock_body(s.skip(2)))
    } else {
        None
    }
}

/// Turns an ISO-8601-like duration (`PT12M00.00S`) into a display clock
/// (`12:00`); nothing if the `PT` prefix is missing.
pub fn duration_to_clock(d: &str) -> (r: Option<String>)
    ensures
        r is Some <==> duration_to_clock_spec(d@) is Some,
        r matches Some(c) ==> Some(c@) == duration_to_clock_spec(d@),
{
    let n = d.unicode_len();
    if n < 2 || d.get_char(0) != 'P' || d.get_char(1) != 'T' {
        return None;
    }
    let mut ret = String::new();
    let mut i: usize = 2;
    assert(ret@ + clock_body(d@.skip(2)) =~= clock_body(d@.skip(2)));
    while i < n
        invariant
            n == d@.len(),
            2 <= i <= n,
            d@[0] == 'P' && d@[1] == 'T',
            ret@ + clock_body(d@.skip(i as int)) == clock_body(d@.skip(2)),
        decreases n - i,
    {
        let ch = d.get_char(i);
        let ghost rest = d@.skip(i as int);
        assert(rest[0] == ch);
        assert(rest.drop_first() =~= d@.skip(i + 1));
        if ch == '.' {
            assert(ret@ =~= clock_body(d@.skip(2)));
            return Some(ret);
        }
        let ghost before = ret@;
        if ch == 'M' {
            ret.push(':');
        } else {
            ret.push(ch);
        }
        assert(ret@ + clock_body(d@.skip(i + 1)) =~= before + clock_body(rest));
        i = i + 1;
    }
    assert(d@.skip(n as int) =~= Seq::<char>::empty());
    assert(ret@ =~= clock_body(d@.skip(2)));
    Some(ret)
}

/// The lower-case form of a string, as `str::to_lowercase` gives it.
pub uninterp spec fn lower_of(s: Seq<char>) -> Seq<char>;

/// Relies on `str::to_lowercase`: the result depends on the characters alone.
#[verifier::external_body]
fn to_lower(s: &str) -> (r: String)
    ensures
        r@ == lower_of(s@),
{
    s.to_lowercase()
}

/// The string member `key`, if it is there and a string.
pub open spec fn str_field(v: Json, key: Seq<char>) -> Option<Seq<char>> {
    match v.field(key) {
        Some(x) => x.str_of(),
        None => None,
    }
}

/// The team a possession passes to: the other of the two.
pub open spec fn other_team(from: Seq<char>, home: Seq<char>, away: Seq<char>) -> Seq<char> {
    if from == home {
        away
    } else {
        home
    }
}

/// The description of a field goal attempt.
pub open spec fn points_desc(
    result: Seq<char>,
    label: Seq<char>,
    team: Seq<char>,
    player: Seq<char>,
    shot: Seq<char>,
) -> Seq<char> {
    result + " "@ + label + " "@ + team + " "@ + player + " "@ + shot
}

/// The kind and description of an event of type `ty`; nothing for a type
/// that is not classified or a member that its template needs and lacks.
pub open spec fn kind_desc_of(v: Json, ty: Seq<char>, quarter: u8, home: Seq<char>, away: Seq<char>) -> Option<(ActionKind, Seq<char>)> {
    let sub = str_field(v, "subType"@);
    let team = str_field(v, "teamTricode"@);
    let player = str_field(v, "playerNameI"@);
    let result = str_field(v, "shotResult"@);
    if ty == "period"@ {
        if sub is Some {
            Some((ActionKind::Period, "Q"@ + decimal(quarter as nat) + " "@ + sub.unwrap()))
        } else {
            None
        }
    } else if ty == "jumpball"@ {
        let d = str_field(v, "description"@);
        if d is None {
            None
        } else if d.unwrap().len() > 0 {
            Some((ActionKind::JumpBall, d.unwrap()))
        } else if team is Some {
            Some((ActionKind::JumpBall, "Jump won by "@ + team.unwrap()))
        } else {
            None
        }
    } else if ty == "2pt"@ || ty == "3pt"@ {
        if team is Some && player is Some && sub is Some && result is Some {
            let label = if ty == "2pt"@ {
                "2pts"@
            } else {
                "3pts"@
            };
            Some(
                (
                    ActionKind::Points,
                    points_desc(
                        result.unwrap(),
                        label,
                        team.unwrap(),
                        player.unwrap(),
                        lower_of(sub.unwrap()),
                    ),
                ),
            )
        } else {
            None
        }
    } else if ty == "rebound"@ {
        if team is Some && player is Some && sub is Some {
            Some(
                (
                    ActionKind::Rebound,
                    sub.unwrap() + " rebound "@ + player.unwrap() + " ("@ + team.unwrap() + ")"@,
                ),
            )
        } else {
            None
        }
    } else if ty == "block"@ {
        if player is Some {
            Some((ActionKind::Block, "Block "@ + player.unwrap()))
        } else {
            None
        }
    } else if ty == "turnover"@ {
        if team is Some {
            Some(
                (
                    ActionKind::Turnover,
                    "Turnover "@ + team.unwrap() + " -> "@ + other_team(team.unwrap(), home, away),
                ),
            )
        } else {
            None
        }
    } else if ty == "steal"@ {
        if team is Some {
            Some(
                (
                    ActionKind::Steal,
                    "Steal "@ + team.unwrap() + " -> "@ + other_team(team.unwrap(), home, away),
                ),
            )
        } else {
            None
        }
    } else if ty == "timeout"@ {
        if team is Some {
            Some((ActionKind::Timeout, "Timeout "@ + team.unwrap()))
        } else {
            None
        }
    } else if ty == "substitution"@ {
        if player is Some && sub is Some {
            Some((ActionKind::Substitution, "Sub "@ + player.unwrap() + " "@ + sub.unwrap()))
        } else {
            None
        }
    } else if ty == "foul"@ {
        let drawn = str_field(v, "foulDrawnPlayerName"@);
        let total = str_field(v, "foulPersonalTotal"@);
        if player is Some && drawn is Some && total is Some {
            Some(
                (
                    ActionKind::Foul,
                    "Foul "@ + player.unwrap() + " <- "@ + drawn.unwrap() + " ("@ + total.unwrap()
                        + ")"@,
                ),
            )
        } else {
            None
        }
    } else if ty == "freethrow"@ {
        if player is Some && sub is Some && result is Some {
            Some(
                (
                    ActionKind::FreeThrow,
                    "Free Throw "@ + player.unwrap() + " "@ + sub.unwrap() + " "@ + result.unwrap(),
                ),
            )
        } else {
            None
        }
    } else if ty == "violation"@ {
        if team is Some && sub is Some {
            Some((ActionKind::Violation, team.unwrap() + " "@ + sub.unwrap()))
        } else {
            None
        }
    } else {
        None
    }
}

/// A raw event as an action: the members every action needs, then the
/// kind and description its type calls for.
pub open spec fn action_of(v: Json, home: Seq<char>, away: Seq<char>) -> Option<ActionView> {
    let number = v.field("actionNumber"@);
    let ty = str_field(v, "actionType"@);
    let period = v.field("period"@);
    let clock = str_field(v, "clock"@);
    let sh = str_field(v, "scoreHome"@);
    let sa = str_field(v, "scoreAway"@);
    if number is Some && number.unwrap().i64_of() is Some && ty is Some && period is Some
        && period.unwrap().u64_of() is Some && period.unwrap().u64_of().unwrap() <= u8::MAX
        && clock is Some && duration_to_clock_spec(
        clock.unwrap(),
    ) is Some && sh is Some && parse_u16_spec(sh.unwrap()) is Some && sa is Some
        && parse_u16_spec(sa.unwrap()) is Some {
        let quarter = period.unwrap().u64_of().unwrap() as u8;
        match kind_desc_of(v, ty.unwrap(), quarter, home, away) {
            Some(kd) => Some(
                ActionView {
                    kind: kd.0,
                    number: number.unwrap().i64_of().unwrap(),
                    clock: duration_to_clock_spec(clock.unwrap()).unwrap(),
                    desc: kd.1,
                    home_score: parse_u16_spec(sh.unwrap()).unwrap(),
                    away_score: parse_u16_spec(sa.unwrap()).unwrap(),
                    quarter,
                },
            ),
            None => None,
        }
    } else {
        None
    }
}

fn str_member<'a>(v: &'a Json, key: &str) -> (r: Option<&'a str>)
    ensures
        chars_opt(r) == str_field(*v, key@),
{
    match v.get(key) {
        Some(x) => x.as_str(),
        None => None,
    }
}

/// The other of the two teams: `away` when `from` is `home`, else `home`.
pub fn other_team_of<'a>(from: &str, home: &'a str, away: &'a str) -> (r: &'a str)
    ensures
        r@ == other_team(from@, home@, away@),
{
    if str_eq(from, home) {
        away
    } else {
        home
    }
}

/// The description of a field goal attempt, from the shot kind already
/// lower-cased.
pub fn points_description(result: &str, label: &str, team: &str, player: &str, shot: &str) -> (r:
    String)
    ensures
        r@ == points_desc(result@, label@, team@, player@, shot@),
{
    let mut d = result.to_owned();
    push_str(&mut d, " ");
    push_str(&mut d, label);
    push_str(&mut d, " ");
    push_str(&mut d, team);
    push_str(&mut d, " ");
    push_str(&mut d, player);
    push_str(&mut d, " ");
    push_str(&mut d, shot);
    d
}

pub open spec fn info_matches(a: Action, kind: ActionKind, desc: Seq<char>, number: i64, clock: Seq<char>, home_score: u16, away_score: u16, quarter: u8) -> bool {
    a@ == ActionView { kind, number, clock, desc, home_score, away_score, quarter }
}

/// Builds the action of type `ty` from the members its template needs.
fn classify(
    v: &Json,
    ty: &str,
    number: i64,
    clock: String,
    home_score: u16,
    away_score: u16,
    quarter: u8,
    home: &str,
    away: &str,
) -> (r: Option<Action>)
    ensures
        r is Some <==> kind_desc_of(*v, ty@, quarter, home@, away@) is Some,
        r matches Some(a) ==> info_matches(
            a,
            kind_desc_of(*v, ty@, quarter, home@, away@).unwrap().0,
            kind_desc_of(*v, ty@, quarter, home@, away@).unwrap().1,
            number,
            clock@,
            home_score,
            away_score,
            quarter,
        ),
{
    if str_eq(ty, "period") {
        let sub = str_member(v, "subType")?;
        let mut desc = "Q".to_owned();
        push_decimal(&mut desc, quarter as u64);
        push_str(&mut desc, " ");
        push_str(&mut desc, sub);
        Some(Action::Period(ActionInfo { number, clock, desc, home_score, away_score, quarter }))
    } else if str_eq(ty, "jumpball") {
        let d = str_member(v, "description")?;
        let desc = if d.unicode_len() > 0 {
            d.to_owned()
        } else {
            let team = str_member(v, "teamTricode")?;
            let mut desc = "Jump won by ".to_owned();
            push_str(&mut desc, team);
            desc
        };
        Some(Action::JumpBall(ActionInfo { number, clock, desc, home_score, away_score, quarter }))
    } else if str_eq(ty, "2pt") || str_eq(ty, "3pt") {
        let team = str_member(v, "teamTricode")?;
        let player = str_member(v, "playerNameI")?;
        let sub = str_member(v, "subType")?;
        let result = str_member(v, "shotResult")?;
        let label = if str_eq(ty, "2pt") {
            "2pts"
        } else {
            "3pts"
        };
        let shot = to_lower(sub);
        let desc = points_description(result, label, team, player, shot.as_str());
        Some(Action::Points(ActionInfo { number, clock, desc, home_score, away_score, quarter }))
    } else if str_eq(ty, "rebound") {
        let team = str_member(v, "teamTricode")?;
        let player = str_member(v, "playerNameI")?;
        let sub = str_member(v, "subType")?;
        let mut desc = sub.to_owned();
        push_str(&mut desc, " rebound ");
        push_str(&mut desc, player);
        push_str(&mut desc, " (");
        push_str(&mut desc, team);
        push_str(&mut desc, ")");
        Some(Action::Rebound(ActionInfo { number, clock, desc, home_score, away_score, quarter }))
    } else if str_eq(ty, "block") {
        let player = str_member(v, "playerNameI")?;
        let mut desc = "Block ".to_owned();
        push_str(&mut desc, player);
        Some(Action::Block(ActionInfo { number, clock, desc, home_score, away_score, quarter }))
    } else if str_eq(ty, "turnover") {
        let from = str_member(v, "teamTricode")?;
        let mut desc = "Turnover ".to_owned();
        push_str(&mut desc, from);
        push_str(&mut desc, " -> ");
        push_str(&mut desc, other_team_of(from, home, away));
        Some(Action::Turnover(ActionInfo { number, clock, desc, home_score, away_score, quarter }))
    } else if str_eq(ty, "steal") {
        let from = str_member(v, "teamTricode")?;
        let mut desc = "Steal ".to_owned();
        push_str(&mut desc, from);
        push_str(&mut desc, " -> ");
        push_str(&mut desc, other_team_of(from, home, away));
        Some(Action::Steal(ActionInfo { number, clock, desc, home_score, away_score, quarter }))
    } else if str_eq(ty, "timeout") {
        let team = str_member(v, "teamTricode")?;
        let mut desc = "Timeout ".to_owned();
        push_str(&mut desc, team);
        Some(Action::Timeout(ActionInfo { number, clock, desc, home_score, away_score, quarter }))
    } else if str_eq(ty, "substitution") {
        let player = str_member(v, "playerNameI")?;
        let sub = str_member(v, "subType")?;
        let mut desc = "Sub ".to_owned();
        push_str(&mut desc, player);
        push_str(&mut desc, " ");
        push_str(&mut desc, sub);
        Some(
            Action::Substitution(ActionInfo { number, clock, desc, home_score, away_score, quarter }),
        )
    } else if str_eq(ty, "foul") {
        let player = str_member(v, "playerNameI")?;
        let drawn = str_member(v, "foulDrawnPlayerName")?;
        let total = str_member(v, "foulPersonalTotal")?;
        let mut desc = "Foul ".to_owned();
        push_str(&mut desc, player);
        push_str(&mut desc, " <- ");
        push_str(&mut desc, drawn);
        push_str(&mut desc, " (");
        push_str(&mut desc, total);
        push_str(&mut desc, ")");
        Some(Action::Foul(ActionInfo { number, clock, desc, home_score, away_score, quarter }))
    } else if str_eq(ty, "freethrow") {
        let player = str_member(v, "playerNameI")?;
        let sub = str_member(v, "subType")?;
        let result = str_member(v, "shotResult")?;
        let mut desc = "Free Throw ".to_owned();
        push_str(&mut desc, player);
        push_str(&mut desc, " ");
        push_str(&mut desc, sub);
        push_str(&mut desc, " ");
        push_str(&mut desc, result);
        Some(Action::FreeThrow(ActionInfo { number, clock, desc, home_score, away_score, quarter }))
    } else if str_eq(ty, "violation") {
        let team = str_member(v, "teamTricode")?;
        let sub = str_member(v, "subType")?;
        let mut desc = team.to_owned();
        push_str(&mut desc, " ");
        push_str(&mut desc, sub);
        Some(Action::Violation(ActionInfo { number, clock, desc, home_score, away_score, quarter }))
    } else {
        None
    }
}

impl Action {
    /// Classifies one raw play-by-play event, given the two teams' codes.
    /// An event of a type that is not classified, or one that lacks a
    /// member its type needs, gives nothing.
    pub fn try_from_obj(value: &Json, home_team: &str, away_team: &str) -> (r: Option<Action>)
        ensures
            action_opt_view(r) == action_of(*value, home_team@, away_team@),
    {
        let number = value.get("actionNumber")?.as_i64()?;
        let ty = str_member(value, "actionType")?;
        let quarter = value.get("period")?.as_u64()?;
        if quarter > 255 {
            return None;
        }
        let clock = duration_to_clock(str_member(value, "clock")?)?;
        let home_score = parse_u16(str_member(value, "scoreHome")?)?;
        let away_score = parse_u16(str_member(value, "scoreAway")?)?;
        classify(
            value,
            ty,
            number,
            clock,
            home_score,
            away_score,
            quarter as u8,
            home_team,
            away_team,
        )
    }
}

/// The actions of a feed in feed order, the events that do not decode left out.
pub open spec fn decoded_feed(events: Seq<Json>, home: Seq<char>, away: Seq<char>) -> Seq<ActionView>
    decreases events.len(),
{
    if events.len() == 0 {
        Seq::empty()
    } else {
        let rest = decoded_feed(events.drop_last(), home, away);
        match action_of(events.last(), home, away) {
            Some(a) => rest.push(a),
            None => rest,
        }
    }
}

pub open spec fn views(s: Seq<Action>) -> Seq<ActionView> {
    s.map_values(|a: Action| a@)
}

/// Non-decreasing in sequence number.
pub open spec fn sorted_by_number(s: Seq<ActionView>) -> bool {
    forall|i: int, j: int| 0 <= i <= j < s.len() ==> s[i].number <= s[j].number
}

/// Where an action with sequence number `key` goes in `s`: after every
/// action at the end of `s` whose number is not greater.
pub open spec fn insert_pos(s: Seq<ActionView>, key: i64) -> int
    decreases s.len(),
{
    if s.len() == 0 || s.last().number <= key {
        s.len() as int
    } else {
        insert_pos(s.drop_last(), key)
    }
}

/// The actions ordered by sequence number, each placed after all earlier
/// ones with a number not greater: actions with equal numbers keep their
/// order in `d`.
pub open spec fn stable_by_number(d: Seq<ActionView>) -> Seq<ActionView>
    decreases d.len(),
{
    if d.len() == 0 {
        Seq::empty()
    } else {
        let s = stable_by_number(d.drop_last());
        s.insert(insert_pos(s, d.last().number), d.last())
    }
}

/// Classifies every event of a feed and orders the actions by sequence
/// number, actions with equal numbers in feed order; events that do not
/// classify are dropped, the rest kept.
pub fn actions_from_feed(events: &Vec<Json>, home_team: &str, away_team: &str) -> (r: Vec<Action>)
    ensures
        sorted_by_number(views(r@)),
        views(r@).to_multiset() == decoded_feed(events@, home_team@, away_team@).to_multiset(),
        views(r@) == stable_by_number(decoded_feed(events@, home_team@, away_team@)),
{
    let mut out: Vec<Action> = Vec::new();
    let mut i: usize = 0;
    assert(views(out@) =~= Seq::<ActionView>::empty());
    assert(events@.subrange(0, 0) =~= Seq::<Json>::empty());
    while i < events.len()
        invariant
            i <= events@.len(),
            sorted_by_number(views(out@)),
            views(out@).to_multiset() == decoded_feed(
                events@.subrange(0, i as int),
                home_team@,
                away_team@,
            ).to_multiset(),
            views(out@) == stable_by_number(
                decoded_feed(events@.subrange(0, i as int), home_team@, away_team@),
            ),
        decreases events@.len() - i,
    {
        let ghost prefix = events@.subrange(0, i as int);
        let ghost next = events@.subrange(0, i + 1);
        assert(next.drop_last() =~= prefix);
        assert(next.last() == events@[i as int]);
        assert(views(out@).subrange(0, out@.len() as int) =~= views(out@));
        match Action::try_from_obj(&events[i], home_team, away_team) {
            Some(a) => {
                let key = a.number();
                let mut p: usize = out.len();
                while p > 0 && out[p - 1].number() > key
                    invariant
                        p <= out@.len(),
                        forall|k: int| p <= k < out@.len() ==> (#[trigger] out@[k])@.number > key,
                        insert_pos(views(out@), key) == insert_pos(views(out@).subrange(0, p as int), key),
                    decreases p,
                {
                    assert(views(out@).subrange(0, p as int).drop_last() =~= views(out@).subrange(0, p - 1));
                    p = p - 1;
                }
                assert(insert_pos(views(out@).subrange(0, p as int), key) == p);
                assert(a@.number == key);
                let ghost before = views(out@);
                out.insert(p, a);
                assert(views(out@) =~= before.insert(p as int, a@));
                assert(decoded_feed(next, home_team@, away_team@) == decoded_feed(
                    prefix,
                    home_team@,
                    away_team@,
                ).push(a@));
                proof {
                    vstd::seq_lib::to_multiset_insert(before, p as int, a@);
                    vstd::seq_lib::to_multiset_build(
                        decoded_feed(prefix, home_team@, away_team@),
                        a@,
                    );
                }
                assert(views(out@).to_multiset() == before.to_multiset().insert(a@));
                let ghost dp = decoded_feed(prefix, home_team@, away_team@);
                assert(dp.push(a@).drop_last() =~= dp);
                assert(dp.push(a@).last() == a@);
                assert(stable_by_number(dp.push(a@)) == stable_by_number(dp).insert(
                    insert_pos(stable_by_number(dp), a@.number),
                    a@,
                ));
                assert(decoded_feed(prefix, home_team@, away_team@).push(a@).to_multiset()
                    == decoded_feed(prefix, home_team@, away_team@).to_multiset().insert(a@));
                assert(sorted_by_number(views(out@))) by {
                    assert forall|x: int, y: int|
                        0 <= x <= y < views(out@).len() implies views(out@)[x].number
                        <= views(out@)[y].number by {
                        if p > 0 && x < p && y > p {
                            assert(before[x].number <= before[p - 1].number);
                        }
                    }
                }
            },
            None => {
                assert(decoded_feed(next, home_team@, away_team@) == decoded_feed(
                    prefix,
                    home_team@,
                    away_team@,
                ));
            },
        }
        i = i + 1;
    }
    assert(events@.subrange(0, events@.len() as int) =~= events@);
    out
}

proof fn lemma_clock_body_plain_prefix(a: Seq<char>, rest: Seq<char>)
    requires
        forall|i: int| 0 <= i < a.len() ==> #[trigger] a[i] != 'M' && a[i] != '.',
    ensures
        clock_body(a + rest) == a + clock_body(rest),
    decreases a.len(),
{
    if a.len() > 0 {
        let tail = a.drop_first();
        assert((a + rest).drop_first() =~= tail + rest);
        assert forall|i: int| 0 <= i < tail.len() implies #[trigger] tail[i] != 'M' && tail[i] != '.' by {
            assert(tail[i] == a[i + 1]);
        }
        lemma_clock_body_plain_prefix(tail, rest);
        assert(a =~= seq![a[0]] + tail);
        assert(seq![a[0]] + (tail + clock_body(rest)) =~= a + clock_body(rest));
    } else {
        assert(a + rest =~= rest);
        assert(a + clock_body(rest) =~= clock_body(rest));
    }
}

/// A duration `PT{m}M{s}.{frac}S` with decimal minutes and seconds reads as
/// the display clock `{m}:{s}`.
pub proof fn lemma_clock_normalization(m: Seq<char>, s: Seq<char>, frac: Seq<char>)
    requires
        all_digits(m),
        all_digits(s),
    ensures
        duration_to_clock_spec("PT"@ + m + "M"@ + s + "."@ + frac + "S"@) == Some(m + ":"@ + s),
{
    reveal_strlit("PT");
    reveal_strlit("M");
    reveal_strlit(".");
    reveal_strlit("S");
    reveal_strlit(":");
    let input = "PT"@ + m + "M"@ + s + "."@ + frac + "S"@;
    let tail_s = "."@ + frac + "S"@;
    let tail_m = "M"@ + s + tail_s;
    assert(input.skip(2) =~= m + tail_m);
    assert forall|i: int| 0 <= i < m.len() implies #[trigger] m[i] != 'M' && m[i] != '.' by {
        assert(is_digit(m[i]));
    }
    assert forall|i: int| 0 <= i < s.len() implies #[trigger] s[i] != 'M' && s[i] != '.' by {
        assert(is_digit(s[i]));
    }
    lemma_clock_body_plain_prefix(m, tail_m);
    assert(tail_m.drop_first() =~= s + tail_s);
    lemma_clock_body_plain_prefix(s, tail_s);
    assert(clock_body(tail_s) == Seq::<char>::empty());
    assert(clock_body(tail_m) == seq![':'] + clock_body(s + tail_s));
    assert(m + (seq![':'] + (s + Seq::<char>::empty())) =~= m + ":"@ + s);
}

pub open spec fn kind_code(k: ActionKind) -> u8 {
    match k {
        ActionKind::Period => 0,
        ActionKind::JumpBall => 1,
        ActionKind::Points => 2,
        ActionKind::Rebound => 3,
        ActionKind::Stoppage => 4,
        ActionKind::Block => 5,
        ActionKind::Turnover => 6,
        ActionKind::Steal => 7,
        ActionKind::Timeout => 8,
        ActionKind::Substitution => 9,
        ActionKind::Foul => 10,
        ActionKind::FreeThrow => 11,
        ActionKind::Violation => 12,
        ActionKind::Game => 13,
        ActionKind::Unknown => 14,
    }
}

impl Action {
    fn code(&self) -> (r: u8)
        ensures
            r == kind_code(self.kind()),
    {
        match self {
            Action::Period(_) => 0,
            Action::JumpBall(_) => 1,
            Action::Points(_) => 2,
            Action::Rebound(_) => 3,
            Action::Stoppage(_) => 4,
            Action::Block(_) => 5,
            Action::Turnover(_) => 6,
            Action::Steal(_) => 7,
            Action::Timeout(_) => 8,
            Action::Substitution(_) => 9,
            Action::Foul(_) => 10,
            Action::FreeThrow(_) => 11,
            Action::Violation(_) => 12,
            Action::Game(_) => 13,
            Action::Unknown(_) => 14,
        }
    }

    /// Structural equality.
    pub fn same(&self, other: &Action) -> (r: bool)
        ensures
            r == (self@ == other@),
    {
        let a = self.info();
        let b = other.info();
        self.code() == other.code() && a.number == b.number && str_eq(a.clock.as_str(), b.clock.as_str())
            && str_eq(a.desc.as_str(), b.desc.as_str()) && a.home_score == b.home_score
            && a.away_score == b.away_score && a.quarter == b.quarter
    }
}

/// Structural equality of two action sequences.
pub fn same_actions(a: &Vec<Action>, b: &Vec<Action>) -> (r: bool)
    ensures
        r == (views(a@) == views(b@)),
{
    if a.len() != b.len() {
        assert(views(a@).len() != views(b@).len());
        return false;
    }
    let mut i: usize = 0;
    while i < a.len()
        invariant
            a@.len() == b@.len(),
            i <= a@.len(),
            forall|k: int| 0 <= k < i ==> (#[trigger] a@[k])@ == b@[k]@,
        decreases a@.len() - i,
    {
        if !a[i].same(&b[i]) {
            assert(views(a@)[i as int] != views(b@)[i as int]);
            return false;
        }
        i = i + 1;
    }
    assert(views(a@) =~= views(b@));
    true
}

} // verus!
