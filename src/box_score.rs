//! Per-category leaders of a team's roster.
use vstd::prelude::*;
use crate::json::Json;
use crate::{dflt_u8_ok, dflt_u8_val};

verus! {

/// The number of tracked statistic categories.
pub const CATEGORIES: usize = 12;

/// The player leading one category, with the value.
#[derive(Debug, Clone, PartialEq)]
pub struct TopPlayerByValue {
    pub name: String,
    pub value: u8,
}

pub open spec fn top_view(t: Option<TopPlayerByValue>) -> Option<(Seq<char>, u8)> {
    match t {
        Some(t) => Some((t.name@, t.value)),
        None => None,
    }
}

/// The leader of each category. Slot `k` is category `k` in the order:
/// assists, blocks, fouls drawn, personal fouls, steals, turnovers, points,
/// points in the paint, three-pointers made, total, offensive and defensive
/// rebounds.
#[derive(Debug, Clone, PartialEq)]
pub struct BoxScore {
    pub assist: Option<TopPlayerByValue>,
    pub blocks: Option<TopPlayerByValue>,
    pub fouled: Option<TopPlayerByValue>,
    pub fouler: Option<TopPlayerByValue>,
    pub steals: Option<TopPlayerByValue>,
    pub turnovers: Option<TopPlayerByValue>,
    pub points: Option<TopPlayerByValue>,
    pub paint_points: Option<TopPlayerByValue>,
    pub threes: Option<TopPlayerByValue>,
    pub rebounds: Option<TopPlayerByValue>,
    pub off_rebounds: Option<TopPlayerByValue>,
    pub def_rebounds: Option<TopPlayerByValue>,
}

/// The twelve category values of one player.
#[derive(Debug, Clone, Copy, PartialEq, Eq, Structural)]
pub struct Stats {
    pub assists: u8,
    pub blocks: u8,
    pub fouls_drawn: u8,
    pub fouls_personal: u8,
    pub steals: u8,
    pub turnovers: u8,
    pub points: u8,
    pub points_in_the_paint: u8,
    pub three_pointers_made: u8,
    pub rebounds_total: u8,
    pub rebounds_offensive: u8,
    pub rebounds_defensive: u8,
}

/// One roster entry: a player's display name and statistics.
#[derive(Debug, Clone, PartialEq)]
pub struct StatPlayer {
    pub player_name: String,
    pub statistics: Stats,
}

pub ghost struct PlayerView {
    pub name: Seq<char>,
    pub stats: Stats,
}

impl View for StatPlayer {
    type V = PlayerView;

    open spec fn view(&self) -> PlayerView {
        PlayerView { name: self.player_name@, stats: self.statistics }
    }
}

pub open spec fn roster_view(players: Seq<StatPlayer>) -> Seq<PlayerView> {
    players.map_values(|p: StatPlayer| p@)
}

impl Stats {
    /// The value of category `k`.
    pub open spec fn value(self, k: int) -> u8 {
        if k == 0 {
            self.assists
        } else if k == 1 {
            self.blocks
        } else if k == 2 {
            self.fouls_drawn
        } else if k == 3 {
            self.fouls_personal
        } else if k == 4 {
            self.steals
        } else if k == 5 {
            self.turnovers
        } else if k == 6 {
            self.points
        } else if k == 7 {
            self.points_in_the_paint
        } else if k == 8 {
            self.three_pointers_made
        } else if k == 9 {
            self.rebounds_total
        } else if k == 10 {
            self.rebounds_offensive
        } else {
            self.rebounds_defensive
        }
    }
}

impl BoxScore {
    /// The slots in category order.
    pub open spec fn slots(self) -> Seq<Option<(Seq<char>, u8)>> {
        seq![
            top_view(self.assist),
            top_view(self.blocks),
            top_view(self.fouled),
            top_view(self.fouler),
            top_view(self.steals),
            top_view(self.turnovers),
            top_view(self.points),
            top_view(self.paint_points),
            top_view(self.threes),
            top_view(self.rebounds),
            top_view(self.off_rebounds),
            top_view(self.def_rebounds),
        ]
    }
}

/// One observation folded into a slot: the first observation fills it, a
/// later one replaces the holder only with a strictly greater value.
pub open spec fn step(slot: Option<(Seq<char>, u8)>, name: Seq<char>, value: u8) -> Option<
    (Seq<char>, u8),
> {
    match slot {
        None => Some((name, value)),
        Some(cur) => if cur.1 < value {
            Some((name, value))
        } else {
            Some(cur)
        },
    }
}

/// The leader of category `k` over a roster, scanning it in order.
pub open spec fn leader(roster: Seq<PlayerView>, k: int) -> Option<(Seq<char>, u8)>
    decreases roster.len(),
{
    if roster.len() == 0 {
        None
    } else {
        step(leader(roster.drop_last(), k), roster.last().name, roster.last().stats.value(k))
    }
}

/// The slots a roster yields, in category order.
pub open spec fn aggregate(roster: Seq<PlayerView>) -> Seq<Option<(Seq<char>, u8)>> {
    Seq::new(12, |k: int| leader(roster, k))
}

fn update_slot(slot: &mut Option<TopPlayerByValue>, name: String, value: u8)
    ensures
        top_view(*final(slot)) == step(top_view(*old(slot)), name@, value),
{
    let replace = match slot {
        Some(v) => v.value < value,
        None => true,
    };
    if replace {
        *slot = Some(TopPlayerByValue { name, value });
    }
}

impl BoxScore {
    /// A box score with every slot empty.
    pub fn new() -> (r: BoxScore)
        ensures
            r.slots() == Seq::new(12, |k: int| None::<(Seq<char>, u8)>),
    {
        let r = BoxScore {
            assist: None,
            blocks: None,
            fouled: None,
            fouler: None,
            steals: None,
            turnovers: None,
            points: None,
            paint_points: None,
            threes: None,
            rebounds: None,
            off_rebounds: None,
            def_rebounds: None,
        };
        assert(r.slots() =~= Seq::new(12, |k: int| None::<(Seq<char>, u8)>));
        r
    }

    pub fn update_assist(&mut self, name: String, value: u8)
        ensures
            final(self).slots() == old(self).slots().update(0, step(old(self).slots()[0], name@, value)),
    {
        update_slot(&mut self.assist, name, value);
        assert(final(self).slots() =~= old(self).slots().update(0, step(old(self).slots()[0], name@, value)));
    }

    pub fn update_blocks(&mut self, name: String, value: u8)
        ensures
            final(self).slots() == old(self).slots().update(1, step(old(self).slots()[1], name@, value)),
    {
        update_slot(&mut self.blocks, name, value);
        assert(final(self).slots() =~= old(self).slots().update(1, step(old(self).slots()[1], name@, value)));
    }

    pub fn update_fouled(&mut self, name: String, value: u8)
        ensures
            final(self).slots() == old(self).slots().update(2, step(old(self).slots()[2], name@, value)),
    {
        update_slot(&mut self.fouled, name, value);
        assert(final(self).slots() =~= old(self).slots().update(2, step(old(self).slots()[2], name@, value)));
    }

    pub fn update_fouler(&mut self, name: String, value: u8)
        ensures
            final(self).slots() == old(self).slots().update(3, step(old(self).slots()[3], name@, value)),
    {
        update_slot(&mut self.fouler, name, value);
        assert(final(self).slots() =~= old(self).slots().update(3, step(old(self).slots()[3], name@, value)));
    }

    pub fn update_steals(&mut self, name: String, value: u8)
        ensures
            final(self).slots() == old(self).slots().update(4, step(old(self).slots()[4], name@, value)),
    {
        update_slot(&mut self.steals, name, value);
        assert(final(self).slots() =~= old(self).slots().update(4, step(old(self).slots()[4], name@, value)));
    }

    pub fn update_turnovers(&mut self, name: String, value: u8)
        ensures
            final(self).slots() == old(self).slots().update(5, step(old(self).slots()[5], name@, value)),
    {
        update_slot(&mut self.turnovers, name, value);
        assert(final(self).slots() =~= old(self).slots().update(5, step(old(self).slots()[5], name@, value)));
    }

    pub fn update_points(&mut self, name: String, value: u8)
        ensures
            final(self).slots() == old(self).slots().update(6, step(old(self).slots()[6], name@, value)),
    {
        update_slot(&mut self.points, name, value);
        assert(final(self).slots() =~= old(self).slots().update(6, step(old(self).slots()[6], name@, value)));
    }

    pub fn update_paint_points(&mut self, name: String, value: u8)
        ensures
            final(self).slots() == old(self).slots().update(7, step(old(self).slots()[7], name@, value)),
    {
        update_slot(&mut self.paint_points, name, value);
        assert(final(self).slots() =~= old(self).slots().update(7, step(old(self).slots()[7], name@, value)));
    }

    pub fn update_threes(&mut self, name: String, value: u8)
        ensures
            final(self).slots() == old(self).slots().update(8, step(old(self).slots()[8], name@, value)),
    {
        update_slot(&mut self.threes, name, value);
        assert(final(self).slots() =~= old(self).slots().update(8, step(old(self).slots()[8], name@, value)));
    }

    pub fn update_rebounds(&mut self, name: String, value: u8)
        ensures
            final(self).slots() == old(self).slots().update(9, step(old(self).slots()[9], name@, value)),
    {
        update_slot(&mut self.rebounds, name, value);
        assert(final(self).slots() =~= old(self).slots().update(9, step(old(self).slots()[9], name@, value)));
    }

    pub fn update_off_rebounds(&mut self, name: String, value: u8)
        ensures
            final(self).slots() == old(self).slots().update(10, step(old(self).slots()[10], name@, value)),
    {
        update_slot(&mut self.off_rebounds, name, value);
        assert(final(self).slots() =~= old(self).slots().update(10, step(old(self).slots()[10], name@, value)));
    }

    pub fn update_def_rebounds(&mut self, name: String, value: u8)
        ensures
            final(self).slots() == old(self).slots().update(11, step(old(self).slots()[11], name@, value)),
    {
        update_slot(&mut self.def_rebounds, name, value);
        assert(final(self).slots() =~= old(self).slots().update(11, step(old(self).slots()[11], name@, value)));
    }
}

impl BoxScore {
    /// The leaders of a roster: for each category independently, the first
    /// player to reach the largest value.
    pub fn from_roster(players: &Vec<StatPlayer>) -> (r: BoxScore)
        ensures
            r.slots() == aggregate(roster_view(players@)),
    {
        let mut ret = BoxScore::new();
        let mut i: usize = 0;
        assert(ret.slots() =~= aggregate(roster_view(players@.subrange(0, 0))));
        while i < players.len()
            invariant
                i <= players@.len(),
                ret.slots() == aggregate(roster_view(players@.subrange(0, i as int))),
            decreases players@.len() - i,
        {
            let ghost prev = roster_view(players@.subrange(0, i as int));
            let ghost next = roster_view(players@.subrange(0, i + 1));
            assert(next.drop_last() =~= prev);
            assert(next.last() == players@[i as int]@);
            let stat = &players[i];
            let st = stat.statistics;
            ret.update_assist(stat.player_name.clone(), st.assists);
            ret.update_blocks(stat.player_name.clone(), st.blocks);
            ret.update_fouled(stat.player_name.clone(), st.fouls_drawn);
            ret.update_fouler(stat.player_name.clone(), st.fouls_personal);
            ret.update_steals(stat.player_name.clone(), st.steals);
            ret.update_turnovers(stat.player_name.clone(), st.turnovers);
            ret.update_points(stat.player_name.clone(), st.points);
            ret.update_paint_points(stat.player_name.clone(), st.points_in_the_paint);
            ret.update_threes(stat.player_name.clone(), st.three_pointers_made);
            ret.update_rebounds(stat.player_name.clone(), st.rebounds_total);
            ret.update_off_rebounds(stat.player_name.clone(), st.rebounds_offensive);
            ret.update_def_rebounds(stat.player_name.clone(), st.rebounds_defensive);
            assert forall|k: int| 0 <= k < 12 implies #[trigger] aggregate(next)[k] == step(
                aggregate(prev)[k],
                players@[i as int]@.name,
                players@[i as int]@.stats.value(k),
            ) by {}
            assert(ret.slots() =~= aggregate(next));
            i = i + 1;
        }
        assert(players@.subrange(0, players@.len() as int) =~= players@);
        ret
    }
}

/// The categories' values of a statistics object; a missing one is zero, and
/// anything but an object fails.
pub open spec fn stats_of(j: Json) -> Option<Stats> {
    let f = |key: Seq<char>| j.field(key);
    if j is Object && dflt_u8_ok(f("assists"@)) && dflt_u8_ok(f("blocks"@)) && dflt_u8_ok(f("foulsDrawn"@))
        && dflt_u8_ok(f("foulsPersonal"@)) && dflt_u8_ok(f("steals"@)) && dflt_u8_ok(f("turnovers"@))
        && dflt_u8_ok(f("points"@)) && dflt_u8_ok(f("pointsInThePaint"@)) && dflt_u8_ok(
        f("threePointersMade"@),
    ) && dflt_u8_ok(f("reboundsTotal"@)) && dflt_u8_ok(f("reboundsOffensive"@)) && dflt_u8_ok(
        f("reboundsDefensive"@),
    ) {
        Some(
            Stats {
                assists: dflt_u8_val(f("assists"@)),
                blocks: dflt_u8_val(f("blocks"@)),
                fouls_drawn: dflt_u8_val(f("foulsDrawn"@)),
                fouls_personal: dflt_u8_val(f("foulsPersonal"@)),
                steals: dflt_u8_val(f("steals"@)),
                turnovers: dflt_u8_val(f("turnovers"@)),
                points: dflt_u8_val(f("points"@)),
                points_in_the_paint: dflt_u8_val(f("pointsInThePaint"@)),
                three_pointers_made: dflt_u8_val(f("threePointersMade"@)),
                rebounds_total: dflt_u8_val(f("reboundsTotal"@)),
                rebounds_offensive: dflt_u8_val(f("reboundsOffensive"@)),
                rebounds_defensive: dflt_u8_val(f("reboundsDefensive"@)),
            },
        )
    } else {
        None
    }
}

/// A roster entry: the name under `playerName` or `nameI`, and the statistics.
pub open spec fn player_of(j: Json) -> Option<PlayerView> {
    let name = j.field_any(seq!["playerName"@, "nameI"@]);
    let stats = j.field("statistics"@);
    if name is Some && name.unwrap().str_of() is Some && stats is Some && stats_of(stats.unwrap()) is Some {
        Some(PlayerView { name: name.unwrap().str_of().unwrap(), stats: stats_of(stats.unwrap()).unwrap() })
    } else {
        None
    }
}

/// An array of roster entries, every one of which decodes.
pub open spec fn roster_of(j: Json) -> Option<Seq<PlayerView>> {
    match j {
        Json::Array(items) => if forall|i: int| 0 <= i < items@.len() ==> (#[trigger] player_of(items@[i])) is Some {
            Some(Seq::new(items@.len(), |i: int| player_of(items@[i]).unwrap()))
        } else {
            None
        },
        _ => None,
    }
}

fn member_u8(j: &Json, key: &str) -> (r: Option<u8>)
    ensures
        r is Some <==> dflt_u8_ok(j.field(key@)),
        r matches Some(n) ==> n == dflt_u8_val(j.field(key@)),
{
    match j.get(key) {
        None => Some(0),
        Some(x) => match x {
            Json::UInt(u) => if *u <= 255 {
                Some(*u as u8)
            } else {
                None
            },
            _ => None,
        },
    }
}

impl Stats {
    pub fn from_json(j: &Json) -> (r: Option<Stats>)
        ensures
            r == stats_of(*j),
    {
        if !matches!(j, Json::Object(_)) {
            return None;
        }
        let assists = member_u8(j, "assists")?;
        let blocks = member_u8(j, "blocks")?;
        let fouls_drawn = member_u8(j, "foulsDrawn")?;
        let fouls_personal = member_u8(j, "foulsPersonal")?;
        let steals = member_u8(j, "steals")?;
        let turnovers = member_u8(j, "turnovers")?;
        let points = member_u8(j, "points")?;
        let points_in_the_paint = member_u8(j, "pointsInThePaint")?;
        let three_pointers_made = member_u8(j, "threePointersMade")?;
        let rebounds_total = member_u8(j, "reboundsTotal")?;
        let rebounds_offensive = member_u8(j, "reboundsOffensive")?;
        let rebounds_defensive = member_u8(j, "reboundsDefensive")?;
        Some(
            Stats {
                assists,
                blocks,
                fouls_drawn,
                fouls_personal,
                steals,
                turnovers,
                points,
                points_in_the_paint,
                three_pointers_made,
                rebounds_total,
                rebounds_offensive,
                rebounds_defensive,
            },
        )
    }
}

impl StatPlayer {
    pub fn from_json(j: &Json) -> (r: Option<StatPlayer>)
        ensures
            r is Some <==> player_of(*j) is Some,
            r matches Some(p) ==> player_of(*j) == Some(p@),
    {
        let player_name = match j.get2("playerName", "nameI")? {
            Json::Str(s) => s.clone(),
            _ => {
                return None;
            },
        };
        let statistics = Stats::from_json(j.get("statistics")?)?;
        Some(StatPlayer { player_name, statistics })
    }
}

/// Decodes a roster array; nothing if any entry fails to decode.
pub fn roster_from_json(j: &Json) -> (r: Option<Vec<StatPlayer>>)
    ensures
        r is Some <==> roster_of(*j) is Some,
        r matches Some(v) ==> roster_view(v@) == roster_of(*j).unwrap(),
{
    match j {
        Json::Array(items) => {
            let mut out: Vec<StatPlayer> = Vec::new();
            let mut i: usize = 0;
            while i < items.len()
                invariant
                    *j == Json::Array(*items),
                    i <= items@.len(),
                    out@.len() == i,
                    forall|k: int| 0 <= k < i ==> (#[trigger] player_of(items@[k])) is Some,
                    forall|k: int| 0 <= k < i ==> player_of(items@[k]) == Some((#[trigger] out@[k])@),
                decreases items@.len() - i,
            {
                match StatPlayer::from_json(&items[i]) {
                    Some(p) => out.push(p),
                    None => {
                        return None;
                    },
                }
                i = i + 1;
            }
            assert(roster_view(out@) =~= roster_of(*j).unwrap());
            Some(out)
        },
        _ => None,
    }
}

impl BoxScore {
    /// The leaders of a roster given as JSON; nothing if the roster does not
    /// decode.
    pub fn try_from_value(value: &Json) -> (r: Option<BoxScore>)
        ensures
            r is Some <==> roster_of(*value) is Some,
            r matches Some(b) ==> b.slots() == aggregate(roster_of(*value).unwrap()),
    {
        let players = roster_from_json(value)?;
        Some(BoxScore::from_roster(&players))
    }
}

/// A team's code and its leaders.
#[derive(Debug, Clone, PartialEq)]
pub struct TeamBoxScore {
    pub abv: String,
    pub box_score: BoxScore,
}

/// A team's entry of a box-score document: its code and the leaders of its
/// roster.
pub open spec fn team_box_of(j: Json) -> Option<(Seq<char>, Seq<Option<(Seq<char>, u8)>>)> {
    let players = j.field("players"@);
    let code = j.field("teamTricode"@);
    if players is Some && roster_of(players.unwrap()) is Some && code is Some && code.unwrap().str_of() is Some {
        Some((code.unwrap().str_of().unwrap(), aggregate(roster_of(players.unwrap()).unwrap())))
    } else {
        None
    }
}

pub open spec fn team_box_view(t: TeamBoxScore) -> (Seq<char>, Seq<Option<(Seq<char>, u8)>>) {
    (t.abv@, t.box_score.slots())
}

/// A box-score document: the game's id and both teams' entries.
pub open spec fn game_box_of(j: Json) -> Option<(Seq<char>, (Seq<char>, Seq<Option<(Seq<char>, u8)>>), (Seq<char>, Seq<Option<(Seq<char>, u8)>>))> {
    let game = j.field("game"@);
    if game is None {
        None
    } else {
        let g = game.unwrap();
        let id = g.field("gameId"@);
        let home = g.field("homeTeam"@);
        let away = g.field("awayTeam"@);
        if id is Some && id.unwrap().str_of() is Some && home is Some && team_box_of(home.unwrap()) is Some
            && away is Some && team_box_of(away.unwrap()) is Some {
            Some((id.unwrap().str_of().unwrap(), team_box_of(home.unwrap()).unwrap(), team_box_of(away.unwrap()).unwrap()))
        } else {
            None
        }
    }
}

impl TeamBoxScore {
    pub fn try_from_obj(obj: &Json) -> (r: Option<TeamBoxScore>)
        ensures
            r is Some <==> team_box_of(*obj) is Some,
            r matches Some(t) ==> team_box_of(*obj) == Some(team_box_view(t)),
    {
        let players = obj.get("players")?;
        let box_score = BoxScore::try_from_value(players)?;
        let abv = match obj.get("teamTricode")? {
            Json::Str(s) => s.clone(),
            _ => {
                return None;
            },
        };
        Some(TeamBoxScore { abv, box_score })
    }
}

/// The leaders of both teams of one game.
#[derive(Debug, Clone, PartialEq)]
pub struct GameBoxScores {
    pub id: String,
    pub home: TeamBoxScore,
    pub away: TeamBoxScore,
}

impl GameBoxScores {
    /// Decodes a box-score document: `game` with `gameId`, `homeTeam` and
    /// `awayTeam`.
    pub fn try_from_obj(obj: &Json) -> (r: Option<GameBoxScores>)
        ensures
            r is Some <==> game_box_of(*obj) is Some,
            r matches Some(g) ==> game_box_of(*obj) == Some((g.id@, team_box_view(g.home), team_box_view(g.away))),
    {
        let game = obj.get("game")?;
        let id = match game.get("gameId")? {
            Json::Str(s) => s.clone(),
            _ => {
                return None;
            },
        };
        let home = TeamBoxScore::try_from_obj(game.get("homeTeam")?)?;
        let away = TeamBoxScore::try_from_obj(game.get("awayTeam")?)?;
        Some(GameBoxScores { id, home, away })
    }
}

/// The categories whose slot is filled, in category order, among the first `n`.
pub open spec fn populated_upto(slots: Seq<Option<(Seq<char>, u8)>>, n: int) -> Seq<u8>
    decreases n,
{
    if n <= 0 {
        Seq::empty()
    } else if slots[n - 1] is Some {
        populated_upto(slots, n - 1).push((n - 1) as u8)
    } else {
        populated_upto(slots, n - 1)
    }
}

pub open spec fn populated(b: BoxScore) -> Seq<u8> {
    populated_upto(b.slots(), 12)
}

fn push_if(v: &mut Vec<u8>, slot: &Option<TopPlayerByValue>, k: u8)
    ensures
        final(v)@ == if slot is Some {
            old(v)@.push(k)
        } else {
            old(v)@
        },
{
    if slot.is_some() {
        v.push(k);
    }
}

/// The categories a box score has a leader for, in category order: the
/// indices a display cycles through.
pub fn get_indexes(box_scores: &BoxScore) -> (r: Vec<u8>)
    ensures
        r@ == populated(*box_scores),
{
    let ghost s = box_scores.slots();
    let mut ret: Vec<u8> = Vec::new();
    assert(ret@ =~= populated_upto(s, 0));
    assert(s[0] == top_view(box_scores.assist));
    push_if(&mut ret, &box_scores.assist, 0);
    assert(ret@ == populated_upto(s, 1));
    push_if(&mut ret, &box_scores.blocks, 1);
    assert(ret@ == populated_upto(s, 2));
    push_if(&mut ret, &box_scores.fouled, 2);
    assert(ret@ == populated_upto(s, 3));
    push_if(&mut ret, &box_scores.fouler, 3);
    assert(ret@ == populated_upto(s, 4));
    push_if(&mut ret, &box_scores.steals, 4);
    assert(ret@ == populated_upto(s, 5));
    push_if(&mut ret, &box_scores.turnovers, 5);
    assert(ret@ == populated_upto(s, 6));
    push_if(&mut ret, &box_scores.points, 6);
    assert(ret@ == populated_upto(s, 7));
    push_if(&mut ret, &box_scores.paint_points, 7);
    assert(ret@ == populated_upto(s, 8));
    push_if(&mut ret, &box_scores.threes, 8);
    assert(ret@ == populated_upto(s, 9));
    push_if(&mut ret, &box_scores.rebounds, 9);
    assert(ret@ == populated_upto(s, 10));
    push_if(&mut ret, &box_scores.off_rebounds, 10);
    assert(ret@ == populated_upto(s, 11));
    push_if(&mut ret, &box_scores.def_rebounds, 11);
    assert(ret@ == populated_upto(s, 12));
    ret
}

/// The next category of a round-robin over `indexes`, and the cursor after
/// it; nothing when there is no category.
pub fn cycle_next(indexes: &Vec<u8>, cursor: usize) -> (r: Option<(u8, usize)>)
    ensures
        indexes@.len() == 0 <==> r is None,
        r matches Some(p) ==> p.0 == indexes@[(cursor as int) % (indexes@.len() as int)] && p.1 as int
            == ((cursor as int) % (indexes@.len() as int) + 1) % (indexes@.len() as int),
{
    let n = indexes.len();
    if n == 0 {
        return None;
    }
    let at = cursor % n;
    Some((indexes[at], (at + 1) % n))
}

/// The leaders depend on the roster alone: two box scores built from rosters
/// with the same content hold the same leaders.
pub proof fn lemma_leaders_deterministic(a: Seq<StatPlayer>, b: Seq<StatPlayer>, x: BoxScore, y: BoxScore)
    requires
        roster_view(a) == roster_view(b),
        x.slots() == aggregate(roster_view(a)),
        y.slots() == aggregate(roster_view(b)),
    ensures
        x.slots() == y.slots(),
{
}

/// Over a non-empty roster every category has a leader, and it is the first
/// player to reach the category's largest value: no player has more, and
/// every player before it has less.
pub proof fn lemma_leader_is_first_maximum(roster: Seq<PlayerView>, k: int) -> (i: int)
    requires
        roster.len() > 0,
    ensures
        0 <= i < roster.len(),
        leader(roster, k) == Some((roster[i].name, roster[i].stats.value(k))),
        forall|j: int| 0 <= j < roster.len() ==> (#[trigger] roster[j]).stats.value(k) <= roster[i].stats.value(k),
        forall|j: int| 0 <= j < i ==> (#[trigger] roster[j]).stats.value(k) < roster[i].stats.value(k),
    decreases roster.len(),
{
    if roster.len() == 1 {
        0
    } else {
        let init = roster.drop_last();
        let p = lemma_leader_is_first_maximum(init, k);
        let n = roster.len() - 1;
        assert forall|j: int| 0 <= j < n implies #[trigger] roster[j] == init[j] by {}
        if init[p].stats.value(k) < roster[n].stats.value(k) {
            assert forall|j: int| 0 <= j < roster.len() implies (#[trigger] roster[j]).stats.value(k)
                <= roster[n].stats.value(k) by {
                if j < n {
                    assert(roster[j] == init[j]);
                }
            }
            n
        } else {
            assert forall|j: int| 0 <= j < roster.len() implies (#[trigger] roster[j]).stats.value(k)
                <= roster[p].stats.value(k) by {
                if j < n {
                    assert(roster[j] == init[j]);
                }
            }
            p
        }
    }
}

} // verus!
