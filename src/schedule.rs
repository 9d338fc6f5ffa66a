//! Scoreboard documents and the choice of the game to show.
use vstd::prelude::*;
use crate::action::{duration_to_clock, duration_to_clock_spec};
use crate::json::Json;
use crate::datetime::LocalTime;
use crate::text::{decimal, push_decimal, push_str, str_eq};
use crate::{Game, GameView, game_of, u8_of};

verus! {

/// The games of a scoreboard array; nothing unless every entry decodes.
pub open spec fn games_of(j: Json) -> Option<Seq<GameView>> {
    match j {
        Json::Array(items) => if forall|i: int| 0 <= i < items@.len() ==> (#[trigger] game_of(items@[i])) is Some {
            Some(Seq::new(items@.len(), |i: int| game_of(items@[i]).unwrap()))
        } else {
            None
        },
        _ => None,
    }
}

pub open spec fn games_view(v: Seq<Game>) -> Seq<GameView> {
    v.map_values(|g: Game| g@)
}

pub fn games_from_json(j: &Json) -> (r: Option<Vec<Game>>)
    ensures
        r is Some <==> games_of(*j) is Some,
        r matches Some(v) ==> games_view(v@) == games_of(*j).unwrap(),
{
    match j {
        Json::Array(items) => {
            let mut out: Vec<Game> = Vec::new();
            let mut i: usize = 0;
            while i < items.len()
                invariant
                    *j == Json::Array(*items),
                    i <= items@.len(),
                    out@.len() == i,
                    forall|k: int| 0 <= k < i ==> (#[trigger] game_of(items@[k])) is Some,
                    forall|k: int| 0 <= k < i ==> game_of(items@[k]) == Some((#[trigger] out@[k])@),
                decreases items@.len() - i,
            {
                match Game::from_json(&items[i]) {
                    Some(g) => out.push(g),
                    None => {
                        return None;
                    },
                }
                i = i + 1;
            }
            assert(games_view(out@) =~= games_of(*j).unwrap());
            Some(out)
        },
        _ => None,
    }
}

/// One day's scoreboard.
#[derive(Debug, Clone, PartialEq)]
pub struct Day {
    pub num_games: u8,
    pub games: Vec<Game>,
}

impl Day {
    pub fn from_json(j: &Json) -> (r: Option<Day>)
        ensures
            r is Some <==> (j.field("numGames"@) is Some && u8_of(j.field("numGames"@).unwrap()) is Some
                && j.field("games"@) is Some && games_of(j.field("games"@).unwrap()) is Some),
            r matches Some(d) ==> Some(d.num_games) == u8_of(j.field("numGames"@).unwrap())
                && games_view(d.games@) == games_of(j.field("games"@).unwrap()).unwrap(),
    {
        let num_games = match j.get("numGames")? {
            Json::UInt(n) => if *n <= 255 {
                *n as u8
            } else {
                return None;
            },
            _ => {
                return None;
            },
        };
        let games = games_from_json(j.get("games")?)?;
        Some(Day { num_games, games })
    }
}

/// Today's scoreboard document.
#[derive(Debug, Clone, PartialEq)]
pub struct Scoreboard {
    pub game_date: String,
    pub league_id: String,
    pub games: Vec<Game>,
}

#[derive(Debug, Clone, PartialEq)]
pub struct Today {
    pub scoreboard: Scoreboard,
}

impl Today {
    pub fn from_json(j: &Json) -> (r: Option<Today>)
        ensures
            r matches Some(t) ==> j.field("scoreboard"@) is Some && Some(games_view(t.scoreboard.games@))
                == games_of(j.field("scoreboard"@).unwrap().field("games"@).unwrap()),
            r matches Some(t) ==> j.field("scoreboard"@).unwrap().field("gameDate"@).unwrap().str_of()
                == Some(t.scoreboard.game_date@),
            r matches Some(t) ==> j.field("scoreboard"@).unwrap().field("leagueId"@).unwrap().str_of()
                == Some(t.scoreboard.league_id@),
            (j.field("scoreboard"@) is Some && j.field("scoreboard"@).unwrap().field("gameDate"@) is Some
                && j.field("scoreboard"@).unwrap().field("gameDate"@).unwrap().str_of() is Some
                && j.field("scoreboard"@).unwrap().field("leagueId"@) is Some
                && j.field("scoreboard"@).unwrap().field("leagueId"@).unwrap().str_of() is Some
                && j.field("scoreboard"@).unwrap().field("games"@) is Some
                && games_of(j.field("scoreboard"@).unwrap().field("games"@).unwrap()) is Some)
                ==> r is Some,
    {
        let sb = j.get("scoreboard")?;
        let game_date = match sb.get("gameDate")? {
            Json::Str(s) => s.clone(),
            _ => {
                return None;
            },
        };
        let league_id = match sb.get("leagueId")? {
            Json::Str(s) => s.clone(),
            _ => {
                return None;
            },
        };
        let games = games_from_json(sb.get("games")?)?;
        Some(Today { scoreboard: Scoreboard { game_date, league_id, games } })
    }
}

/// Which games a search accepts.
#[derive(Debug, Clone, Copy, PartialEq, Eq, Structural)]
pub enum Wanted {
    Any,
    Finished,
    Unfinished,
}

pub open spec fn plays_in(g: GameView, team: Seq<char>) -> bool {
    g.home.tri_code == team || g.away.tri_code == team
}

pub open spec fn wanted(g: GameView, team: Seq<char>, w: Wanted) -> bool {
    plays_in(g, team) && match w {
        Wanted::Any => true,
        Wanted::Finished => g.end_time is Some,
        Wanted::Unfinished => g.end_time is None,
    }
}

/// The position of the first game the search accepts.
pub fn find_game(games: &Vec<Game>, team: &str, w: Wanted) -> (r: Option<usize>)
    ensures
        r is None ==> forall|i: int| 0 <= i < games@.len() ==> !wanted(#[trigger] games@[i]@, team@, w),
        r matches Some(i) ==> i < games@.len() && wanted(games@[i as int]@, team@, w) && forall|j: int|
            0 <= j < i ==> !wanted(#[trigger] games@[j]@, team@, w),
{
    let mut i: usize = 0;
    while i < games.len()
        invariant
            i <= games@.len(),
            forall|j: int| 0 <= j < i ==> !wanted(#[trigger] games@[j]@, team@, w),
        decreases games@.len() - i,
    {
        let g = &games[i];
        let plays = str_eq(g.home.tri_code.as_str(), team) || str_eq(g.away.tri_code.as_str(), team);
        let ok = match w {
            Wanted::Any => true,
            Wanted::Finished => g.end_time.is_some(),
            Wanted::Unfinished => g.end_time.is_none(),
        };
        if plays && ok {
            return Some(i);
        }
        i = i + 1;
    }
    None
}

/// The first game of `team` the search accepts, taken out of `games`.
pub fn select_game(games: Vec<Game>, team: &str, w: Wanted) -> (r: Option<Game>)
    ensures
        r is None <==> forall|i: int| 0 <= i < games@.len() ==> !wanted(#[trigger] games@[i]@, team@, w),
        r matches Some(g) ==> exists|i: int|
            0 <= i < games@.len() && #[trigger] games@[i]@ == g@ && wanted(g@, team@, w) && forall|j: int|
                0 <= j < i ==> !wanted(#[trigger] games@[j]@, team@, w),
{
    let mut games = games;
    let ghost all = games@;
    match find_game(&games, team, w) {
        Some(i) => {
            let g = games.remove(i);
            assert(all[i as int] == g);
            Some(g)
        },
        None => None,
    }
}

/// The clock of a snapshot in display form, where it reads as a duration.
pub open spec fn normalized_clock(c: Seq<char>) -> Seq<char> {
    match duration_to_clock_spec(c) {
        Some(d) => d,
        None => c,
    }
}

/// Puts the clock of a snapshot into display form; a clock that does not
/// read as a duration is kept as it is.
pub fn normalize_clock(game: &mut Game)
    ensures
        final(game)@ == (GameView { clock: normalized_clock(old(game)@.clock), ..old(game)@ }),
{
    match duration_to_clock(game.clock.as_str()) {
        Some(c) => {
            game.clock = c;
        },
        None => {},
    }
}

/// Today's game of `team`, with its clock in display form.
pub fn select_today_game(games: Vec<Game>, team: &str) -> (r: Option<Game>)
    ensures
        r is None <==> forall|i: int| 0 <= i < games@.len() ==> !plays_in(#[trigger] games@[i]@, team@),
        r matches Some(g) ==> exists|i: int|
            0 <= i < games@.len() && plays_in(#[trigger] games@[i]@, team@) && g@ == (GameView {
                clock: normalized_clock(games@[i]@.clock),
                ..games@[i]@
            }) && forall|j: int| 0 <= j < i ==> !plays_in(#[trigger] games@[j]@, team@),
{
    assert forall|i: int| 0 <= i < games@.len() implies wanted(games@[i]@, team@, Wanted::Any) == plays_in(
        #[trigger] games@[i]@,
        team@,
    ) by {}
    match select_game(games, team, Wanted::Any) {
        Some(g) => {
            let mut g = g;
            normalize_clock(&mut g);
            Some(g)
        },
        None => None,
    }
}

/// The most recent finished game of `team` on one day's scoreboard.
pub fn select_last_game(games: Vec<Game>, team: &str) -> (r: Option<Game>)
    ensures
        r is None <==> forall|i: int| 0 <= i < games@.len() ==> !wanted(#[trigger] games@[i]@, team@, Wanted::Finished),
        r matches Some(g) ==> plays_in(g@, team@) && g@.end_time is Some && exists|i: int|
            0 <= i < games@.len() && #[trigger] games@[i]@ == g@ && forall|j: int|
                0 <= j < i ==> !wanted(#[trigger] games@[j]@, team@, Wanted::Finished),
{
    select_game(games, team, Wanted::Finished)
}

/// The next unfinished game of `team` on one day's scoreboard.
pub fn select_next_game(games: Vec<Game>, team: &str) -> (r: Option<Game>)
    ensures
        r is None <==> forall|i: int| 0 <= i < games@.len() ==> !wanted(#[trigger] games@[i]@, team@, Wanted::Unfinished),
        r matches Some(g) ==> plays_in(g@, team@) && g@.end_time is None && exists|i: int|
            0 <= i < games@.len() && #[trigger] games@[i]@ == g@ && forall|j: int|
                0 <= j < i ==> !wanted(#[trigger] games@[j]@, team@, Wanted::Unfinished),
{
    select_game(games, team, Wanted::Unfinished)
}

/// A number written with at least two digits, zero-padded on the left.
pub open spec fn two_digits(n: nat) -> Seq<char> {
    if n < 10 {
        "0"@ + decimal(n)
    } else {
        decimal(n)
    }
}

pub open spec fn signed_decimal(y: int) -> Seq<char> {
    if y < 0 {
        "-"@ + decimal((-y) as nat)
    } else {
        decimal(y as nat)
    }
}

/// The address of the scoreboard of one date.
pub open spec fn day_url(d: LocalTime) -> Seq<char> {
    "https://data.nba.net/prod/v1/"@ + signed_decimal(d.year as int) + two_digits(d.month as nat)
        + two_digits(d.day as nat) + "/scoreboard.json"@
}

fn push_two_digits(s: &mut String, n: u8)
    ensures
        final(s)@ == old(s)@ + two_digits(n as nat),
{
    let ghost start = s@;
    if n < 10 {
        push_str(s, "0");
    }
    push_decimal(s, n as u64);
    assert(s@ =~= start + two_digits(n as nat));
}

pub fn url_for_date(date: &LocalTime) -> (r: String)
    ensures
        r@ == day_url(*date),
{
    let mut r = "https://data.nba.net/prod/v1/".to_owned();
    let ghost start = r@;
    if date.year < 0 {
        push_str(&mut r, "-");
        push_decimal(&mut r, (-(date.year as i64)) as u64);
    } else {
        push_decimal(&mut r, date.year as u64);
    }
    assert(r@ =~= start + signed_decimal(date.year as int));
    push_two_digits(&mut r, date.month);
    push_two_digits(&mut r, date.day);
    push_str(&mut r, "/scoreboard.json");
    r
}

} // verus!
