//! What the driver shows on each cycle, given what it fetched.
use vstd::prelude::*;
use crate::action::Action;
use crate::box_score::{BoxScore, GameBoxScores, cycle_next, get_indexes, populated};
use crate::render::{action_text, box_score, leader_text};
use crate::text::push_str;
use crate::datetime::UtcInstant;
use crate::{Game, Line, rendered};

verus! {

pub open spec fn is_upper(c: char) -> bool {
    'A' <= c && c <= 'Z'
}

/// Two characters equal up to ASCII case.
pub open spec fn chars_eq_ignore_case(a: char, b: char) -> bool {
    a == b || (is_upper(a) && a as u32 + 32 == b as u32) || (is_upper(b) && b as u32 + 32 == a as u32)
}

pub open spec fn eq_ignore_ascii_case_spec(a: Seq<char>, b: Seq<char>) -> bool {
    a.len() == b.len() && forall|i: int| 0 <= i < a.len() ==> chars_eq_ignore_case(#[trigger] a[i], b[i])
}

/// Equality of two strings up to ASCII case.
pub fn eq_ignore_ascii_case(a: &str, b: &str) -> (r: bool)
    ensures
        r == eq_ignore_ascii_case_spec(a@, b@),
{
    let n = a.unicode_len();
    if n != b.unicode_len() {
        return false;
    }
    let mut i: usize = 0;
    while i < n
        invariant
            n == a@.len(),
            n == b@.len(),
            i <= n,
            forall|j: int| 0 <= j < i ==> chars_eq_ignore_case(#[trigger] a@[j], b@[j]),
        decreases n - i,
    {
        let x = a.get_char(i);
        let y = b.get_char(i);
        let same = x == y || ('A' <= x && x <= 'Z' && (x as u32) + 32 == y as u32) || ('A' <= y && y
            <= 'Z' && (y as u32) + 32 == x as u32);
        if !same {
            return false;
        }
        i = i + 1;
    }
    true
}

/// The leaders of `team`: the home team's if its code matches up to case,
/// else the away team's.
pub fn team_box_score(scores: GameBoxScores, team: &str) -> (r: BoxScore)
    ensures
        r == if eq_ignore_ascii_case_spec(scores.home.abv@, team@) {
            scores.home.box_score
        } else {
            scores.away.box_score
        },
{
    if eq_ignore_ascii_case(scores.home.abv.as_str(), team) {
        scores.home.box_score
    } else {
        scores.away.box_score
    }
}

/// A game's frame followed by the line of its latest play, if there is one.
pub fn with_latest_action(frame: String, plays: &Vec<Action>) -> (r: String)
    ensures
        r@ == if plays@.len() == 0 {
            frame@
        } else {
            frame@ + rendered((1u8, action_text(plays@.last()@)))
        },
{
    let mut frame = frame;
    let n = plays.len();
    if n > 0 {
        let line = crate::render::action(&plays[n - 1]);
        push_str(&mut frame, line.as_str());
    }
    frame
}

/// The frame shown when no game is found.
pub fn no_game_frame() -> (r: String)
    ensures
        r@ == rendered((2u8, "No Game Found"@)),
{
    Line::large("No Game Found").render()
}

/// The leader line for the category under the cursor, and the cursor after it.
pub open spec fn leader_line(b: BoxScore, cursor: usize) -> (Seq<char>, usize) {
    let idx = populated(b);
    if idx.len() == 0 {
        (Seq::empty(), cursor)
    } else {
        let at = (cursor as int) % (idx.len() as int);
        let k = idx[at] as int;
        (
            rendered((1u8, leader_text(k, b.slots()[k].unwrap().0, b.slots()[k].unwrap().1))),
            ((at + 1) % (idx.len() as int)) as usize,
        )
    }
}

proof fn lemma_populated_upto_bounds(b: BoxScore, n: int)
    requires
        0 <= n <= 12,
    ensures
        forall|i: int| 0 <= i < crate::box_score::populated_upto(b.slots(), n).len() ==> {
            let k = #[trigger] crate::box_score::populated_upto(b.slots(), n)[i] as int;
            0 <= k < n && b.slots()[k] is Some
        },
    decreases n,
{
    if n > 0 {
        lemma_populated_upto_bounds(b, n - 1);
    }
}

/// A finished game's frame: the game's own lines, the leader of the category
/// under the cursor when the leaders are known, then the next game's lines.
/// Returns the frame and the cursor for the next cycle.
pub fn ended_frame(base: &str, leaders: &Option<BoxScore>, cursor: usize, trailer: &str) -> (r: (String, usize))
    ensures
        r.0@ == base@ + match leaders {
            Some(b) => leader_line(*b, cursor).0,
            None => Seq::empty(),
        } + trailer@,
        r.1 == match leaders {
            Some(b) => leader_line(*b, cursor).1,
            None => cursor,
        },
{
    let mut out = base.to_owned();
    let mut next = cursor;
    match leaders {
        Some(b) => {
            let idx = get_indexes(b);
            proof {
                lemma_populated_upto_bounds(*b, 12);
            }
            match cycle_next(&idx, cursor) {
                Some((k, c)) => {
                    assert(k < 12);
                    match box_score(b, k) {
                        Some(line) => push_str(&mut out, line.as_str()),
                        None => {},
                    }
                    next = c;
                },
                None => {
                    assert(out@ =~= base@ + Seq::<char>::empty());
                },
            }
        },
        None => {
            assert(out@ =~= base@ + Seq::<char>::empty());
        },
    }
    push_str(&mut out, trailer);
    (out, next)
}

/// Which game the driver is looking for.
#[derive(Debug, Clone, Copy, PartialEq, Eq, Structural)]
pub enum Search {
    /// Today's game of the team.
    Today,
    /// The team's most recent finished game.
    Last,
    /// The team's next game.
    Next,
}

/// What the driver does after a search.
#[derive(Debug, Clone, Copy, PartialEq, Eq, Structural)]
pub enum Decision {
    /// Look for another game.
    Fetch(Search),
    /// Show the found game as finished, with its leaders and the next game.
    ShowEnded,
    /// Show today's game, with its latest play when it is active.
    ShowToday,
    /// Show the next game.
    ShowNext,
    /// Show that no game was found.
    ShowNoGame,
}

pub open spec fn decide_spec(search: Search, found: Option<Game>) -> Decision {
    match (search, found) {
        (Search::Today, Some(g)) => if g.has_ended_spec() {
            Decision::ShowEnded
        } else {
            Decision::ShowToday
        },
        (Search::Today, None) => Decision::Fetch(Search::Last),
        (Search::Last, Some(_)) => Decision::ShowEnded,
        (Search::Last, None) => Decision::Fetch(Search::Next),
        (Search::Next, Some(_)) => Decision::ShowNext,
        (Search::Next, None) => Decision::ShowNoGame,
    }
}

/// One step of a cycle: given the search just made and what it found, the
/// next thing to do. Today's game comes first, then the last finished game,
/// then the next game.
pub fn decide(search: Search, found: Option<&Game>) -> (r: Decision)
    ensures
        r == decide_spec(
            search,
            match found {
                Some(g) => Some(*g),
                None => None,
            },
        ),
{
    match (search, found) {
        (Search::Today, Some(g)) => if g.has_ended() {
            Decision::ShowEnded
        } else {
            Decision::ShowToday
        },
        (Search::Today, None) => Decision::Fetch(Search::Last),
        (Search::Last, Some(_)) => Decision::ShowEnded,
        (Search::Last, None) => Decision::Fetch(Search::Next),
        (Search::Next, Some(_)) => Decision::ShowNext,
        (Search::Next, None) => Decision::ShowNoGame,
    }
}

/// Seconds in the wait used when no next game is known.
pub const ENDED_WAIT_SECS: i64 = 43200;

/// Until when (seconds since the epoch) a finished game stays on display:
/// the next game's start, or twelve hours after `now` when there is none.
pub fn ended_deadline(next: Option<&Game>, now: &UtcInstant) -> (r: i64)
    ensures
        r == match next {
            Some(g) => g.start_time.secs as int,
            None => if now.secs <= i64::MAX - 43200 {
                now.secs + 43200
            } else {
                i64::MAX as int
            },
        },
{
    match next {
        Some(g) => g.start_time.secs,
        None => if now.secs <= i64::MAX - ENDED_WAIT_SECS {
            now.secs + ENDED_WAIT_SECS
        } else {
            i64::MAX
        },
    }
}

} // verus!
