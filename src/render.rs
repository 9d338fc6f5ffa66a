//! Fixed-width layout of the display frame.
use vstd::prelude::*;
use crate::action::Action;
use crate::box_score::{BoxScore, TopPlayerByValue};
use crate::datetime::{LocalTime, UtcInstant, local_time, now};
use crate::text::{decimal, push_decimal, push_spaces, push_str, spaces};
use crate::{Game, Line, rendered};

verus! {

/// Characters per line in the small font.
pub const S_FONT_MAX_WIDTH: usize = 100;

/// Characters per line in the medium font.
pub const M_FONT_MAX_WIDTH: usize = 50;

/// Characters per line in the large font.
pub const L_FONT_MAX_WIDTH: usize = 25;

/// Fixed padding at either end of a two-value line.
pub const SIDE_PADDING: usize = 5;

/// The gap between the two values of a large line.
pub const LARGE_MIDDLE: usize = 9;

/// `value` centered in `width`: the left gets half the spare room rounded
/// down, the right the rest; a value wider than `width` stands alone.
pub open spec fn centered(width: nat, value: Seq<char>) -> Seq<char> {
    if value.len() > width {
        value
    } else {
        let rem = (width - value.len()) as nat;
        spaces(rem / 2) + value + spaces((rem - rem / 2) as nat)
    }
}

/// `s` right-justified in three characters.
pub open spec fn right3(s: Seq<char>) -> Seq<char> {
    if s.len() < 3 {
        spaces((3 - s.len()) as nat) + s
    } else {
        s
    }
}

/// Two values in the large layout.
pub open spec fn large_pair(lhs: Seq<char>, rhs: Seq<char>) -> Seq<char> {
    spaces(5) + right3(lhs) + spaces(9) + right3(rhs) + spaces(5)
}

/// The gap between two records: what fills the medium width, at least one.
pub open spec fn record_gap(h: nat, a: nat) -> nat {
    let used = h + 5 + a + 5;
    if used + 1 <= 50 {
        (50 - used) as nat
    } else {
        1
    }
}

pub open spec fn record_text(win: Seq<char>, loss: Seq<char>) -> Seq<char> {
    "W "@ + win + " L "@ + loss
}

pub open spec fn record_pair(h: Seq<char>, a: Seq<char>) -> Seq<char> {
    spaces(5) + h + spaces(record_gap(h.len(), a.len())) + a + spaces(5)
}

pub fn center(max_width: usize, value: &str) -> (r: String)
    ensures
        r@ == centered(max_width as nat, value@),
{
    let len = value.unicode_len();
    if len > max_width {
        return value.to_owned();
    }
    let rem = max_width - len;
    let left = rem / 2;
    let mut r = String::new();
    push_spaces(&mut r, left);
    push_str(&mut r, value);
    push_spaces(&mut r, rem - left);
    assert(r@ =~= centered(max_width as nat, value@));
    r
}

fn push_right3(r: &mut String, s: &str)
    ensures
        final(r)@ == old(r)@ + right3(s@),
{
    let len = s.unicode_len();
    if len < 3 {
        push_spaces(r, 3 - len);
        push_str(r, s);
        assert(final(r)@ =~= old(r)@ + right3(s@));
    } else {
        push_str(r, s);
    }
}

/// Two values, each right-justified to three characters, in the large layout.
pub fn render_large_three_char_pair(lhs: &str, rhs: &str) -> (r: Line)
    ensures
        r@ == (2u8, large_pair(lhs@, rhs@)),
{
    let mut t = String::new();
    push_spaces(&mut t, SIDE_PADDING);
    push_right3(&mut t, lhs);
    push_spaces(&mut t, LARGE_MIDDLE);
    push_right3(&mut t, rhs);
    push_spaces(&mut t, SIDE_PADDING);
    assert(t@ =~= large_pair(lhs@, rhs@));
    Line::Large(t)
}

pub fn teams_line(game: &Game) -> (r: Line)
    ensures
        r@ == (2u8, large_pair(game.home.tri_code@, game.away.tri_code@)),
{
    render_large_three_char_pair(game.home.tri_code.as_str(), game.away.tri_code.as_str())
}

pub fn scores_line(game: &Game) -> (r: Line)
    ensures
        r@ == (2u8, large_pair(game.home.score@.text(), game.away.score@.text())),
{
    let h = game.home.score.to_string();
    let a = game.away.score.to_string();
    render_large_three_char_pair(h.as_str(), a.as_str())
}

fn record_of(win: &crate::StringOrNumber, loss: &crate::StringOrNumber) -> (r: String)
    ensures
        r@ == record_text(win@.text(), loss@.text()),
{
    let mut r = "W ".to_owned();
    push_str(&mut r, win.to_string().as_str());
    push_str(&mut r, " L ");
    push_str(&mut r, loss.to_string().as_str());
    r
}

/// Both teams' win/loss records in the medium layout.
pub fn record_line(game: &Game) -> (r: Line)
    ensures
        r@ == (1u8, record_pair(
            record_text(game.home.win@.text(), game.home.loss@.text()),
            record_text(game.away.win@.text(), game.away.loss@.text()),
        )),
{
    let h = record_of(&game.home.win, &game.home.loss);
    let a = record_of(&game.away.win, &game.away.loss);
    let hl = h.as_str().unicode_len();
    let al = a.as_str().unicode_len();
    let middle: usize = if hl <= 50 && al <= 50 && hl + al + 10 + 1 <= M_FONT_MAX_WIDTH {
        M_FONT_MAX_WIDTH - (hl + al + 10)
    } else {
        1
    };
    let mut t = String::new();
    push_spaces(&mut t, SIDE_PADDING);
    push_str(&mut t, h.as_str());
    push_spaces(&mut t, middle);
    push_str(&mut t, a.as_str());
    push_spaces(&mut t, SIDE_PADDING);
    assert(t@ =~= record_pair(h@, a@));
    Line::Medium(t)
}

/// The display name of category `k`.
pub open spec fn category_name(k: int) -> Seq<char> {
    if k == 0 {
        "Assists"@
    } else if k == 1 {
        "Blocks"@
    } else if k == 2 {
        "Fouled"@
    } else if k == 3 {
        "Fouler"@
    } else if k == 4 {
        "Steals"@
    } else if k == 5 {
        "Turnovers"@
    } else if k == 6 {
        "Points"@
    } else if k == 7 {
        "Paint Pts"@
    } else if k == 8 {
        "Threes"@
    } else if k == 9 {
        "Rebounds(*)"@
    } else if k == 10 {
        "Rebounds(o)"@
    } else {
        "Rebounds(d)"@
    }
}

fn category_label(k: u8) -> (r: &'static str)
    requires
        k < 12,
    ensures
        r@ == category_name(k as int),
{
    if k == 0 {
        "Assists"
    } else if k == 1 {
        "Blocks"
    } else if k == 2 {
        "Fouled"
    } else if k == 3 {
        "Fouler"
    } else if k == 4 {
        "Steals"
    } else if k == 5 {
        "Turnovers"
    } else if k == 6 {
        "Points"
    } else if k == 7 {
        "Paint Pts"
    } else if k == 8 {
        "Threes"
    } else if k == 9 {
        "Rebounds(*)"
    } else if k == 10 {
        "Rebounds(o)"
    } else {
        "Rebounds(d)"
    }
}

pub open spec fn leader_text(k: int, name: Seq<char>, value: u8) -> Seq<char> {
    category_name(k) + ": "@ + name + " "@ + decimal(value as nat)
}

fn slot(info: &BoxScore, idx: u8) -> (r: &Option<TopPlayerByValue>)
    requires
        idx < 12,
    ensures
        crate::box_score::top_view(*r) == info.slots()[idx as int],
{
    if idx == 0 {
        &info.assist
    } else if idx == 1 {
        &info.blocks
    } else if idx == 2 {
        &info.fouled
    } else if idx == 3 {
        &info.fouler
    } else if idx == 4 {
        &info.steals
    } else if idx == 5 {
        &info.turnovers
    } else if idx == 6 {
        &info.points
    } else if idx == 7 {
        &info.paint_points
    } else if idx == 8 {
        &info.threes
    } else if idx == 9 {
        &info.rebounds
    } else if idx == 10 {
        &info.off_rebounds
    } else {
        &info.def_rebounds
    }
}

/// The rendered medium line naming the leader of category `idx`, if it has one.
pub fn box_score(info: &BoxScore, idx: u8) -> (r: Option<String>)
    requires
        idx < 12,
    ensures
        r is Some <==> info.slots()[idx as int] is Some,
        r matches Some(t) ==> t@ == rendered(
            (
                1u8,
                leader_text(
                    idx as int,
                    info.slots()[idx as int].unwrap().0,
                    info.slots()[idx as int].unwrap().1,
                ),
            ),
        ),
{
    match slot(info, idx) {
        Some(stat) => {
            let mut t = category_label(idx).to_owned();
            push_str(&mut t, ": ");
            push_str(&mut t, stat.name.as_str());
            push_str(&mut t, " ");
            push_decimal(&mut t, stat.value as u64);
            Some(Line::Medium(t).render())
        },
        None => None,
    }
}

pub open spec fn action_text(a: crate::action::ActionView) -> Seq<char> {
    "Q"@ + decimal(a.quarter as nat) + " "@ + a.clock + " "@ + a.desc
}

/// The rendered medium line of the latest play.
pub fn action(play: &Action) -> (r: String)
    ensures
        r@ == rendered((1u8, action_text(play@))),
{
    let mut t = "Q".to_owned();
    push_decimal(&mut t, play.quarter() as u64);
    push_str(&mut t, " ");
    push_str(&mut t, play.clock());
    push_str(&mut t, " ");
    push_str(&mut t, play.desc());
    Line::Medium(t).render()
}

pub open spec fn weekday_name(w: u8) -> Seq<char> {
    if w == 0 {
        "Monday"@
    } else if w == 1 {
        "Tuesday"@
    } else if w == 2 {
        "Wednesday"@
    } else if w == 3 {
        "Thursday"@
    } else if w == 4 {
        "Friday"@
    } else if w == 5 {
        "Saturday"@
    } else {
        "Sunday"@
    }
}

pub open spec fn weekday_abbrev(w: u8) -> Seq<char> {
    weekday_name(w).subrange(0, 3)
}

fn weekday_label(w: u8) -> (r: &'static str)
    ensures
        r@ == weekday_name(w),
{
    if w == 0 {
        "Monday"
    } else if w == 1 {
        "Tuesday"
    } else if w == 2 {
        "Wednesday"
    } else if w == 3 {
        "Thursday"
    } else if w == 4 {
        "Friday"
    } else if w == 5 {
        "Saturday"
    } else {
        "Sunday"
    }
}

fn weekday_short(w: u8) -> (r: &'static str)
    ensures
        r@ == weekday_abbrev(w),
{
    proof {
        reveal_strlit("Monday");
        reveal_strlit("Tuesday");
        reveal_strlit("Wednesday");
        reveal_strlit("Thursday");
        reveal_strlit("Friday");
        reveal_strlit("Saturday");
        reveal_strlit("Sunday");
        reveal_strlit("Mon");
        reveal_strlit("Tue");
        reveal_strlit("Wed");
        reveal_strlit("Thu");
        reveal_strlit("Fri");
        reveal_strlit("Sat");
        reveal_strlit("Sun");
    }
    if w == 0 {
        assert("Mon"@ =~= weekday_abbrev(w));
        "Mon"
    } else if w == 1 {
        assert("Tue"@ =~= weekday_abbrev(w));
        "Tue"
    } else if w == 2 {
        assert("Wed"@ =~= weekday_abbrev(w));
        "Wed"
    } else if w == 3 {
        assert("Thu"@ =~= weekday_abbrev(w));
        "Thu"
    } else if w == 4 {
        assert("Fri"@ =~= weekday_abbrev(w));
        "Fri"
    } else if w == 5 {
        assert("Sat"@ =~= weekday_abbrev(w));
        "Sat"
    } else {
        assert("Sun"@ =~= weekday_abbrev(w));
        "Sun"
    }
}

/// The hour on a twelve-hour clock, 1 to 12.
pub open spec fn hour12(h: u8) -> nat {
    if h % 12 == 0 {
        12
    } else {
        (h % 12) as nat
    }
}

/// A time of day as `%l:%M%p` writes it: the hour padded with a space to
/// two characters, two-digit minutes, then `AM` or `PM`.
pub open spec fn clock12(t: LocalTime) -> Seq<char> {
    let h = hour12(t.hour);
    (if h < 10 {
        " "@ + decimal(h)
    } else {
        decimal(h)
    }) + ":"@ + decimal((t.minute / 10) as nat) + decimal((t.minute % 10) as nat) + (if t.hour < 12 {
        "AM"@
    } else {
        "PM"@
    })
}

fn push_clock12(r: &mut String, t: &LocalTime)
    ensures
        final(r)@ == old(r)@ + clock12(*t),
{
    let h: u8 = if t.hour % 12 == 0 {
        12
    } else {
        t.hour % 12
    };
    let ghost start = r@;
    if h < 10 {
        push_str(r, " ");
    }
    push_decimal(r, h as u64);
    push_str(r, ":");
    push_decimal(r, (t.minute / 10) as u64);
    push_decimal(r, (t.minute % 10) as u64);
    if t.hour < 12 {
        push_str(r, "AM");
    } else {
        push_str(r, "PM");
    }
    assert(r@ =~= start + clock12(*t));
}

/// The quarter and clock of a game in progress.
pub open spec fn active_time(g: Game) -> Seq<char> {
    "Q"@ + decimal(g.period.as_number_spec() as nat) + " "@ + g.clock@
}

/// When a finished game was played: the weekday of its start.
pub open spec fn complete_when(start: Option<LocalTime>) -> Seq<char> {
    match start {
        Some(s) => weekday_name(s.weekday),
        None => Seq::empty(),
    }
}

/// When a game starts: the time, with the weekday in front if the start's
/// date is before today's.
pub open spec fn pending_when(start: Option<LocalTime>, today: Option<LocalTime>) -> Seq<char> {
    match start {
        Some(s) => if today is Some && s.date_before_spec(today.unwrap()) {
            weekday_abbrev(s.weekday) + " "@ + clock12(s)
        } else {
            clock12(s)
        },
        None => Seq::empty(),
    }
}

pub open spec fn teams_pair(g: Game) -> (u8, Seq<char>) {
    (2u8, large_pair(g.home.tri_code@, g.away.tri_code@))
}

pub open spec fn scores_pair(g: Game) -> (u8, Seq<char>) {
    (2u8, large_pair(g.home.score@.text(), g.away.score@.text()))
}

pub open spec fn records_pair(g: Game) -> (u8, Seq<char>) {
    (
        1u8,
        record_pair(
            record_text(g.home.win@.text(), g.home.loss@.text()),
            record_text(g.away.win@.text(), g.away.loss@.text()),
        ),
    )
}

pub open spec fn lines_view(v: Seq<Line>) -> Seq<(u8, Seq<char>)> {
    v.map_values(|l: Line| l@)
}

pub fn render_active_game(game: &Game) -> (r: Vec<Line>)
    ensures
        lines_view(r@) == seq![
            (0u8, centered(100, active_time(*game))),
            teams_pair(*game),
            scores_pair(*game),
        ],
{
    let mut time = "Q".to_owned();
    push_decimal(&mut time, game.period.as_number() as u64);
    push_str(&mut time, " ");
    push_str(&mut time, game.clock.as_str());
    let mut ret = Vec::new();
    ret.push(Line::Small(center(S_FONT_MAX_WIDTH, time.as_str())));
    ret.push(teams_line(game));
    ret.push(scores_line(game));
    assert(lines_view(ret@) =~= seq![
        (0u8, centered(100, active_time(*game))),
        teams_pair(*game),
        scores_pair(*game),
    ]);
    ret
}

/// A finished game, given the local time of its start.
pub fn render_complete_game_at(game: &Game, start: Option<LocalTime>) -> (r: Vec<Line>)
    ensures
        lines_view(r@) == seq![
            (0u8, centered(100, complete_when(start))),
            teams_pair(*game),
            scores_pair(*game),
        ],
{
    let mut when = String::new();
    match start {
        Some(s) => push_str(&mut when, weekday_label(s.weekday)),
        None => {},
    }
    assert(when@ =~= complete_when(start));
    let mut ret = Vec::new();
    ret.push(Line::Small(center(S_FONT_MAX_WIDTH, when.as_str())));
    ret.push(teams_line(game));
    ret.push(scores_line(game));
    assert(lines_view(ret@) =~= seq![
        (0u8, centered(100, complete_when(start))),
        teams_pair(*game),
        scores_pair(*game),
    ]);
    ret
}

/// A game yet to start, given the local times of its start and of now.
pub fn render_pending_game_at(game: &Game, start: Option<LocalTime>, today: Option<LocalTime>) -> (r: Vec<Line>)
    ensures
        lines_view(r@) == seq![
            (0u8, centered(100, pending_when(start, today))),
            teams_pair(*game),
            records_pair(*game),
        ],
{
    let mut when = String::new();
    match start {
        Some(s) => {
            let before = match today {
                Some(t) => s.date_before(&t),
                None => false,
            };
            if before {
                push_str(&mut when, weekday_short(s.weekday));
                push_str(&mut when, " ");
            }
            push_clock12(&mut when, &s);
        },
        None => {},
    }
    assert(when@ =~= pending_when(start, today));
    let mut ret = Vec::new();
    ret.push(Line::Small(center(S_FONT_MAX_WIDTH, when.as_str())));
    ret.push(teams_line(game));
    ret.push(record_line(game));
    assert(lines_view(ret@) =~= seq![
        (0u8, centered(100, pending_when(start, today))),
        teams_pair(*game),
        records_pair(*game),
    ]);
    ret
}

/// The lines of a frame, each rendered, one after the other.
pub open spec fn frame_text(lines: Seq<(u8, Seq<char>)>) -> Seq<char>
    decreases lines.len(),
{
    if lines.len() == 0 {
        Seq::empty()
    } else {
        frame_text(lines.drop_last()) + rendered(lines.last())
    }
}

pub fn render_lines(lines: &Vec<Line>) -> (r: String)
    ensures
        r@ == frame_text(lines_view(lines@)),
{
    let mut r = String::new();
    let mut i: usize = 0;
    assert(lines_view(lines@).subrange(0, 0) =~= Seq::<(u8, Seq<char>)>::empty());
    while i < lines.len()
        invariant
            i <= lines@.len(),
            r@ == frame_text(lines_view(lines@).subrange(0, i as int)),
        decreases lines@.len() - i,
    {
        let ghost next = lines_view(lines@).subrange(0, i + 1);
        assert(next.drop_last() =~= lines_view(lines@).subrange(0, i as int));
        assert(next.last() == lines@[i as int]@);
        let t = lines[i].render();
        push_str(&mut r, t.as_str());
        i = i + 1;
    }
    assert(lines_view(lines@).subrange(0, lines@.len() as int) =~= lines_view(lines@));
    r
}

/// The lines for a game at instant `now`, given the local times of its
/// start and of now: the active, finished or pending layout.
pub open spec fn game_lines(g: Game, at: UtcInstant, start: Option<LocalTime>, today: Option<LocalTime>) -> Seq<(u8, Seq<char>)> {
    if g.is_active_at_spec(at) {
        seq![(0u8, centered(100, active_time(g))), teams_pair(g), scores_pair(g)]
    } else if g.has_ended_spec() {
        seq![(0u8, centered(100, complete_when(start))), teams_pair(g), scores_pair(g)]
    } else {
        seq![(0u8, centered(100, pending_when(start, today))), teams_pair(g), records_pair(g)]
    }
}

/// The frame of a game at instant `at`.
pub fn game_at(game: &Game, at: &UtcInstant, start: Option<LocalTime>, today: Option<LocalTime>) -> (r: String)
    ensures
        r@ == frame_text(game_lines(*game, *at, start, today)),
{
    let lines = if game.is_active_at(at) {
        render_active_game(game)
    } else if game.has_ended() {
        render_complete_game_at(game, start)
    } else {
        render_pending_game_at(game, start, today)
    };
    render_lines(&lines)
}

/// The frame of a game now, in the machine's time zone.
pub fn game(snapshot: &Game) -> (r: String)
    ensures
        exists|at: UtcInstant, start: Option<LocalTime>, today: Option<LocalTime>|
            r@ == frame_text(#[trigger] game_lines(*snapshot, at, start, today)),
{
    let at = now();
    let start = local_time(snapshot.start_time);
    let today = local_time(at);
    let r = game_at(snapshot, &at, start, today);
    assert(r@ == frame_text(game_lines(*snapshot, at, start, today)));
    r
}

/// A finished game, in the machine's time zone.
pub fn render_complete_game(game: &Game) -> (r: Vec<Line>)
    ensures
        exists|start: Option<LocalTime>|
            lines_view(r@) == #[trigger] seq![
                (0u8, centered(100, complete_when(start))),
                teams_pair(*game),
                scores_pair(*game),
            ],
{
    let start = local_time(game.start_time);
    render_complete_game_at(game, start)
}

/// A game yet to start, in the machine's time zone.
pub fn render_pending_game(game: &Game) -> (r: Vec<Line>)
    ensures
        exists|start: Option<LocalTime>, today: Option<LocalTime>|
            lines_view(r@) == #[trigger] seq![
                (0u8, centered(100, pending_when(start, today))),
                teams_pair(*game),
                records_pair(*game),
            ],
{
    let start = local_time(game.start_time);
    let today = local_time(now());
    render_pending_game_at(game, start, today)
}

} // verus!
