use nba_eink::action::{Action, ActionInfo};
use nba_eink::box_score::{cycle_next, get_indexes, BoxScore, GameBoxScores, StatPlayer, Stats, TeamBoxScore, TopPlayerByValue};
use nba_eink::datetime::{LocalTime, UtcInstant};
use nba_eink::display::{
    decide, eq_ignore_ascii_case, ended_deadline, ended_frame, no_game_frame, team_box_score, with_latest_action, Decision,
    Search,
};
use nba_eink::json::Json;
use nba_eink::render::{
    box_score, center, game_at, record_line, render_active_game, render_complete_game, render_large_three_char_pair,
    render_pending_game_at,
};
use nba_eink::{Game, Line, PeriodOrNumber, StringOrNumber, Team};

fn text(l: &Line) -> &str {
    match l {
        Line::Small(t) | Line::Medium(t) | Line::Large(t) => t,
    }
}

fn team(code: &str, score: StringOrNumber, win: u32, loss: u32) -> Team {
    Team {
        id: StringOrNumber::Number(1),
        team_name: None,
        team_city: None,
        tri_code: code.to_string(),
        win: StringOrNumber::Number(win),
        loss: StringOrNumber::Number(loss),
        score,
        in_bonus: None,
        timeouts_remaining: None,
        periods: vec![],
    }
}

fn game(clock: &str, end: Option<i64>, start: i64) -> Game {
    Game {
        id: StringOrNumber::String("1".to_string()),
        start_time: UtcInstant { secs: start, nanos: 0 },
        end_time: end.map(|e| UtcInstant { secs: e, nanos: 0 }),
        clock: clock.to_string(),
        period: PeriodOrNumber::Number(3),
        home: team("MIN", StringOrNumber::Number(101), 10, 4),
        away: team("LAL", StringOrNumber::String("99".to_string()), 8, 6),
        game_leaders: None,
    }
}

fn local(day: u8, weekday: u8, hour: u8, minute: u8) -> LocalTime {
    LocalTime { year: 2021, month: 10, day, weekday, hour, minute }
}

fn stats(points: u8, assists: u8) -> Stats {
    Stats {
        assists,
        blocks: 0,
        fouls_drawn: 0,
        fouls_personal: 0,
        steals: 0,
        turnovers: 0,
        points,
        points_in_the_paint: 0,
        three_pointers_made: 0,
        rebounds_total: 0,
        rebounds_offensive: 0,
        rebounds_defensive: 0,
    }
}

fn player(name: &str, st: Stats) -> StatPlayer {
    StatPlayer { player_name: name.to_string(), statistics: st }
}

#[test]
fn centering_splits_spare_room() {
    let c = center(100, "Wed 5:30PM");
    assert_eq!(c.len(), 100);
    assert_eq!(c, format!("{}Wed 5:30PM{}", " ".repeat(45), " ".repeat(45)));
    assert_eq!(center(10, "abc"), "   abc    ");
    assert_eq!(center(3, "abcdef"), "abcdef");
    assert_eq!(center(4, ""), "    ");
}

#[test]
fn large_pair_right_justifies() {
    let l = render_large_three_char_pair("MIN", "7");
    assert!(matches!(l, Line::Large(_)));
    assert_eq!(text(&l), "     MIN           7     ");
    assert_eq!(text(&l).len(), 25);
}

#[test]
fn record_line_fills_medium_width() {
    let g = game("", None, 0);
    let l = record_line(&g);
    assert!(matches!(l, Line::Medium(_)));
    assert_eq!(text(&l), format!("     W 10 L 4{}W 8 L 6     ", " ".repeat(50 - 8 - 7 - 10)));
    assert_eq!(text(&l).len(), 50);
}

#[test]
fn record_line_gap_is_at_least_one() {
    let mut g = game("", None, 0);
    g.home.win = StringOrNumber::String("x".repeat(30));
    let l = record_line(&g);
    assert!(text(&l).contains("L 4 W 8 L 6"));
    assert_eq!(text(&l).len(), 5 + 36 + 1 + 7 + 5);
}

#[test]
fn active_game_layout() {
    let lines = render_active_game(&game("5:30", None, 0));
    assert_eq!(lines.len(), 3);
    assert_eq!(text(&lines[0]).trim(), "Q3 5:30");
    assert_eq!(text(&lines[0]).len(), 100);
    assert_eq!(text(&lines[1]), format!("     MIN{}LAL     ", " ".repeat(9)));
    assert_eq!(text(&lines[2]), format!("     101{} 99     ", " ".repeat(9)));
}

#[test]
fn frame_by_phase() {
    let now = UtcInstant { secs: 1000, nanos: 0 };
    let active = game_at(&game("5:30", None, 500), &now, None, None);
    assert!(active.starts_with("0"));
    assert!(active.contains("Q3 5:30"));
    assert_eq!(active.lines().count(), 3);
    let ended = game_at(&game("5:30", Some(900), 500), &now, Some(local(19, 1, 19, 0)), None);
    assert!(ended.contains("Tuesday"));
    let pending = game_at(&game("12:00", None, 2000), &now, Some(local(20, 2, 17, 30)), Some(local(19, 1, 9, 0)));
    assert!(pending.contains(" 5:30PM"));
    assert!(pending.contains("W 10 L 4"));
}

#[test]
fn game_phase_classification() {
    let now = UtcInstant { secs: 1000, nanos: 0 };
    let g = game("5:00", None, 999);
    assert!(!g.has_ended());
    assert!(g.is_active_at(&now));
    assert!(g.is_active_at(&UtcInstant { secs: 999, nanos: 0 }));
    let ended = game("5:00", Some(1001), 100);
    assert!(ended.has_ended());
    assert!(!ended.is_active_at(&now));
    let empty_clock = game("", None, 100);
    assert!(empty_clock.has_ended());
    let future = game("12:00", None, 2000);
    assert!(!future.has_ended());
    assert!(!future.is_active_at(&now));
    assert!(game("5:00", None, 0).is_active());
}

#[test]
fn pending_time_prefix_when_start_before_today() {
    let g = game("12:00", None, 2000);
    let lines = render_pending_game_at(&g, Some(local(18, 0, 0, 5)), Some(local(19, 1, 9, 0)));
    assert_eq!(text(&lines[0]).trim(), "Mon 12:05AM");
    let lines = render_pending_game_at(&g, Some(local(19, 1, 12, 0)), Some(local(19, 1, 9, 0)));
    assert_eq!(text(&lines[0]).trim(), "12:00PM");
    let lines = render_pending_game_at(&g, Some(local(20, 2, 9, 7)), Some(local(19, 1, 9, 0)));
    assert_eq!(text(&lines[0]), &center(100, " 9:07AM"));
    assert!(matches!(lines[2], Line::Medium(_)));
}

#[test]
fn complete_game_uses_local_weekday() {
    let lines = render_complete_game(&game("", Some(1634698800), 1634688000));
    let day = text(&lines[0]).trim().to_string();
    let names = ["Monday", "Tuesday", "Wednesday", "Thursday", "Friday", "Saturday", "Sunday"];
    assert!(names.contains(&day.as_str()));
    assert_eq!(text(&lines[0]).len(), 100);
}

#[test]
fn leaders_first_reaching_maximum_wins() {
    let roster = vec![player("A", stats(10, 2)), player("B", stats(20, 5)), player("C", stats(20, 5))];
    let b = BoxScore::from_roster(&roster);
    assert_eq!(b.points, Some(TopPlayerByValue { name: "B".to_string(), value: 20 }));
    assert_eq!(b.assist, Some(TopPlayerByValue { name: "B".to_string(), value: 5 }));
    assert_eq!(b.blocks, Some(TopPlayerByValue { name: "A".to_string(), value: 0 }));
    assert_eq!(BoxScore::from_roster(&roster), b);
    assert_eq!(BoxScore::from_roster(&vec![]), BoxScore::new());
}

#[test]
fn leaders_from_json_roster() {
    let entry = |name: &str, pts: u64| {
        Json::Object(vec![
            ("nameI".to_string(), Json::Str(name.to_string())),
            ("statistics".to_string(), Json::Object(vec![("points".to_string(), Json::UInt(pts))])),
        ])
    };
    let roster = Json::Array(vec![entry("A. Edwards", 30), entry("R. Gobert", 12)]);
    let b = BoxScore::try_from_value(&roster).unwrap();
    assert_eq!(b.points, Some(TopPlayerByValue { name: "A. Edwards".to_string(), value: 30 }));
    assert_eq!(b.rebounds, Some(TopPlayerByValue { name: "A. Edwards".to_string(), value: 0 }));
    let bad = Json::Array(vec![entry("A", 300)]);
    assert!(BoxScore::try_from_value(&bad).is_none());
    assert!(BoxScore::try_from_value(&Json::Null).is_none());
    let doc = Json::Object(vec![(
        "game".to_string(),
        Json::Object(vec![
            ("gameId".to_string(), Json::Str("0022100001".to_string())),
            (
                "homeTeam".to_string(),
                Json::Object(vec![
                    ("teamTricode".to_string(), Json::Str("MIN".to_string())),
                    ("players".to_string(), Json::Array(vec![entry("A. Edwards", 30)])),
                ]),
            ),
            (
                "awayTeam".to_string(),
                Json::Object(vec![
                    ("teamTricode".to_string(), Json::Str("LAL".to_string())),
                    ("players".to_string(), Json::Array(vec![entry("A. Davis", 25)])),
                ]),
            ),
        ]),
    )]);
    let g = GameBoxScores::try_from_obj(&doc).unwrap();
    assert_eq!(g.id, "0022100001");
    assert_eq!(g.home.abv, "MIN");
    let away = team_box_score(g.clone(), "lal");
    assert_eq!(away.points.unwrap().name, "A. Davis");
    let home = team_box_score(g, "Min");
    assert_eq!(home.points.unwrap().name, "A. Edwards");
}

#[test]
fn populated_categories_and_cycle() {
    let mut b = BoxScore::new();
    assert!(get_indexes(&b).is_empty());
    b.update_points("A".to_string(), 3);
    b.update_def_rebounds("B".to_string(), 1);
    b.update_points("C".to_string(), 3);
    assert_eq!(b.points, Some(TopPlayerByValue { name: "A".to_string(), value: 3 }));
    let idx = get_indexes(&b);
    assert_eq!(idx, vec![6, 11]);
    assert_eq!(cycle_next(&idx, 0), Some((6, 1)));
    assert_eq!(cycle_next(&idx, 1), Some((11, 0)));
    assert_eq!(cycle_next(&idx, 5), Some((11, 0)));
    assert_eq!(cycle_next(&vec![], 3), None);
    assert_eq!(box_score(&b, 6), Some("1Points: A 3\n".to_string()));
    assert_eq!(box_score(&b, 0), None);
    b.update_assist("D".to_string(), 12);
    assert_eq!(box_score(&b, 0), Some("1Assists: D 12\n".to_string()));
}

#[test]
fn ended_frame_cycles_leaders() {
    let mut b = BoxScore::new();
    b.update_points("A".to_string(), 30);
    b.update_steals("S".to_string(), 4);
    let leaders = Some(b);
    let (f1, c1) = ended_frame("base\n", &leaders, 0, "next\n");
    assert_eq!(f1, "base\n1Steals: S 4\nnext\n");
    let (f2, c2) = ended_frame("base\n", &leaders, c1, "next\n");
    assert_eq!(f2, "base\n1Points: A 30\nnext\n");
    assert_eq!(c2, 0);
    let (f3, c3) = ended_frame("base\n", &None, 7, "");
    assert_eq!(f3, "base\n");
    assert_eq!(c3, 7);
}

#[test]
fn latest_action_and_empty_frame() {
    let info = ActionInfo {
        number: 5,
        clock: "5:30".to_string(),
        desc: "Block A".to_string(),
        home_score: 1,
        away_score: 0,
        quarter: 2,
    };
    let f = with_latest_action("x\n".to_string(), &vec![Action::Block(info)]);
    assert_eq!(f, "x\n1Q2 5:30 Block A\n");
    assert_eq!(with_latest_action("x\n".to_string(), &vec![]), "x\n");
    assert_eq!(no_game_frame(), "2No Game Found\n");
    assert!(eq_ignore_ascii_case("MiN", "min"));
    assert!(!eq_ignore_ascii_case("MIN", "MINN"));
    assert!(!eq_ignore_ascii_case("M[N", "M{N"));
}

#[test]
fn statistics_must_be_an_object() {
    for stats in [Json::UInt(5), Json::Null, Json::Str("x".to_string()), Json::Array(vec![])] {
        let roster = Json::Array(vec![Json::Object(vec![
            ("playerName".to_string(), Json::Str("A".to_string())),
            ("statistics".to_string(), stats),
        ])]);
        assert!(BoxScore::try_from_value(&roster).is_none());
    }
    let no_stats = Json::Array(vec![Json::Object(vec![("playerName".to_string(), Json::Str("A".to_string()))])]);
    assert!(BoxScore::try_from_value(&no_stats).is_none());
    let empty_stats = Json::Array(vec![Json::Object(vec![
        ("playerName".to_string(), Json::Str("A".to_string())),
        ("statistics".to_string(), Json::Object(vec![])),
    ])]);
    assert_eq!(BoxScore::try_from_value(&empty_stats).unwrap().points, Some(TopPlayerByValue { name: "A".to_string(), value: 0 }));
}

#[test]
fn driver_fallback_order() {
    let live = game("5:00", None, 0);
    let done = game("", Some(10), 0);
    assert_eq!(decide(Search::Today, Some(&live)), Decision::ShowToday);
    assert_eq!(decide(Search::Today, Some(&done)), Decision::ShowEnded);
    assert_eq!(decide(Search::Today, None), Decision::Fetch(Search::Last));
    assert_eq!(decide(Search::Last, Some(&done)), Decision::ShowEnded);
    assert_eq!(decide(Search::Last, None), Decision::Fetch(Search::Next));
    assert_eq!(decide(Search::Next, Some(&live)), Decision::ShowNext);
    assert_eq!(decide(Search::Next, None), Decision::ShowNoGame);
}

#[test]
fn ended_display_deadline() {
    let now = UtcInstant { secs: 1000, nanos: 0 };
    assert_eq!(ended_deadline(Some(&game("", None, 5000)), &now), 5000);
    assert_eq!(ended_deadline(None, &now), 1000 + 12 * 3600);
    assert_eq!(ended_deadline(None, &UtcInstant { secs: i64::MAX - 5, nanos: 0 }), i64::MAX);
}
