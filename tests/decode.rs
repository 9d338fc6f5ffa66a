use nba_eink::json::Json;
use nba_eink::{Game, GameLeader, Period, PeriodOrNumber, StringOrNumber, Team};
use nba_eink::schedule::{select_last_game, select_next_game, select_today_game, Day, Today};
use nba_eink::text::parse_u16;

fn s(v: &str) -> Json {
    Json::Str(v.to_string())
}

fn obj(members: Vec<(&str, Json)>) -> Json {
    Json::Object(members.into_iter().map(|(k, v)| (k.to_string(), v)).collect())
}

fn team_json(code: &str, id_key: &str, wins_key: &str) -> Json {
    obj(vec![
        (id_key, Json::UInt(1610612750)),
        ("teamName", s("Timberwolves")),
        ("teamTricode", s(code)),
        (wins_key, Json::UInt(10)),
        ("losses", s("4")),
        ("score", s("101")),
        ("periods", Json::Array(vec![obj(vec![("period", Json::UInt(1)), ("score", Json::UInt(30))])])),
    ])
}

fn game_json(id: &str, home: &str, away: &str, clock: &str, end: Option<&str>) -> Json {
    let mut m = vec![
        ("gameId", s(id)),
        ("gameTimeUTC", s("2021-10-20T00:00:00Z")),
        ("gameClock", s(clock)),
        ("period", Json::UInt(2)),
        ("homeTeam", team_json(home, "teamId", "wins")),
        ("awayTeam", team_json(away, "teamId", "wins")),
    ];
    if let Some(e) = end {
        m.push(("endTimeUTC", s(e)));
    }
    obj(m)
}

#[test]
fn scalar_number_and_string_compare_equal_to_text() {
    let n = StringOrNumber::Number(1610612750);
    let t = StringOrNumber::String("1610612750".to_string());
    assert!(n.eq_str("1610612750"));
    assert!(t.eq_str("1610612750"));
    assert!(!n.eq_str("1610612751"));
    assert_eq!(n.to_string(), "1610612750");
    assert_eq!(StringOrNumber::Number(0).to_string(), "0");
}

#[test]
fn scalar_decodes_string_or_number() {
    assert_eq!(StringOrNumber::from_json(&Json::UInt(7)), Some(StringOrNumber::Number(7)));
    assert_eq!(StringOrNumber::from_json(&s("7")), Some(StringOrNumber::String("7".to_string())));
    assert_eq!(StringOrNumber::from_json(&Json::UInt(4294967296)), None);
    assert_eq!(StringOrNumber::from_json(&Json::Int(-1)), None);
    assert_eq!(StringOrNumber::from_json(&Json::Null), None);
}

#[test]
fn period_record_or_number() {
    let rich = obj(vec![
        ("current", Json::UInt(3)),
        ("type", Json::UInt(0)),
        ("isHalftime", Json::Bool(false)),
        ("isEndOfPeriod", Json::Bool(true)),
    ]);
    let p = PeriodOrNumber::from_json(&rich).unwrap();
    assert_eq!(p.as_number(), 3);
    assert_eq!(
        p,
        PeriodOrNumber::Period(Period { current: 3, ty: 0, is_halftime: false, is_end_of_period: true })
    );
    assert_eq!(PeriodOrNumber::from_json(&Json::UInt(4)).unwrap().as_number(), 4);
    assert_eq!(PeriodOrNumber::from_json(&Json::UInt(300)), None);
}

#[test]
fn team_reads_aliases_and_optional_fields() {
    let t = Team::from_json(&team_json("MIN", "teamId", "wins")).unwrap();
    assert_eq!(t.tri_code, "MIN");
    assert_eq!(t.id, StringOrNumber::Number(1610612750));
    assert_eq!(t.win, StringOrNumber::Number(10));
    assert_eq!(t.loss, StringOrNumber::String("4".to_string()));
    assert_eq!(t.team_name, Some("Timberwolves".to_string()));
    assert_eq!(t.team_city, None);
    assert_eq!(t.in_bonus, None);
    assert_eq!(t.timeouts_remaining, None);
    assert_eq!(t.periods.len(), 1);
    let plain = Team::from_json(&team_json("LAL", "id", "win")).unwrap();
    assert_eq!(plain.tri_code, "LAL");
}

#[test]
fn team_missing_required_field_fails() {
    let t = obj(vec![("teamId", Json::UInt(1)), ("teamTricode", s("MIN"))]);
    assert!(Team::from_json(&t).is_none());
    let bad_name = obj(vec![
        ("teamId", Json::UInt(1)),
        ("teamName", Json::UInt(3)),
        ("teamTricode", s("MIN")),
        ("wins", Json::UInt(1)),
        ("losses", Json::UInt(1)),
        ("score", Json::UInt(1)),
        ("periods", Json::Array(vec![])),
    ]);
    assert!(Team::from_json(&bad_name).is_none());
}

#[test]
fn game_decodes_with_endpoint_aliases() {
    let g = Game::from_json(&game_json("0022100001", "MIN", "LAL", "PT12M00.00S", None)).unwrap();
    assert!(g.id.eq_str("0022100001"));
    assert_eq!(g.start_time.secs, 1634688000);
    assert_eq!(g.start_time.nanos, 0);
    assert_eq!(g.end_time, None);
    assert_eq!(g.clock, "PT12M00.00S");
    assert_eq!(g.period.as_number(), 2);
    assert_eq!(g.home.tri_code, "MIN");
    assert_eq!(g.away.tri_code, "LAL");
    assert!(g.game_leaders.is_none());
}

#[test]
fn game_with_bad_start_time_fails() {
    let mut j = game_json("1", "MIN", "LAL", "", None);
    if let Json::Object(m) = &mut j {
        m[1].1 = s("yesterday");
    }
    assert!(Game::from_json(&j).is_none());
}

#[test]
fn game_end_time_is_read() {
    let g = Game::from_json(&game_json("1", "MIN", "LAL", "", Some("2021-10-20T02:30:00Z"))).unwrap();
    assert_eq!(g.end_time.unwrap().secs, 1634688000 + 9000);
}

#[test]
fn leader_defaults_missing_fields() {
    let l = GameLeader::from_json(&obj(vec![("personId", Json::UInt(5))])).unwrap();
    assert_eq!(l.name, "");
    assert_eq!(l.number, "");
    assert_eq!(l.points, 0);
    assert_eq!(l.player_slug, None);
    assert!(GameLeader::from_json(&obj(vec![("personId", Json::UInt(5)), ("points", Json::UInt(300))])).is_none());
}

#[test]
fn parse_u16_edges() {
    assert_eq!(parse_u16("0"), Some(0));
    assert_eq!(parse_u16("65535"), Some(65535));
    assert_eq!(parse_u16("+12"), Some(12));
    assert_eq!(parse_u16("65536"), None);
    assert_eq!(parse_u16(""), None);
    assert_eq!(parse_u16("+"), None);
    assert_eq!(parse_u16("1a"), None);
    assert_eq!(parse_u16("-1"), None);
}

#[test]
fn day_and_selection() {
    let day = obj(vec![
        ("numGames", Json::UInt(3)),
        (
            "games",
            Json::Array(vec![
                game_json("1", "BOS", "NYK", "", Some("2021-10-20T02:30:00Z")),
                game_json("2", "LAL", "MIN", "", Some("2021-10-20T02:30:00Z")),
                game_json("3", "MIN", "DEN", "PT10M00.00S", None),
            ]),
        ),
    ]);
    let d = Day::from_json(&day).unwrap();
    assert_eq!(d.num_games, 3);
    let last = select_last_game(d.games.clone(), "MIN").unwrap();
    assert!(last.id.eq_str("2"));
    let next = select_next_game(d.games.clone(), "MIN").unwrap();
    assert!(next.id.eq_str("3"));
    assert!(select_last_game(d.games.clone(), "PHX").is_none());
    let today = select_today_game(d.games, "DEN").unwrap();
    assert!(today.id.eq_str("3"));
    assert_eq!(today.clock, "10:00");
}

#[test]
fn today_document_decodes() {
    let doc = obj(vec![(
        "scoreboard",
        obj(vec![
            ("gameDate", s("2021-10-19")),
            ("leagueId", s("00")),
            ("games", Json::Array(vec![game_json("9", "MIN", "LAL", "", None)])),
        ]),
    )]);
    let t = Today::from_json(&doc).unwrap();
    assert_eq!(t.scoreboard.game_date, "2021-10-19");
    assert_eq!(t.scoreboard.games.len(), 1);
    let bad = obj(vec![("scoreboard", obj(vec![("gameDate", s("x"))]))]);
    assert!(Today::from_json(&bad).is_none());
}

#[test]
fn scoreboard_url_for_date() {
    let d = nba_eink::datetime::LocalTime { year: 2021, month: 3, day: 7, weekday: 6, hour: 0, minute: 0 };
    assert_eq!(nba_eink::schedule::url_for_date(&d), "https://data.nba.net/prod/v1/20210307/scoreboard.json");
    let d = nba_eink::datetime::LocalTime { year: 2021, month: 11, day: 25, weekday: 3, hour: 0, minute: 0 };
    assert_eq!(nba_eink::schedule::url_for_date(&d), "https://data.nba.net/prod/v1/20211125/scoreboard.json");
}

#[test]
fn play_by_play_document() {
    let doc = obj(vec![("game", obj(vec![("actions", Json::Array(vec![Json::Null, Json::UInt(1)]))]))]);
    let p = nba_eink::PlayByPlay::from_json(doc).unwrap();
    assert_eq!(p.game.actions.len(), 2);
    let bad = obj(vec![("game", obj(vec![("actions", Json::UInt(1))]))]);
    assert!(nba_eink::PlayByPlay::from_json(bad).is_none());
    assert!(nba_eink::PlayByPlay::from_json(obj(vec![])).is_none());
}

#[test]
fn json_lookup_takes_first_member() {
    let j = obj(vec![("a", Json::UInt(1)), ("b", Json::UInt(2)), ("a", Json::UInt(3))]);
    assert!(matches!(j.get("a"), Some(Json::UInt(1))));
    assert!(matches!(j.get2("x", "b"), Some(Json::UInt(2))));
    assert!(matches!(j.get3("x", "y", "a"), Some(Json::UInt(1))));
    assert!(j.get("z").is_none());
    assert!(matches!(nba_eink::json::take_member(j, "b"), Some(Json::UInt(2))));
    assert_eq!(Json::UInt(u64::MAX).as_i64(), None);
    assert_eq!(Json::Int(-5).as_i64(), Some(-5));
    assert_eq!(Json::Int(-5).as_u64(), None);
}
