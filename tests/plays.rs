use nba_eink::action::{actions_from_feed, duration_to_clock, other_team_of, points_description, Action, ActionInfo};
use nba_eink::change::ChangeDetector;
use nba_eink::json::Json;
use nba_eink::{Game, Line};

fn s(v: &str) -> Json {
    Json::Str(v.to_string())
}

fn obj(members: Vec<(&str, Json)>) -> Json {
    Json::Object(members.into_iter().map(|(k, v)| (k.to_string(), v)).collect())
}

fn event(number: u64, ty: &str, extra: Vec<(&str, Json)>) -> Json {
    let mut m = vec![
        ("actionNumber", Json::UInt(number)),
        ("actionType", s(ty)),
        ("period", Json::UInt(2)),
        ("clock", s("PT05M30.00S")),
        ("scoreHome", s("45")),
        ("scoreAway", s("40")),
    ];
    m.extend(extra);
    obj(m)
}

fn classify(e: &Json) -> Option<Action> {
    Action::try_from_obj(e, "MIN", "LAL")
}

#[test]
fn clock_normalization_examples() {
    assert_eq!(duration_to_clock("PT12M00.00S"), Some("12:00".to_string()));
    assert_eq!(duration_to_clock("PT05M30.5S"), Some("05:30".to_string()));
    assert_eq!(duration_to_clock("PT00M00S"), Some("00:00S".to_string()));
    assert_eq!(duration_to_clock("XT12M00.00S"), None);
    assert_eq!(duration_to_clock("P"), None);
    assert_eq!(duration_to_clock(""), None);
    assert_eq!(duration_to_clock("PT"), Some(String::new()));
}

#[test]
fn made_two_pointer_description() {
    let e = event(
        10,
        "2pt",
        vec![
            ("teamTricode", s("MIN")),
            ("playerNameI", s("A. Edwards")),
            ("subType", s("Jump Shot")),
            ("shotResult", s("Made")),
        ],
    );
    let a = classify(&e).unwrap();
    assert!(matches!(a, Action::Points(_)));
    assert_eq!(a.desc(), "Made 2pts MIN A. Edwards jump shot");
    assert_eq!(a.number(), 10);
    assert_eq!(a.quarter(), 2);
    assert_eq!(a.clock(), "05:30");
}

#[test]
fn three_pointer_description() {
    let e = event(
        11,
        "3pt",
        vec![
            ("teamTricode", s("LAL")),
            ("playerNameI", s("L. James")),
            ("subType", s("Step Back")),
            ("shotResult", s("Missed")),
        ],
    );
    assert_eq!(classify(&e).unwrap().desc(), "Missed 3pts LAL L. James step back");
}

#[test]
fn points_description_uses_given_shot_text() {
    assert_eq!(points_description("Made", "2pts", "MIN", "A. Edwards", "jump shot"), "Made 2pts MIN A. Edwards jump shot");
}

#[test]
fn turnover_goes_to_other_team() {
    let e = event(12, "turnover", vec![("teamTricode", s("MIN"))]);
    let a = classify(&e).unwrap();
    assert!(matches!(a, Action::Turnover(_)));
    assert_eq!(a.desc(), "Turnover MIN -> LAL");
    let e = event(13, "steal", vec![("teamTricode", s("LAL"))]);
    assert_eq!(classify(&e).unwrap().desc(), "Steal LAL -> MIN");
    assert_eq!(other_team_of("MIN", "MIN", "LAL"), "LAL");
    assert_eq!(other_team_of("XYZ", "MIN", "LAL"), "MIN");
}

#[test]
fn each_template() {
    let cases = vec![
        (event(1, "period", vec![("subType", s("start"))]), "Q2 start"),
        (event(2, "jumpball", vec![("description", s("Jump Ball Gobert vs. Davis")), ("teamTricode", s("MIN"))]), "Jump Ball Gobert vs. Davis"),
        (event(3, "jumpball", vec![("description", s("")), ("teamTricode", s("MIN"))]), "Jump won by MIN"),
        (event(4, "rebound", vec![("teamTricode", s("MIN")), ("playerNameI", s("R. Gobert")), ("subType", s("defensive"))]), "defensive rebound R. Gobert (MIN)"),
        (event(5, "block", vec![("playerNameI", s("R. Gobert"))]), "Block R. Gobert"),
        (event(6, "timeout", vec![("teamTricode", s("LAL"))]), "Timeout LAL"),
        (event(7, "substitution", vec![("playerNameI", s("N. Reid")), ("subType", s("in"))]), "Sub N. Reid in"),
        (event(9, "foul", vec![("playerNameI", s("J. McDaniels")), ("foulDrawnPlayerName", s("A. Davis")), ("foulPersonalTotal", s("4"))]), "Foul J. McDaniels <- A. Davis (4)"),
        (event(10, "freethrow", vec![("playerNameI", s("A. Davis")), ("subType", s("1 of 2")), ("shotResult", s("Made"))]), "Free Throw A. Davis 1 of 2 Made"),
        (event(11, "violation", vec![("teamTricode", s("LAL")), ("subType", s("lane"))]), "LAL lane"),
    ];
    for (e, want) in cases {
        assert_eq!(classify(&e).unwrap().desc(), want);
    }
}

#[test]
fn unknown_type_and_missing_members_drop_the_event() {
    assert!(classify(&event(1, "stoppage", vec![])).is_none());
    assert!(classify(&event(2, "block", vec![])).is_none());
    assert!(classify(&event(3, "jumpball", vec![("description", s(""))])).is_none());
    let numeric_total = event(
        8,
        "foul",
        vec![("playerNameI", s("J. McDaniels")), ("foulDrawnPlayerName", s("A. Davis")), ("foulPersonalTotal", Json::UInt(3))],
    );
    assert!(classify(&numeric_total).is_none());
    assert!(classify(&event(9, "foul", vec![("playerNameI", s("J. McDaniels")), ("foulPersonalTotal", s("3"))])).is_none());
    let mut bad_score = event(4, "block", vec![("playerNameI", s("X"))]);
    if let Json::Object(m) = &mut bad_score {
        m[4].1 = s("4x");
    }
    assert!(classify(&bad_score).is_none());
    let mut big_period = event(6, "block", vec![("playerNameI", s("X"))]);
    if let Json::Object(m) = &mut big_period {
        m[2].1 = Json::UInt(256);
    }
    assert!(classify(&big_period).is_none());
    let mut top_period = event(7, "block", vec![("playerNameI", s("X"))]);
    if let Json::Object(m) = &mut top_period {
        m[2].1 = Json::UInt(255);
    }
    assert_eq!(classify(&top_period).unwrap().quarter(), 255);
    let mut bad_clock = event(5, "block", vec![("playerNameI", s("X"))]);
    if let Json::Object(m) = &mut bad_clock {
        m[3].1 = s("12:00");
    }
    assert!(classify(&bad_clock).is_none());
}

#[test]
fn feed_is_ordered_by_sequence_number() {
    let feed = vec![
        event(30, "block", vec![("playerNameI", s("C"))]),
        event(10, "block", vec![("playerNameI", s("A"))]),
        event(20, "block", vec![("playerNameI", s("B"))]),
        event(10, "timeout", vec![("teamTricode", s("MIN"))]),
    ];
    let out = actions_from_feed(&feed, "MIN", "LAL");
    let numbers: Vec<i64> = out.iter().map(|a| a.number()).collect();
    assert_eq!(numbers, vec![10, 10, 20, 30]);
    assert_eq!(out[0].desc(), "Block A");
    assert_eq!(out[1].desc(), "Timeout MIN");
}

#[test]
fn malformed_events_are_dropped_from_feed() {
    let mut feed: Vec<Json> = (0..9).map(|i| event(i, "block", vec![])).collect();
    feed.push(event(100, "block", vec![("playerNameI", s("Z"))]));
    let out = actions_from_feed(&feed, "MIN", "LAL");
    assert_eq!(out.len(), 1);
    assert_eq!(out[0].desc(), "Block Z");
    assert!(actions_from_feed(&vec![], "MIN", "LAL").is_empty());
}

fn sample_game(clock: &str) -> Game {
    let team = |code: &str| {
        nba_eink::Team {
            id: nba_eink::StringOrNumber::Number(1),
            team_name: None,
            team_city: None,
            tri_code: code.to_string(),
            win: nba_eink::StringOrNumber::Number(1),
            loss: nba_eink::StringOrNumber::Number(2),
            score: nba_eink::StringOrNumber::String("7".to_string()),
            in_bonus: None,
            timeouts_remaining: Some(3),
            periods: vec![],
        }
    };
    Game {
        id: nba_eink::StringOrNumber::String("1".to_string()),
        start_time: nba_eink::datetime::UtcInstant { secs: 100, nanos: 0 },
        end_time: None,
        clock: clock.to_string(),
        period: nba_eink::PeriodOrNumber::Number(1),
        home: team("MIN"),
        away: team("LAL"),
        game_leaders: None,
    }
}

#[test]
fn change_detector_emits_once_for_repeated_snapshot() {
    let mut d = ChangeDetector::new();
    assert!(d.observe_game(sample_game("5:00")));
    assert!(!d.observe_game(sample_game("5:00")));
    assert!(d.observe_game(sample_game("4:59")));
}

#[test]
fn change_detector_on_action_sequences() {
    let info = |n: i64| ActionInfo {
        number: n,
        clock: "1:00".to_string(),
        desc: "Block A".to_string(),
        home_score: 1,
        away_score: 2,
        quarter: 1,
    };
    let mut d = ChangeDetector::new();
    assert!(d.observe_actions(vec![Action::Block(info(1))]));
    assert!(!d.observe_actions(vec![Action::Block(info(1))]));
    assert!(d.observe_actions(vec![Action::Steal(info(1))]));
    assert!(d.observe_actions(vec![Action::Steal(info(1)), Action::Block(info(2))]));
}

#[test]
fn line_render_tags() {
    assert_eq!(Line::small("a").render(), "0a\n");
    assert_eq!(Line::medium("b").render(), "1b\n");
    assert_eq!(Line::large("c").render(), "2c\n");
}
