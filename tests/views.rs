use ftbl::json::Json;
use ftbl::model::{CompetitionEntry, CompetitionIndex, Fixture, FixtureDoc};
use ftbl::view::ScoreView;

const CELL: &str = "\x1b[1;30;47m";
const HEADER: &str = "\x1b[1;48;5;8m";
const RESET: &str = "\x1b[0m";

fn fixture(home: &str, away: &str) -> Fixture {
    Fixture {
        home_name: Some(home.to_string()),
        away_name: Some(away.to_string()),
        home_score: None,
        away_score: None,
        utc_date: None,
        status: None,
    }
}

fn doc(matches: Vec<Fixture>) -> FixtureDoc {
    FixtureDoc { competition_name: Some("Premier League".to_string()), matches: Some(matches) }
}

fn entry(code: Option<&str>, name: &str) -> CompetitionEntry {
    CompetitionEntry { code: code.map(|c| c.to_string()), name: Some(name.to_string()) }
}

fn json(text: &str) -> Json {
    let value: serde_json::Value = serde_json::from_str(text).unwrap();
    Json::from_value(&value)
}

#[test]
fn index_skips_entries_without_code() {
    let index = CompetitionIndex {
        competitions: Some(vec![entry(Some("PL"), "Premier League"), entry(None, "X")]),
    };
    let out = ScoreView::competitions(index).unwrap();
    let expected = format!(
        "\nUsage:\n curl ftbl.in/<competition>\n\nCompetitions:\n   {}PL{}: Premier League\n\n",
        CELL, RESET
    );
    assert_eq!(out, expected);
    assert!(!out.contains('X'));
}

#[test]
fn index_from_provider_json() {
    let j = json(r#"{"competitions":[{"code":"PL","name":"Premier League"},{"code":null,"name":"X"}]}"#);
    let out = ScoreView::competitions(CompetitionIndex::from_json(&j)).unwrap();
    assert!(out.contains(&format!("   {}PL{}: Premier League\n", CELL, RESET)));
    assert!(!out.contains('X'));
}

#[test]
fn index_keeps_provider_order() {
    let index = CompetitionIndex {
        competitions: Some(vec![
            entry(Some("SA"), "Serie A"),
            entry(None, "Nameless"),
            entry(Some("BL1"), "Bundesliga"),
            entry(Some("PL"), "Premier League"),
        ]),
    };
    let out = ScoreView::competitions(index).unwrap();
    let sa = out.find("Serie A").unwrap();
    let bl = out.find("Bundesliga").unwrap();
    let pl = out.find("Premier League").unwrap();
    assert!(sa < bl && bl < pl);
    assert_eq!(out.matches("Bundesliga").count(), 1);
    assert_eq!(out.matches(&format!("{}BL1{}", CELL, RESET)).count(), 1);
    assert!(!out.contains("Nameless"));
}

#[test]
fn index_empty_array_gives_header() {
    let out = ScoreView::competitions(CompetitionIndex { competitions: Some(vec![]) }).unwrap();
    assert_eq!(out, "\nUsage:\n curl ftbl.in/<competition>\n\nCompetitions:\n\n");
}

#[test]
fn index_without_array_is_none() {
    assert_eq!(ScoreView::competitions(CompetitionIndex { competitions: None }), None);
    let j = json(r#"{"count": 0}"#);
    assert_eq!(ScoreView::competitions(CompetitionIndex::from_json(&j)), None);
}

#[test]
fn fixture_with_full_time_score() {
    let mut f = fixture("Arsenal", "Chelsea");
    f.home_score = Some("2".to_string());
    f.away_score = Some("1".to_string());
    let out = ScoreView::scores(doc(vec![f])).unwrap();
    let expected = format!(
        "\n{}Premier League:{}\nArsenal {} 2 - 1 {} Chelsea\n\n",
        HEADER, RESET, CELL, RESET
    );
    assert_eq!(out, expected);
}

#[test]
fn fixture_with_kickoff_time() {
    let mut f = fixture("Arsenal", "Chelsea");
    f.utc_date = Some("2025-01-02T15:00:00Z".to_string());
    let out = ScoreView::scores(doc(vec![f])).unwrap();
    assert!(out.contains(&format!("Arsenal {} 15:00 {} Chelsea\n", CELL, RESET)));
}

#[test]
fn kickoff_cell_is_hours_and_minutes() {
    let mut f = fixture("Arsenal", "Chelsea");
    f.utc_date = Some("2024-05-01T19:30:00Z".to_string());
    f.status = Some("SCHEDULED".to_string());
    let out = ScoreView::scores(doc(vec![f])).unwrap();
    assert!(out.contains(&format!("{} 19:30 {}", CELL, RESET)));
    assert!(!out.contains("SCHEDULED"));
}

#[test]
fn kickoff_converted_to_utc() {
    let mut f = fixture("Arsenal", "Chelsea");
    f.utc_date = Some("2024-05-01T21:45:00+02:00".to_string());
    let out = ScoreView::scores(doc(vec![f])).unwrap();
    assert!(out.contains(&format!("Arsenal {} 19:45 {} Chelsea\n", CELL, RESET)));
}

#[test]
fn unreadable_date_falls_back_to_status() {
    let mut f = fixture("Arsenal", "Chelsea");
    f.utc_date = Some("not-a-date".to_string());
    f.status = Some("SCHEDULED".to_string());
    let out = ScoreView::scores(doc(vec![f])).unwrap();
    assert!(out.contains(&format!("Arsenal {} SCHEDULED {} Chelsea\n", CELL, RESET)));
}

#[test]
fn status_used_when_scores_null_and_date_unparseable() {
    let j = json(
        r#"{"competition":{"name":"Premier League"},"matches":[{"homeTeam":{"name":"Arsenal"},
        "awayTeam":{"name":"Chelsea"},"score":{"fullTime":{"homeTeam":null,"awayTeam":null}},
        "utcDate":"yesterday","status":"POSTPONED"}]}"#,
    );
    let out = ScoreView::scores(FixtureDoc::from_json(&j)).unwrap();
    assert!(out.contains(&format!("Arsenal {} POSTPONED {} Chelsea\n", CELL, RESET)));
}

#[test]
fn empty_matches_is_none() {
    assert_eq!(ScoreView::scores(doc(vec![])), None);
    let j = json(r#"{"competition":{"name":"Premier League"},"matches":[]}"#);
    assert_eq!(ScoreView::scores(FixtureDoc::from_json(&j)), None);
}

#[test]
fn missing_matches_or_name_is_none() {
    let no_matches = FixtureDoc { competition_name: Some("PL".to_string()), matches: None };
    assert_eq!(ScoreView::scores(no_matches), None);
    let mut f = fixture("A", "B");
    f.status = Some("LIVE".to_string());
    let no_name = FixtureDoc { competition_name: None, matches: Some(vec![f]) };
    assert_eq!(ScoreView::scores(no_name), None);
}

#[test]
fn no_middle_cell_anywhere_is_none() {
    let f = fixture("Arsenal", "Chelsea");
    assert_eq!(ScoreView::scores(doc(vec![f])), None);
}

#[test]
fn one_renderable_fixture_is_enough() {
    let mut live = fixture("Spurs", "Everton");
    live.status = Some("LIVE".to_string());
    let out = ScoreView::scores(doc(vec![fixture("Arsenal", "Chelsea"), live])).unwrap();
    assert!(out.contains("Spurs "));
    assert!(!out.contains("Arsenal"));
}

#[test]
fn malformed_fixture_skipped_neighbours_kept() {
    let mut first = fixture("Arsenal", "Chelsea");
    first.status = Some("FINISHED".to_string());
    let mut nameless = fixture("x", "Fulham");
    nameless.home_name = None;
    nameless.status = Some("LIVE".to_string());
    let mut half_score = fixture("Leeds", "Wolves");
    half_score.home_score = Some("3".to_string());
    let mut last = fixture("Spurs", "Everton");
    last.home_score = Some("0".to_string());
    last.away_score = Some("0".to_string());
    let out = ScoreView::scores(doc(vec![first, nameless, half_score, last])).unwrap();
    let expected = format!(
        "\n{h}Premier League:{r}\nArsenal {c} FINISHED {r} Chelsea\nSpurs {c} 0 - 0 {r} Everton\n\n",
        h = HEADER,
        c = CELL,
        r = RESET
    );
    assert_eq!(out, expected);
}

#[test]
fn fixtures_keep_provider_order() {
    let names = [("Arsenal", "Chelsea"), ("Brighton", "Burnley"), ("Leeds", "Wolves")];
    let fixtures: Vec<Fixture> = names
        .iter()
        .map(|(h, a)| {
            let mut f = fixture(h, a);
            f.status = Some("SCHEDULED".to_string());
            f
        })
        .collect();
    let out = ScoreView::scores(doc(fixtures)).unwrap();
    let lines: Vec<&str> = out.lines().skip(2).filter(|l| !l.is_empty()).collect();
    assert_eq!(lines.len(), 3);
    for (line, (h, a)) in lines.iter().zip(names.iter()) {
        assert!(line.starts_with(&format!("{} ", h)));
        assert!(line.ends_with(&format!(" {}", a)));
    }
}

#[test]
fn rendering_twice_is_identical() {
    let text = r#"{"competition":{"name":"La Liga"},"matches":[{"homeTeam":{"name":"Betis"},
        "awayTeam":{"name":"Girona"},"score":{"fullTime":{"homeTeam":4,"awayTeam":10}},
        "utcDate":"2024-05-01T19:30:00Z","status":"FINISHED"}]}"#;
    let a = ScoreView::scores(FixtureDoc::from_json(&json(text))).unwrap();
    let b = ScoreView::scores(FixtureDoc::from_json(&json(text))).unwrap();
    assert_eq!(a, b);
    assert!(a.contains(&format!("Betis {} 4 - 10 {} Girona\n", CELL, RESET)));
}

#[test]
fn fixture_line_takes_given_kickoff() {
    let f = fixture("Arsenal", "Chelsea");
    let line = ScoreView::fixture_line(&f, Some((7, 5))).unwrap();
    assert_eq!(line, format!("Arsenal {} 07:05 {} Chelsea\n", CELL, RESET));
    assert_eq!(ScoreView::fixture_line(&f, None), None);
}

#[test]
fn scores_keep_their_json_text() {
    let j = json(
        r#"{"competition":{"name":"Cup"},"matches":[{"homeTeam":{"name":"Ajax"},
        "awayTeam":{"name":"PSV"},"score":{"fullTime":{"homeTeam":3,"awayTeam":12345678901234567890}},
        "utcDate":"2024-05-01T19:30:00Z","status":"FINISHED"}]}"#,
    );
    let out = ScoreView::scores(FixtureDoc::from_json(&j)).unwrap();
    assert!(out.contains(&format!("Ajax {} 3 - 12345678901234567890 {} PSV\n", CELL, RESET)));
}
