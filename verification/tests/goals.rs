use beeline::config::BeeConfig;
use beeline::errors::{format_beeminder_error, format_http_error, Error};
use beeline::goals::{
    exactly_two, format_goal, goal_color, goal_precedes, pad_right, parse_value_and_comment,
    GoalColor, GoalSummary, InlineAddError,
};
use beeline::handlers::{
    datapoint_added, datapoint_added_unrefreshed, handle_key, handle_main_key, pop_char,
    push_char, save_succeeded, show_detail, EditContext, Key, KeyAction,
};
use beeline::list::{contains, passes_filter, sort_goals, App};
use beeline::model::{Datapoint, Measurement};
use beeline::requests::CreateDatapoint;
use beeline::digits::decimal;
use beeline::stamp::has_entry_today;
use beeline::state::{MainInput, Screen, StatusKind};
use beeline::text::replace_char;

const NOON: i64 = 1_705_320_000;

fn value(text: &str) -> Measurement {
    Measurement::parse(text).expect("a number")
}

fn goal(slug: &str, title: &str, safebuf: i32, lastday: i64) -> GoalSummary {
    GoalSummary {
        slug: slug.to_string(),
        title: title.to_string(),
        goal_type: "hustler".to_string(),
        limsum: "+1 within 2 days".to_string(),
        svg_url: String::new(),
        graph_url: String::new(),
        thumb_url: String::new(),
        losedate: lastday + 86_400,
        goaldate: None,
        goalval: None,
        rate: Some(value("1")),
        updated_at: lastday,
        queued: false,
        safebuf,
        lastday,
        pledge: Some(value("5")),
    }
}

fn app() -> App {
    let mut app = App::new(BeeConfig::default());
    app.refresh_goals(
        vec![
            goal("reading", "Read Books", 5, NOON - 90_000),
            goal("run", "Morning Run", 0, NOON - 90_000),
            goal("weight", "Weigh in", 2, NOON),
            goal("write", "Writing", 1, NOON - 90_000),
        ],
        NOON,
        0,
    );
    app
}

fn key(c: char) -> Key {
    Key::Char { c, control: false }
}

fn context() -> EditContext {
    EditContext { now: NOON, offset: 0, value_moved: true }
}

fn slugs(app: &App) -> Vec<&str> {
    app.filtered.iter().map(|i| app.goals[*i].slug.as_str()).collect()
}

fn notice(app: &App) -> Option<(StatusKind, &str)> {
    app.status.as_ref().map(|s| (s.kind, s.text.as_str()))
}

#[test]
fn entry_today_is_judged_on_the_local_day() {
    assert!(has_entry_today(NOON, NOON, 0));
    assert!(has_entry_today(NOON - 43_200, NOON + 43_199, 0));
    assert!(!has_entry_today(NOON - 43_201, NOON, 0));
    assert!(!has_entry_today(NOON, NOON + 43_200, 0));
    assert!(has_entry_today(NOON + 43_200, NOON, 43_200));
    assert!(!has_entry_today(NOON, NOON, 43_200));
    assert!(!has_entry_today(NOON, i64::MAX, 0));
}

#[test]
fn colour_follows_the_days_left() {
    assert_eq!(goal_color(0), GoalColor::Red);
    assert_eq!(goal_color(1), GoalColor::Yellow);
    assert_eq!(goal_color(2), GoalColor::Blue);
    assert_eq!(goal_color(3), GoalColor::Green);
    assert_eq!(goal_color(6), GoalColor::Green);
    assert_eq!(goal_color(7), GoalColor::White);
    assert_eq!(goal_color(-1), GoalColor::White);
    assert_eq!(goal_color(i32::MAX), GoalColor::White);
}

#[test]
fn goals_without_an_entry_today_come_first() {
    assert!(goal_precedes(false, 9, true, 0));
    assert!(!goal_precedes(true, 0, false, 9));
    assert!(goal_precedes(false, 1, false, 2));
    assert!(!goal_precedes(false, 2, false, 2));
    assert!(!goal_precedes(true, 3, true, 2));
}

#[test]
fn goals_are_put_in_order() {
    let sorted = sort_goals(
        vec![
            goal("a", "A", 3, NOON),
            goal("b", "B", 3, NOON - 90_000),
            goal("c", "C", 0, NOON),
            goal("d", "D", 1, NOON - 90_000),
            goal("e", "E", 3, NOON - 90_000),
        ],
        NOON,
        0,
    );
    let order: Vec<&str> = sorted.iter().map(|g| g.slug.as_str()).collect();
    assert_eq!(order, vec!["d", "b", "e", "c", "a"]);
    assert_eq!(sort_goals(vec![], NOON, 0), vec![]);
}

#[test]
fn two_of_three() {
    assert!(exactly_two(true, true, false));
    assert!(exactly_two(true, false, true));
    assert!(exactly_two(false, true, true));
    assert!(!exactly_two(true, true, true));
    assert!(!exactly_two(true, false, false));
    assert!(!exactly_two(false, false, false));
}

#[test]
fn plain_line_of_a_goal() {
    assert_eq!(pad_right("run", 6), "run   ");
    assert_eq!(pad_right("running", 6), "running");
    assert_eq!(pad_right("", 2), "  ");
    assert_eq!(pad_right("日本", 4), "日本  ");
    assert_eq!(
        format_goal(true, "run", "+1 within 2 days"),
        format!("{} {:20} [{}]", "✓", "run", "+1 within 2 days")
    );
    assert_eq!(format_goal(false, "run", "x"), "  run                  [x]");
    assert_eq!(
        format_goal(false, "a-very-long-slug-of-a-goal", "x"),
        "  a-very-long-slug-of-a-goal [x]"
    );
}

#[test]
fn value_and_comment_typed_beside_a_goal() {
    assert_eq!(parse_value_and_comment("3"), Ok((value("3"), None)));
    assert_eq!(parse_value_and_comment("  3.5  "), Ok((value("3.5"), None)));
    assert_eq!(
        parse_value_and_comment("3 long  run "),
        Ok((value("3"), Some("long  run".to_string())))
    );
    assert_eq!(parse_value_and_comment("-1\t\tback"), Ok((value("-1"), Some("back".to_string()))));
    assert_eq!(parse_value_and_comment(""), Err(InlineAddError::EnterValue));
    assert_eq!(parse_value_and_comment("  \t"), Err(InlineAddError::EnterValue));
    assert_eq!(parse_value_and_comment("three"), Err(InlineAddError::InvalidValue));
    assert_eq!(parse_value_and_comment("run 3"), Err(InlineAddError::InvalidValue));
    assert_eq!(InlineAddError::EnterValue.message(), "Enter a value");
    assert_eq!(InlineAddError::InvalidValue.message(), "Invalid value");
}

#[test]
fn text_within_text() {
    assert!(contains("morning run", "run"));
    assert!(contains("morning run", "morning"));
    assert!(contains("morning run", "ng r"));
    assert!(contains("morning run", ""));
    assert!(contains("", ""));
    assert!(!contains("", "a"));
    assert!(!contains("run", "running"));
    assert!(!contains("morning run", "rum"));
    assert!(contains("日本語", "本語"));
    for (hay, needle) in [("abcabd", "abd"), ("aaa", "aa"), ("abc", "cb"), ("a", "a")] {
        assert_eq!(contains(hay, needle), hay.contains(needle));
    }
}

#[test]
fn filter_looks_at_slug_and_title() {
    let g = goal("run", "Morning Jog", 0, NOON);
    assert!(passes_filter(&g, ""));
    assert!(passes_filter(&g, "ru"));
    assert!(passes_filter(&g, "jog"));
    assert!(!passes_filter(&g, "Jog"));
    assert!(!passes_filter(&g, "swim"));
}

#[test]
fn list_starts_empty() {
    let app = App::new(BeeConfig::default());
    assert!(app.goals.is_empty());
    assert!(app.filtered.is_empty());
    assert_eq!(app.filter, "");
    assert_eq!(app.selected, None);
    assert_eq!(app.main_input, MainInput::Normal);
    assert_eq!(app.screen, Screen::Main);
    assert_eq!(app.status, None);
    assert_eq!(app.selected_goal_index(), None);
    assert_eq!(app.selected_goal(), None);
}

#[test]
fn fetched_goals_are_listed_in_order() {
    let app = app();
    assert_eq!(slugs(&app), vec!["run", "write", "reading", "weight"]);
    assert_eq!(app.selected, Some(0));
    assert_eq!(app.offset, 0);
    assert_eq!(app.selected_goal().map(|g| g.slug.as_str()), Some("run"));
}

#[test]
fn filter_narrows_the_list() {
    let mut app = app();
    app.move_main_selection(3);
    app.apply_filter("WRI".to_string());
    assert_eq!(slugs(&app), vec!["write"]);
    assert_eq!(app.selected, Some(0));
    app.apply_filter("r".to_string());
    assert_eq!(slugs(&app), vec!["run", "write", "reading"]);
    app.apply_filter("zzz".to_string());
    assert!(app.filtered.is_empty());
    assert_eq!(app.selected, None);
    assert_eq!(app.selected_goal_index(), None);
    app.apply_filter(String::new());
    assert_eq!(app.filtered, vec![0, 1, 2, 3]);
    assert_eq!(app.selected, Some(0));
}

#[test]
fn cursor_moves_within_the_list() {
    let mut app = app();
    app.move_main_selection(1);
    assert_eq!(app.selected, Some(1));
    app.move_main_selection(9);
    assert_eq!(app.selected, Some(3));
    app.move_main_selection(-9);
    assert_eq!(app.selected, Some(0));
    app.select_goal_by_slug("reading");
    assert_eq!(app.selected, Some(2));
    app.select_goal_by_slug("nothing");
    assert_eq!(app.selected, Some(2));
}

#[test]
fn notices_are_put_up_and_taken_down() {
    let mut app = app();
    app.set_status(StatusKind::Info, "Goals refreshed".to_string(), 1_000);
    assert_eq!(notice(&app), Some((StatusKind::Info, "Goals refreshed")));
    app.clear_expired_status(5_000);
    assert!(app.status.is_some());
    app.clear_expired_status(5_001);
    assert_eq!(app.status, None);
}

#[test]
fn keys_are_commands_over_the_list() {
    let mut app = app();
    assert_eq!(handle_main_key(&mut app, key('q'), 0), KeyAction::Quit);
    assert_eq!(handle_main_key(&mut app, key('r'), 0), KeyAction::Refresh);
    assert_eq!(handle_main_key(&mut app, key('j'), 0), KeyAction::Nothing);
    assert_eq!(handle_main_key(&mut app, Key::Down, 0), KeyAction::Nothing);
    assert_eq!(app.selected, Some(2));
    handle_main_key(&mut app, key('k'), 0);
    handle_main_key(&mut app, Key::Up, 0);
    handle_main_key(&mut app, Key::Up, 0);
    assert_eq!(app.selected, Some(0));
    assert_eq!(handle_main_key(&mut app, key('x'), 0), KeyAction::Nothing);
    assert_eq!(handle_main_key(&mut app, Key::Esc, 0), KeyAction::Nothing);
    assert_eq!(app.main_input, MainInput::Normal);
    assert_eq!(
        handle_main_key(&mut app, key('e'), 0),
        KeyAction::OpenDetail { slug: "run".to_string(), count: 20 }
    );
}

#[test]
fn filter_is_typed_over_the_list() {
    let mut app = app();
    handle_main_key(&mut app, key('/'), 0);
    assert_eq!(app.main_input, MainInput::Filter { buffer: String::new() });
    assert_eq!(app.filter_backup, Some(String::new()));
    for c in "wrx".chars() {
        handle_main_key(&mut app, key(c), 0);
    }
    assert!(app.filtered.is_empty());
    handle_main_key(&mut app, Key::Backspace, 0);
    assert_eq!(app.main_input, MainInput::Filter { buffer: "wr".to_string() });
    assert_eq!(slugs(&app), vec!["write"]);
    handle_main_key(&mut app, Key::Char { c: 'u', control: true }, 0);
    assert_eq!(app.filter, "wr");
    handle_main_key(&mut app, Key::Enter, 0);
    assert_eq!(app.main_input, MainInput::Normal);
    assert_eq!(app.filter, "wr");
    assert_eq!(app.filter_backup, None);
    handle_main_key(&mut app, key('/'), 0);
    handle_main_key(&mut app, Key::Backspace, 0);
    handle_main_key(&mut app, Key::Backspace, 0);
    handle_main_key(&mut app, Key::Backspace, 0);
    assert_eq!(app.filtered.len(), 4);
    handle_main_key(&mut app, Key::Esc, 0);
    assert_eq!(app.filter, "wr");
    assert_eq!(slugs(&app), vec!["write"]);
    assert_eq!(app.main_input, MainInput::Normal);
}

#[test]
fn datapoint_is_typed_beside_a_goal() {
    let mut app = app();
    handle_main_key(&mut app, key('j'), 0);
    handle_main_key(&mut app, Key::Enter, 0);
    assert_eq!(app.main_input, MainInput::InlineAdd { buffer: String::new() });
    for c in "2.5 two pagesx".chars() {
        handle_main_key(&mut app, key(c), 0);
    }
    handle_main_key(&mut app, Key::Backspace, 0);
    handle_main_key(&mut app, key('q'), 7);
    handle_main_key(&mut app, Key::Backspace, 0);
    assert_eq!(
        handle_main_key(&mut app, Key::Enter, 7),
        KeyAction::AddDatapoint {
            slug: "write".to_string(),
            datapoint: CreateDatapoint::new(value("2.5")).with_comment("two pages"),
        }
    );
    assert_eq!(app.main_input, MainInput::InlineAdd { buffer: "2.5 two pages".to_string() });
    handle_main_key(&mut app, Key::Esc, 0);
    assert_eq!(app.main_input, MainInput::Normal);
}

#[test]
fn text_that_is_no_datapoint_is_refused() {
    let mut app = app();
    assert_eq!(app.submit_inline_add("", 7), KeyAction::Nothing);
    assert_eq!(notice(&app), Some((StatusKind::Error, "Enter a value")));
    assert_eq!(app.submit_inline_add("two", 8), KeyAction::Nothing);
    assert_eq!(notice(&app), Some((StatusKind::Error, "Invalid value")));
    assert_eq!(app.status.as_ref().map(|s| s.created), Some(8));
    assert_eq!(
        app.submit_inline_add("2", 9),
        KeyAction::AddDatapoint {
            slug: "run".to_string(),
            datapoint: CreateDatapoint::new(value("2")),
        }
    );
}

#[test]
fn nothing_is_added_without_a_goal() {
    let mut app = App::new(BeeConfig::default());
    assert_eq!(handle_main_key(&mut app, Key::Enter, 3), KeyAction::Nothing);
    assert_eq!(app.main_input, MainInput::Normal);
    assert_eq!(notice(&app), Some((StatusKind::Info, "No goal selected")));
    app.status = None;
    assert_eq!(app.submit_inline_add("1", 3), KeyAction::Nothing);
    assert_eq!(notice(&app), Some((StatusKind::Info, "No goal selected")));
    app.status = None;
    assert_eq!(app.open_detail(3), KeyAction::Nothing);
    assert_eq!(notice(&app), Some((StatusKind::Info, "No goal selected")));
}

#[test]
fn added_datapoint_is_noted() {
    let mut app = app();
    app.main_input = MainInput::InlineAdd { buffer: "1".to_string() };
    datapoint_added(&mut app, "reading", 42);
    assert_eq!(notice(&app), Some((StatusKind::Success, "Added datapoint to reading")));
    assert_eq!(app.last_success_goal, Some(("reading".to_string(), 42)));
    assert_eq!(app.selected, Some(2));
    assert_eq!(app.main_input, MainInput::Normal);
    datapoint_added_unrefreshed(&mut app, "run", "timed out", 43);
    assert_eq!(
        notice(&app),
        Some((StatusKind::Error, "Added datapoint to run, but refresh failed: timed out"))
    );
}

fn datapoint(id: &str, text: &str) -> Datapoint {
    Datapoint {
        id: id.to_string(),
        value: value(text),
        timestamp: NOON,
        daystamp: "20240115".to_string(),
        comment: None,
        updated_at: NOON,
        requestid: None,
    }
}

#[test]
fn keys_go_to_the_screen_that_is_shown() {
    let mut app = app();
    assert_eq!(handle_key(&mut app, key('j'), &context(), 0), KeyAction::Nothing);
    assert_eq!(app.selected, Some(1));
    show_detail(&mut app, &vec![datapoint("X", "1"), datapoint("Y", "2")]);
    match &app.screen {
        Screen::Detail(detail) => {
            assert_eq!(detail.goal_slug, "write");
            assert_eq!(detail.goal_title, "Writing");
            assert_eq!(detail.rows.len(), 2);
        }
        Screen::Main => panic!("no table"),
    }
    assert_eq!(handle_key(&mut app, key('j'), &context(), 0), KeyAction::Nothing);
    assert_eq!(app.selected, Some(1));
    assert_eq!(handle_key(&mut app, key('q'), &context(), 0), KeyAction::Nothing);
    assert_eq!(handle_key(&mut app, key('s'), &context(), 5), KeyAction::Nothing);
    assert_eq!(notice(&app), Some((StatusKind::Info, "No changes to save")));
    handle_key(&mut app, key('d'), &context(), 6);
    match handle_key(&mut app, key('s'), &context(), 6) {
        KeyAction::Save { slug, plan } => {
            assert_eq!(slug, "write");
            assert_eq!(plan.deletes, vec!["Y".to_string()]);
        }
        other => panic!("no plan: {other:?}"),
    }
    assert_eq!(handle_key(&mut app, Key::Esc, &context(), 7), KeyAction::Nothing);
    assert_eq!(
        notice(&app),
        Some((StatusKind::Info, "Unsaved changes. Press Esc again to discard."))
    );
    assert!(matches!(app.screen, Screen::Detail(_)));
    handle_key(&mut app, Key::Esc, &context(), 8);
    assert_eq!(app.screen, Screen::Main);
}

#[test]
fn refused_cell_text_is_noted() {
    let mut app = app();
    show_detail(&mut app, &vec![datapoint("X", "1")]);
    handle_key(&mut app, Key::Enter, &context(), 0);
    handle_key(&mut app, key('!'), &context(), 0);
    assert_eq!(handle_key(&mut app, Key::Enter, &context(), 9), KeyAction::Nothing);
    assert_eq!(
        notice(&app),
        Some((StatusKind::Error, "Invalid timestamp (expected YYYY-MM-DD HH:MM:SS)"))
    );
}

#[test]
fn saved_changes_leave_the_table() {
    let mut app = app();
    show_detail(&mut app, &vec![datapoint("X", "1")]);
    save_succeeded(&mut app, None, 3);
    assert_eq!(app.screen, Screen::Main);
    assert_eq!(notice(&app), Some((StatusKind::Success, "Saved changes")));
    show_detail(&mut app, &vec![datapoint("X", "1")]);
    save_succeeded(&mut app, Some("Failed to fetch goals"), 4);
    assert_eq!(app.screen, Screen::Main);
    assert_eq!(notice(&app), Some((StatusKind::Error, "Failed to fetch goals")));
}

#[test]
fn small_text_operations() {
    assert_eq!(pop_char("abc"), "ab");
    assert_eq!(pop_char("é"), "");
    assert_eq!(pop_char(""), "");
    assert_eq!(push_char("ab", 'é'), "abé");
    assert_eq!(replace_char("a\nb\n", '\n', ' '), "a b ");
    assert_eq!(decimal(0), "0");
    assert_eq!(decimal(7), "7");
    assert_eq!(decimal(422), "422");
    assert_eq!(decimal(u128::from(u64::MAX)), u64::MAX.to_string());
    assert_eq!(decimal(u128::MAX), u128::MAX.to_string());
}

#[test]
fn refusal_with_named_faults() {
    let body = r#"{"errors":{"slug":["is taken","has\nbreaks"],"rate":"is needed","n":[1,{"a":null}],"x":2.5}}"#;
    assert_eq!(
        format_http_error(422, "Unprocessable Entity", body),
        "Beeminder API error (422 Unprocessable Entity):\n  - n: 1\n  - n: {\"a\":null}\n  \
         - rate: is needed\n  - slug: is taken\n  - slug: has breaks\n  - x: 2.5\n"
    );
}

#[test]
fn refusal_with_other_json() {
    assert_eq!(
        format_http_error(404, "", r#"{"error":"no such goal"}"#),
        "Beeminder API error (404 HTTP error):\n{\n  \"error\": \"no such goal\"\n}"
    );
    assert_eq!(
        format_http_error(400, "Bad Request", r#"{"errors":{}}"#),
        "Beeminder API error (400 Bad Request):\n{\n  \"errors\": {}\n}"
    );
    assert_eq!(
        format_http_error(400, "Bad Request", r#"{"errors":"many"}"#),
        "Beeminder API error (400 Bad Request):\n{\n  \"errors\": \"many\"\n}"
    );
    assert_eq!(format_http_error(500, "Oops", "[]"), "Beeminder API error (500 Oops):\n[]");
}

#[test]
fn refusal_with_a_body_that_is_no_json() {
    assert_eq!(
        format_http_error(502, "Bad Gateway", "<html>down</html>"),
        "Beeminder API error (502 Bad Gateway):\n<html>down</html>"
    );
    assert_eq!(format_http_error(502, "Bad Gateway", "  \n"), "Beeminder API error (502 Bad Gateway):");
    assert_eq!(format_http_error(0, "", ""), "Beeminder API error (0 HTTP error):");
}

#[test]
fn faults_of_the_remote_store() {
    assert_eq!(
        format_beeminder_error(&Error::Http("connection refused".to_string())),
        "HTTP error: connection refused"
    );
    assert_eq!(
        format_beeminder_error(&Error::Json("expected value at line 1".to_string())),
        "JSON error: expected value at line 1"
    );
    assert_eq!(
        format_beeminder_error(&Error::HttpStatus {
            status: 401,
            reason: "Unauthorized".to_string(),
            body: "no".to_string(),
        }),
        "Beeminder API error (401 Unauthorized):\nno"
    );
}
