use beeline::config::BeeConfigError;
use beeline::errors::Error;
use beeline::goal::GoalTypeParseError;
use beeline::model::Measurement;
use beeline::requests::{CreateDatapoint, CreateGoal, UpdateDatapoint, UpdateGoal};
use beeline::stamp::is_timestamp;
use beeline::state::visible_offset;
use beeline::digits::signed_decimal;
use beeline::tool::{
    plan_tool_call, BeeminderRequest, DatapointInput, Field, ToolCall, ToolFault,
};

fn value(text: &str) -> Measurement {
    Measurement::parse(text).expect("a number")
}

fn request(action: &str) -> BeeminderRequest {
    BeeminderRequest {
        action: action.to_string(),
        goal: None,
        title: None,
        goal_type: None,
        value: None,
        comment: None,
        timestamp: None,
        daystamp: None,
        requestid: None,
        datapoint_id: None,
        datapoints: None,
        sort: None,
        count: None,
        page: None,
        per: None,
        goalval: None,
        rate: None,
        goaldate: None,
        runits: None,
        initval: None,
        initday: None,
        gunits: None,
        yaxis: None,
        fineprint: None,
        secret: None,
        datapublic: None,
        archived: None,
        include_archived: None,
        max_datapoints_per_goal: None,
        max_goals: None,
    }
}

fn on(action: &str, goal: &str) -> BeeminderRequest {
    BeeminderRequest { goal: Some(goal.to_string()), ..request(action) }
}

fn input(text: &str, timestamp: Option<i64>) -> DatapointInput {
    DatapointInput {
        value: value(text),
        timestamp,
        daystamp: None,
        comment: Some("c".to_string()),
        requestid: None,
    }
}

#[test]
fn actions_without_fields() {
    assert_eq!(plan_tool_call(&request("list")), Ok(ToolCall::ListGoals));
    assert_eq!(plan_tool_call(&request(" List-Goals ")), Ok(ToolCall::ListGoals));
    assert_eq!(plan_tool_call(&request("list_archived")), Ok(ToolCall::ListArchived));
    assert_eq!(plan_tool_call(&request("listarchivedgoals")), Ok(ToolCall::ListArchived));
    assert_eq!(plan_tool_call(&request("frobnicate")), Err(ToolFault::UnknownAction));
    assert_eq!(plan_tool_call(&request("")), Err(ToolFault::UnknownAction));
}

#[test]
fn actions_on_one_goal() {
    let goal = "run".to_string();
    assert_eq!(
        plan_tool_call(&on("goal-refresh", "run")),
        Ok(ToolCall::GoalRefresh { goal: goal.clone() })
    );
    assert_eq!(
        plan_tool_call(&on("shortcircuit", "run")),
        Ok(ToolCall::Shortcircuit { goal: goal.clone() })
    );
    assert_eq!(plan_tool_call(&on("stepdown", "run")), Ok(ToolCall::Stepdown { goal: goal.clone() }));
    assert_eq!(plan_tool_call(&on("cancel-stepdown", "run")), Ok(ToolCall::CancelStepdown { goal }));
    for action in [
        "add", "edit", "get-datapoints", "update-datapoint", "delete-datapoint", "goal-create",
        "goal-update", "goal-refresh", "add-batch", "shortcircuit", "stepdown", "cancel-stepdown",
    ] {
        assert_eq!(
            plan_tool_call(&request(action)),
            Err(ToolFault::MissingField(Field::Goal)),
            "{action}"
        );
    }
}

#[test]
fn datapoint_to_add() {
    let mut r = on("add", "run");
    assert_eq!(plan_tool_call(&r), Err(ToolFault::MissingField(Field::Value)));
    r.value = Some(value("2.5"));
    r.comment = Some("c".to_string());
    r.timestamp = Some(1_705_309_200);
    r.daystamp = Some("20240115".to_string());
    r.requestid = Some("r1".to_string());
    assert_eq!(
        plan_tool_call(&r),
        Ok(ToolCall::AddDatapoint {
            goal: "run".to_string(),
            datapoint: CreateDatapoint::new(value("2.5"))
                .with_timestamp(1_705_309_200)
                .with_daystamp("20240115")
                .with_comment("c")
                .with_requestid("r1"),
        })
    );
    r.timestamp = Some(i64::MAX);
    assert_eq!(plan_tool_call(&r), Err(ToolFault::InvalidTimestamp(i64::MAX)));
}

#[test]
fn datapoints_to_fetch() {
    assert_eq!(
        plan_tool_call(&on("get-datapoints", "run")),
        Ok(ToolCall::GetDatapoints {
            goal: "run".to_string(),
            sort: None,
            count: None,
            page: None,
            per: None,
        })
    );
    assert_eq!(
        plan_tool_call(&on("edit", "run")),
        Ok(ToolCall::GetDatapoints {
            goal: "run".to_string(),
            sort: Some("timestamp".to_string()),
            count: Some(20),
            page: None,
            per: None,
        })
    );
    let mut r = on("edit-datapoints", "run");
    r.sort = Some("id".to_string());
    r.count = Some(5);
    r.page = Some(2);
    r.per = Some(10);
    assert_eq!(
        plan_tool_call(&r),
        Ok(ToolCall::GetDatapoints {
            goal: "run".to_string(),
            sort: Some("id".to_string()),
            count: Some(5),
            page: Some(2),
            per: Some(10),
        })
    );
}

#[test]
fn datapoint_to_change_or_delete() {
    let mut r = on("update-datapoint", "run");
    assert_eq!(plan_tool_call(&r), Err(ToolFault::MissingField(Field::DatapointId)));
    r.datapoint_id = Some("dp_abc".to_string());
    assert_eq!(plan_tool_call(&r), Err(ToolFault::NothingToUpdate));
    r.comment = Some("c".to_string());
    assert_eq!(
        plan_tool_call(&r),
        Ok(ToolCall::UpdateDatapoint {
            goal: "run".to_string(),
            update: UpdateDatapoint::new("dp_abc".to_string()).with_comment("c"),
        })
    );
    r.timestamp = Some(i64::MIN);
    assert_eq!(plan_tool_call(&r), Err(ToolFault::InvalidTimestamp(i64::MIN)));
    let mut d = on("delete-datapoint", "run");
    assert_eq!(plan_tool_call(&d), Err(ToolFault::MissingField(Field::DatapointId)));
    d.datapoint_id = Some("dp_abc".to_string());
    assert_eq!(
        plan_tool_call(&d),
        Ok(ToolCall::DeleteDatapoint { goal: "run".to_string(), datapoint_id: "dp_abc".to_string() })
    );
}

#[test]
fn goal_to_create() {
    let mut r = on("goal-create", "reading");
    assert_eq!(plan_tool_call(&r), Err(ToolFault::MissingField(Field::Title)));
    r.title = Some("Reading".to_string());
    assert_eq!(plan_tool_call(&r), Err(ToolFault::MissingField(Field::GoalType)));
    r.goal_type = Some("jogger".to_string());
    assert_eq!(
        plan_tool_call(&r),
        Err(ToolFault::UnknownGoalType(GoalTypeParseError { value: "jogger".to_string() }))
    );
    r.goal_type = Some(" Hustler ".to_string());
    assert_eq!(plan_tool_call(&r), Err(ToolFault::MissingField(Field::Gunits)));
    r.gunits = Some("pages".to_string());
    assert_eq!(plan_tool_call(&r), Err(ToolFault::TwoOfThree));
    r.goalval = Some(value("10"));
    assert_eq!(plan_tool_call(&r), Err(ToolFault::TwoOfThree));
    r.rate = Some(value("1"));
    r.runits = Some("w".to_string());
    r.secret = Some(true);
    let mut expected =
        CreateGoal::new("reading".to_string(), "Reading".to_string(), "hustler".to_string());
    expected.goalval = Some(value("10"));
    expected.rate = Some(value("1"));
    expected.runits = Some("w".to_string());
    expected.gunits = Some("pages".to_string());
    expected.secret = Some(true);
    assert_eq!(plan_tool_call(&r), Ok(ToolCall::GoalCreate(expected)));
    r.goaldate = Some(1_800_000_000);
    assert_eq!(plan_tool_call(&r), Err(ToolFault::TwoOfThree));
    r.rate = None;
    r.initday = Some(i64::MAX);
    assert_eq!(plan_tool_call(&r), Err(ToolFault::InvalidTimestamp(i64::MAX)));
}

#[test]
fn goal_to_change() {
    let mut r = on("goal-update", "reading");
    assert_eq!(plan_tool_call(&r), Err(ToolFault::NothingToUpdateGoal));
    r.archived = Some(true);
    let mut expected = UpdateGoal::new();
    expected.archived = Some(true);
    assert_eq!(
        plan_tool_call(&r),
        Ok(ToolCall::GoalUpdate { goal: "reading".to_string(), changes: expected })
    );
    r.goaldate = Some(i64::MAX);
    assert_eq!(plan_tool_call(&r), Err(ToolFault::InvalidTimestamp(i64::MAX)));
}

#[test]
fn batch_to_add() {
    let mut r = on("add-batch", "run");
    assert_eq!(plan_tool_call(&r), Err(ToolFault::NoDatapoints));
    r.datapoints = Some(vec![]);
    assert_eq!(plan_tool_call(&r), Err(ToolFault::NoDatapoints));
    r.datapoints = Some(vec![input("1", None), input("2", Some(5))]);
    assert_eq!(
        plan_tool_call(&r),
        Ok(ToolCall::AddBatch {
            goal: "run".to_string(),
            datapoints: vec![
                CreateDatapoint::new(value("1")).with_comment("c"),
                CreateDatapoint::new(value("2")).with_timestamp(5).with_comment("c"),
            ],
        })
    );
    r.action = "create_all".to_string();
    r.datapoints =
        Some(vec![input("1", None), input("2", Some(i64::MAX)), input("3", Some(i64::MIN))]);
    assert_eq!(plan_tool_call(&r), Err(ToolFault::InvalidTimestamp(i64::MAX)));
}

#[test]
fn backup_to_make() {
    assert_eq!(
        plan_tool_call(&request("backup")),
        Ok(ToolCall::Backup { include_archived: true, max_goals: None, max_datapoints: None })
    );
    let mut r = request("backup");
    r.include_archived = Some(false);
    r.max_goals = Some(3);
    r.max_datapoints_per_goal = Some(50);
    assert_eq!(
        plan_tool_call(&r),
        Ok(ToolCall::Backup { include_archived: false, max_goals: Some(3), max_datapoints: Some(50) })
    );
}

#[test]
fn tool_faults_have_notices() {
    assert_eq!(
        ToolFault::MissingField(Field::DatapointId).message(),
        "Missing required field: datapoint_id"
    );
    assert_eq!(ToolFault::MissingField(Field::Goal).message(), "Missing required field: goal");
    assert_eq!(
        ToolFault::NothingToUpdate.message(),
        "Provide at least one of: value, comment, timestamp"
    );
    assert_eq!(
        ToolFault::TwoOfThree.message(),
        "Goal creation requires exactly two of: goalval, rate, goaldate"
    );
    assert_eq!(ToolFault::NoDatapoints.message(), "Provide datapoints as a non-empty array");
    assert_eq!(
        ToolFault::InvalidTimestamp(-5).message(),
        "Invalid unix timestamp: -5"
    );
    assert_eq!(
        ToolFault::UnknownGoalType(GoalTypeParseError { value: "x".to_string() }).message(),
        GoalTypeParseError { value: "x".to_string() }.message()
    );
    assert!(ToolFault::UnknownAction.message().starts_with("Unknown action. Try: list, add"));
    assert!(ToolFault::NothingToUpdateGoal.message().ends_with("datapublic, archived)"));
    assert_eq!(ToolFault::TooManyGoals.message(), "max_goals exceeds the maximum supported size");
}

#[test]
fn whole_numbers_in_digits() {
    for n in [0, 1, -1, 9, 10, -10, 1_705_309_200, i64::MAX, i64::MIN] {
        assert_eq!(signed_decimal(n), n.to_string());
    }
}

#[test]
fn timestamps_that_the_calendar_reads() {
    assert!(is_timestamp(0));
    assert!(is_timestamp(1_705_309_200));
    assert!(is_timestamp(253_402_300_799));
    assert!(!is_timestamp(253_402_300_800));
    assert!(!is_timestamp(i64::MAX));
    assert!(!is_timestamp(i64::MIN));
}

#[test]
fn first_row_shown_follows_the_cursor() {
    assert_eq!(visible_offset(None, 3, 10), 3);
    assert_eq!(visible_offset(Some(5), 3, 0), 3);
    assert_eq!(visible_offset(Some(5), 3, 10), 3);
    assert_eq!(visible_offset(Some(2), 3, 10), 2);
    assert_eq!(visible_offset(Some(12), 3, 10), 3);
    assert_eq!(visible_offset(Some(13), 3, 10), 4);
    assert_eq!(visible_offset(Some(usize::MAX), 0, 1), usize::MAX);
    assert_eq!(visible_offset(Some(0), usize::MAX, 5), 0);
}

#[test]
fn configuration_faults_have_notices() {
    assert_eq!(
        BeeConfigError::MissingApiKey.message(),
        "missing api key in config; set `api_key` in the beeminder config file"
    );
    assert_eq!(
        BeeConfigError::MissingEnv { env: "BEE_KEY".to_string() }.message(),
        "environment variable 'BEE_KEY' not found"
    );
    assert_eq!(
        BeeConfigError::CommandFailed { cmd: "pass bee".to_string(), message: "no".to_string() }
            .message(),
        "api key command failed: pass bee: no"
    );
    assert_eq!(
        BeeConfigError::CommandExec { cmd: "pass".to_string(), source: "not found".to_string() }
            .message(),
        "failed to execute api key command 'pass': not found"
    );
    assert_eq!(
        BeeConfigError::CommandEmpty { cmd: "true".to_string() }.message(),
        "api key command returned empty output: true"
    );
    assert_eq!(
        BeeConfigError::NonInteractive { path: "/c.toml".to_string() }.message(),
        "api key required but stdin is not interactive; set `api_key` in /c.toml (example: api_key = \"YOUR_KEY\" or api_key = { cmd = \"...\" })"
    );
}

#[test]
fn remote_faults_in_one_line() {
    assert_eq!(Error::Http("timed out".to_string()).message(), "HTTP error: timed out");
    assert_eq!(Error::Json("eof".to_string()).message(), "JSON error: eof");
    assert_eq!(
        Error::HttpStatus {
            status: 404,
            reason: "Not Found".to_string(),
            body: "{}".to_string(),
        }
        .message(),
        "HTTP status 404 Not Found: {}"
    );
}
