use beeline::apply::{Applied, ApplyFailure, Executor, Operation};
use beeline::bulk::{
    diff_datapoints, find_datapoint, is_mentioned, omitted_ids, pair_rows, EditableDatapoint,
};
use beeline::model::{Datapoint, EditorRow, Measurement, RowSnapshot};
use beeline::plan::{plan_for_rows, Disposition, Plan};
use beeline::requests::{CreateDatapoint, UpdateDatapoint};

const T0: i64 = 1_705_309_200;

fn value(text: &str) -> Measurement {
    Measurement::parse(text).expect("a number")
}

fn datapoint(id: &str, timestamp: i64, text: &str, comment: Option<&str>) -> Datapoint {
    Datapoint {
        id: id.to_string(),
        value: value(text),
        timestamp,
        daystamp: "20240115".to_string(),
        comment: comment.map(|c| c.to_string()),
        updated_at: timestamp,
        requestid: None,
    }
}

fn line(id: Option<&str>, timestamp: i64, text: &str, comment: &str) -> EditableDatapoint {
    EditableDatapoint {
        id: id.map(|i| i.to_string()),
        timestamp,
        value: value(text),
        comment: Some(comment.to_string()),
        value_moved: true,
    }
}

#[test]
fn fetched_row_carries_its_snapshot() {
    let row = EditorRow::from_datapoint(&datapoint("a", T0, "5", Some("x")));
    assert_eq!(row.id, Some("a".to_string()));
    assert_eq!(row.timestamp, T0);
    assert_eq!(row.value, value("5"));
    assert_eq!(row.comment, "x");
    assert_eq!(
        row.original,
        Some(RowSnapshot { timestamp: T0, value: value("5"), comment: "x".to_string() })
    );
    assert!(!row.is_deleted);
    assert!(!row.is_modified());
    assert_eq!(row.classify(), Disposition::Unchanged);
    assert_eq!(row.marker(), " ");
}

#[test]
fn missing_comment_is_the_empty_comment() {
    let row = EditorRow::from_datapoint(&datapoint("a", T0, "5", None));
    assert_eq!(row.comment, "");
    assert_eq!(row.original.as_ref().map(|o| o.comment.clone()), Some(String::new()));
    assert!(!row.is_modified());
}

#[test]
fn new_row_is_created() {
    let row = EditorRow::new(T0);
    assert_eq!(row.id, None);
    assert_eq!(row.original, None);
    assert_eq!(row.value.as_str(), "0");
    assert_eq!(row.comment, "");
    assert!(row.is_modified());
    assert_eq!(row.classify(), Disposition::Create);
    assert_eq!(row.marker(), "+");
}

#[test]
fn every_row_has_one_disposition() {
    let fetched = datapoint("a", T0, "5", Some("x"));
    let untouched = EditorRow::from_datapoint(&fetched);
    let mut edited = EditorRow::from_datapoint(&fetched);
    edited.comment = "y".to_string();
    let mut tombstoned = EditorRow::from_datapoint(&fetched);
    tombstoned.is_deleted = true;
    let mut edited_and_tombstoned = EditorRow::from_datapoint(&fetched);
    edited_and_tombstoned.comment = "y".to_string();
    edited_and_tombstoned.is_deleted = true;
    let fresh = EditorRow::new(T0);
    let mut discarded = EditorRow::new(T0);
    discarded.is_deleted = true;
    assert_eq!(untouched.classify(), Disposition::Unchanged);
    assert_eq!(edited.classify(), Disposition::Update);
    assert_eq!(edited.marker(), "*");
    assert_eq!(tombstoned.classify(), Disposition::Delete);
    assert_eq!(edited_and_tombstoned.classify(), Disposition::Delete);
    assert_eq!(fresh.classify(), Disposition::Create);
    assert_eq!(discarded.classify(), Disposition::Unchanged);
}

#[test]
fn change_detector_compares_each_field() {
    let fetched = datapoint("a", T0, "5", Some("x"));
    let mut later = EditorRow::from_datapoint(&fetched);
    later.timestamp = T0 + 1;
    assert!(later.is_modified());
    let mut other_value = EditorRow::from_datapoint(&fetched);
    other_value.value = value("7");
    assert!(other_value.is_modified());
    let mut other_comment = EditorRow::from_datapoint(&fetched);
    other_comment.comment = "X".to_string();
    assert!(other_comment.is_modified());
}

#[test]
fn value_within_tolerance_is_no_change() {
    let fetched = datapoint("a", T0, "5", Some("x"));
    let mut row = EditorRow::from_datapoint(&fetched);
    row.value = value("5.0");
    row.value_moved = false;
    assert!(!row.is_modified());
    assert_eq!(row.classify(), Disposition::Unchanged);
    row.value_moved = true;
    assert!(row.is_modified());
    row.value = value("5");
    assert!(!row.is_modified());
}

#[test]
fn unedited_rows_give_the_empty_plan() {
    let rows = vec![
        EditorRow::from_datapoint(&datapoint("a", T0, "5", Some("x"))),
        EditorRow::from_datapoint(&datapoint("b", T0 + 60, "8", None)),
    ];
    let plan = plan_for_rows(&rows);
    assert!(plan.is_empty());
    assert_eq!(plan, Plan { creates: vec![], updates: vec![], deletes: vec![] });
    assert_eq!(Executor::new().next(&plan), None);
    assert!(Executor::new().is_complete(&plan));
}

#[test]
fn plan_sorts_rows_by_disposition() {
    let mut changed = EditorRow::from_datapoint(&datapoint("a", T0, "5", Some("x")));
    changed.value = value("7.0");
    let mut gone = EditorRow::from_datapoint(&datapoint("b", T0, "1", None));
    gone.is_deleted = true;
    let kept = EditorRow::from_datapoint(&datapoint("c", T0, "2", None));
    let mut fresh = EditorRow::new(T0 + 10);
    fresh.value = value("3.0");
    fresh.comment = "hi".to_string();
    let blank = EditorRow::new(T0 + 20);
    let plan = plan_for_rows(&vec![fresh, changed, gone, kept, blank]);
    assert_eq!(
        plan.creates,
        vec![
            CreateDatapoint::new(value("3.0")).with_timestamp(T0 + 10).with_comment("hi"),
            CreateDatapoint::new(value("0")).with_timestamp(T0 + 20),
        ]
    );
    assert_eq!(
        plan.updates,
        vec![UpdateDatapoint::new("a".to_string())
            .with_timestamp(T0)
            .with_value(value("7.0"))
            .with_comment("x")]
    );
    assert_eq!(plan.deletes, vec!["b".to_string()]);
    assert!(!plan.is_empty());
}

#[test]
fn blank_comment_is_cleared_on_update_and_left_out_on_create() {
    let mut changed = EditorRow::from_datapoint(&datapoint("a", T0, "5", Some("x")));
    changed.comment = "   ".to_string();
    let mut fresh = EditorRow::new(T0);
    fresh.comment = " \t".to_string();
    let plan = plan_for_rows(&vec![changed, fresh]);
    assert_eq!(plan.updates[0].comment, Some(String::new()));
    assert_eq!(plan.creates[0].comment, None);
}

#[test]
fn tombstone_discards_edits() {
    let mut row = EditorRow::from_datapoint(&datapoint("X", T0, "5", Some("x")));
    row.value = value("9");
    row.comment = "edited".to_string();
    row.is_deleted = true;
    let other = EditorRow::from_datapoint(&datapoint("Y", T0, "1", None));
    let plan = plan_for_rows(&vec![other, row]);
    assert_eq!(plan.deletes, vec!["X".to_string()]);
    assert!(plan.updates.is_empty());
    assert!(plan.creates.is_empty());
}

#[test]
fn tombstone_on_a_new_row_sends_nothing() {
    let mut row = EditorRow::new(T0);
    row.is_deleted = true;
    assert!(plan_for_rows(&vec![row]).is_empty());
}

#[test]
fn changed_value_is_one_update() {
    let original = vec![datapoint("1", T0, "5", Some("x"))];
    let edited = vec![line(Some("1"), T0, "7.0", "x")];
    let diff = diff_datapoints(&original, &edited);
    assert_eq!(
        diff.plan,
        Plan {
            creates: vec![],
            updates: vec![UpdateDatapoint {
                id: "1".to_string(),
                timestamp: Some(T0),
                value: Some(value("7.0")),
                comment: Some("x".to_string()),
            }],
            deletes: vec![],
        }
    );
    assert!(diff.unmatched.is_empty());
}

#[test]
fn line_without_identity_is_one_create() {
    let original = vec![datapoint("1", T0, "5", Some("x"))];
    let edited = vec![line(Some("1"), T0, "5", "x"), line(None, T0 + 300, "3.0", "hi")];
    let diff = diff_datapoints(&original, &edited);
    assert_eq!(
        diff.plan.creates,
        vec![CreateDatapoint {
            value: value("3.0"),
            timestamp: Some(T0 + 300),
            daystamp: None,
            comment: Some("hi".to_string()),
            requestid: None,
        }]
    );
    assert!(diff.plan.updates.is_empty());
    assert!(diff.plan.deletes.is_empty());
}

#[test]
fn omitted_line_is_the_only_delete() {
    let original = vec![
        datapoint("A", T0, "1", None),
        datapoint("B", T0, "2", None),
        datapoint("C", T0, "3", None),
    ];
    let edited = vec![line(Some("A"), T0, "1", ""), line(Some("C"), T0, "3", "")];
    let diff = diff_datapoints(&original, &edited);
    assert_eq!(diff.plan.deletes, vec!["B".to_string()]);
    assert!(diff.plan.creates.is_empty());
    assert!(diff.plan.updates.is_empty());
    assert_eq!(omitted_ids(&original, &edited), vec!["B".to_string()]);
}

#[test]
fn unedited_lines_give_the_empty_plan() {
    let original = vec![datapoint("A", T0, "1", None), datapoint("B", T0 + 5, "2.5", Some("b"))];
    let edited: Vec<EditableDatapoint> =
        original.iter().map(EditableDatapoint::from_datapoint).collect();
    let diff = diff_datapoints(&original, &edited);
    assert!(diff.plan.is_empty());
    assert!(diff.unmatched.is_empty());
    let reread = vec![line(Some("A"), T0, "1", ""), line(Some("B"), T0 + 5, "2.5", "b")];
    assert!(diff_datapoints(&original, &reread).plan.is_empty());
}

#[test]
fn unknown_identity_is_reported_and_ignored() {
    let original = vec![datapoint("A", T0, "1", None)];
    let edited = vec![line(Some("A"), T0, "1", ""), line(Some("zzz"), T0, "4", "typo")];
    let diff = diff_datapoints(&original, &edited);
    assert!(diff.plan.is_empty());
    assert_eq!(diff.unmatched, vec!["zzz".to_string()]);
    let (rows, unmatched) = pair_rows(&original, &edited);
    assert_eq!(rows.len(), 1);
    assert_eq!(unmatched, vec!["zzz".to_string()]);
}

#[test]
fn emptied_file_deletes_everything_once() {
    let original = vec![datapoint("A", T0, "1", None), datapoint("B", T0, "2", None)];
    let diff = diff_datapoints(&original, &vec![]);
    assert_eq!(diff.plan.deletes, vec!["A".to_string(), "B".to_string()]);
}

#[test]
fn lookups_by_identity() {
    let original = vec![datapoint("A", T0, "1", None), datapoint("B", T0, "2", None)];
    assert_eq!(find_datapoint(&original, &"B".to_string()), Some(1));
    assert_eq!(find_datapoint(&original, &"C".to_string()), None);
    let edited = vec![line(Some("A"), T0, "1", ""), line(None, T0, "2", "")];
    assert!(is_mentioned(&edited, &"A".to_string()));
    assert!(!is_mentioned(&edited, &"B".to_string()));
}

#[test]
fn bulk_value_within_tolerance_is_no_update() {
    let original = vec![datapoint("A", T0, "0.1", None)];
    let mut same = line(Some("A"), T0, "0.10", "");
    same.value_moved = false;
    assert!(diff_datapoints(&original, &vec![same]).plan.is_empty());
    let moved = line(Some("A"), T0, "0.10", "");
    assert_eq!(diff_datapoints(&original, &vec![moved]).plan.updates.len(), 1);
}

fn sample_plan() -> Plan {
    Plan {
        creates: vec![
            CreateDatapoint::new(value("1")),
            CreateDatapoint::new(value("2")),
        ],
        updates: vec![UpdateDatapoint::new("u".to_string()).with_value(value("3"))],
        deletes: vec!["d".to_string()],
    }
}

#[test]
fn second_create_fails() {
    let plan = sample_plan();
    let mut executor = Executor::new();
    assert_eq!(executor.next(&plan), Some(Operation::Create(0)));
    executor.succeed(&plan);
    assert_eq!(executor.next(&plan), Some(Operation::Create(1)));
    let failure = executor.fail(&plan);
    assert_eq!(
        failure,
        ApplyFailure {
            applied: Applied { creates: 1, updates: 0, deletes: 0 },
            operation: Operation::Create(1),
        }
    );
    assert_eq!(executor.next(&plan), None);
    assert!(!executor.is_complete(&plan));
    assert!(executor.stopped);
}

#[test]
fn operations_come_in_the_fixed_order() {
    let plan = sample_plan();
    let mut executor = Executor::new();
    let mut issued = Vec::new();
    while let Some(op) = executor.next(&plan) {
        issued.push(op);
        executor.succeed(&plan);
    }
    assert_eq!(
        issued,
        vec![
            Operation::Create(0),
            Operation::Create(1),
            Operation::Update(0),
            Operation::Delete(0),
        ]
    );
    assert!(executor.is_complete(&plan));
    assert_eq!(executor.applied, Applied { creates: 2, updates: 1, deletes: 1 });
}

#[test]
fn failed_delete_keeps_the_count() {
    let plan = sample_plan();
    let mut executor = Executor::new();
    executor.succeed(&plan);
    executor.succeed(&plan);
    executor.succeed(&plan);
    let failure = executor.fail(&plan);
    assert_eq!(failure.applied, Applied { creates: 2, updates: 1, deletes: 0 });
    assert_eq!(failure.operation, Operation::Delete(0));
    assert_eq!(executor.next(&plan), None);
}

#[test]
fn request_builders_set_one_field_each() {
    let create = CreateDatapoint::new(value("1.5"))
        .with_timestamp(T0)
        .with_daystamp("20240115")
        .with_comment("c")
        .with_requestid("r");
    assert_eq!(
        create,
        CreateDatapoint {
            value: value("1.5"),
            timestamp: Some(T0),
            daystamp: Some("20240115".to_string()),
            comment: Some("c".to_string()),
            requestid: Some("r".to_string()),
        }
    );
    let fetched = datapoint("a", T0, "5", Some("x"));
    assert_eq!(
        UpdateDatapoint::from_datapoint(&fetched),
        UpdateDatapoint {
            id: "a".to_string(),
            timestamp: Some(T0),
            value: Some(value("5")),
            comment: Some("x".to_string()),
        }
    );
    assert_eq!(
        UpdateDatapoint::new("a".to_string()),
        UpdateDatapoint { id: "a".to_string(), timestamp: None, value: None, comment: None }
    );
}
