//! The one tool of the tool server: what a request asks for, or why it asks
//! for nothing.
//!
//! A request names an action and carries the fields that the action needs.
//! Sending what it asks for to the remote store is the caller's.

use vstd::prelude::*;
use vstd::string::StringExecFns;
use crate::goal::{normalize_action, normalized, normalized_action, GoalType, GoalTypeParseError};
use crate::model::{opt_text, Measurement};
use crate::requests::{
    bare_goal, copy_text, copy_value, opt_int, opt_value, CreateDatapoint, CreateGoal,
    CreateGoalView, CreateView, UpdateDatapoint, UpdateGoal, UpdateGoalView, UpdateView,
};
use crate::digits::{signed_decimal, signed_text};
use crate::stamp::{civil_at, is_timestamp};
use crate::text::same_text;

verus! {

/// A datapoint of a batch, as a request gives it.
#[derive(Debug, PartialEq, Eq)]
pub struct DatapointInput {
    pub value: Measurement,
    pub timestamp: Option<i64>,
    pub daystamp: Option<String>,
    pub comment: Option<String>,
    pub requestid: Option<String>,
}

/// A request to the tool.
#[derive(Debug, PartialEq, Eq)]
pub struct BeeminderRequest {
    pub action: String,
    pub goal: Option<String>,
    pub title: Option<String>,
    pub goal_type: Option<String>,
    pub value: Option<Measurement>,
    pub comment: Option<String>,
    pub timestamp: Option<i64>,
    pub daystamp: Option<String>,
    pub requestid: Option<String>,
    pub datapoint_id: Option<String>,
    pub datapoints: Option<Vec<DatapointInput>>,
    pub sort: Option<String>,
    pub count: Option<u64>,
    pub page: Option<u64>,
    pub per: Option<u64>,
    pub goalval: Option<Measurement>,
    pub rate: Option<Measurement>,
    pub goaldate: Option<i64>,
    pub runits: Option<String>,
    pub initval: Option<Measurement>,
    pub initday: Option<i64>,
    pub gunits: Option<String>,
    pub yaxis: Option<String>,
    pub fineprint: Option<String>,
    pub secret: Option<bool>,
    pub datapublic: Option<bool>,
    pub archived: Option<bool>,
    pub include_archived: Option<bool>,
    pub max_datapoints_per_goal: Option<u64>,
    pub max_goals: Option<u64>,
}

/// A field that an action needs.
#[derive(Debug, Clone, Copy, PartialEq, Eq, Structural)]
pub enum Field {
    Goal,
    Value,
    DatapointId,
    Title,
    GoalType,
    Gunits,
}

/// Why a request asks for nothing.
#[derive(Debug, PartialEq, Eq)]
pub enum ToolFault {
    /// A field that the action needs is missing.
    MissingField(Field),
    /// An update of a datapoint names no field to change.
    NothingToUpdate,
    /// An update of a goal names no field to change.
    NothingToUpdateGoal,
    /// A goal is to be created, and not exactly two of its value, its rate and its date are given.
    TwoOfThree,
    /// A batch holds no datapoint.
    NoDatapoints,
    /// The calendar has no reading for the timestamp.
    InvalidTimestamp(i64),
    /// The goal type is none that the remote store knows.
    UnknownGoalType(GoalTypeParseError),
    /// The number of goals is larger than a list can be.
    TooManyGoals,
    /// The action is none of the tool's.
    UnknownAction,
}

/// The mathematical value of a [`ToolFault`].
pub enum FaultView {
    MissingField(Field),
    NothingToUpdate,
    NothingToUpdateGoal,
    TwoOfThree,
    NoDatapoints,
    InvalidTimestamp(i64),
    UnknownGoalType(Seq<char>),
    TooManyGoals,
    UnknownAction,
}

impl View for ToolFault {
    type V = FaultView;

    open spec fn view(&self) -> FaultView {
        match self {
            ToolFault::MissingField(f) => FaultView::MissingField(*f),
            ToolFault::NothingToUpdate => FaultView::NothingToUpdate,
            ToolFault::NothingToUpdateGoal => FaultView::NothingToUpdateGoal,
            ToolFault::TwoOfThree => FaultView::TwoOfThree,
            ToolFault::NoDatapoints => FaultView::NoDatapoints,
            ToolFault::InvalidTimestamp(t) => FaultView::InvalidTimestamp(*t),
            ToolFault::UnknownGoalType(e) => FaultView::UnknownGoalType(e.value@),
            ToolFault::TooManyGoals => FaultView::TooManyGoals,
            ToolFault::UnknownAction => FaultView::UnknownAction,
        }
    }
}

/// What a request asks for.
#[derive(Debug, PartialEq, Eq)]
pub enum ToolCall {
    ListGoals,
    ListArchived,
    AddDatapoint { goal: String, datapoint: CreateDatapoint },
    GetDatapoints {
        goal: String,
        sort: Option<String>,
        count: Option<u64>,
        page: Option<u64>,
        per: Option<u64>,
    },
    UpdateDatapoint { goal: String, update: UpdateDatapoint },
    DeleteDatapoint { goal: String, datapoint_id: String },
    GoalCreate(CreateGoal),
    GoalUpdate { goal: String, changes: UpdateGoal },
    GoalRefresh { goal: String },
    AddBatch { goal: String, datapoints: Vec<CreateDatapoint> },
    Shortcircuit { goal: String },
    Stepdown { goal: String },
    CancelStepdown { goal: String },
    Backup { include_archived: bool, max_goals: Option<usize>, max_datapoints: Option<u64> },
}

/// The mathematical value of a [`ToolCall`].
pub enum CallView {
    ListGoals,
    ListArchived,
    AddDatapoint { goal: Seq<char>, datapoint: CreateView },
    GetDatapoints {
        goal: Seq<char>,
        sort: Option<Seq<char>>,
        count: Option<u64>,
        page: Option<u64>,
        per: Option<u64>,
    },
    UpdateDatapoint { goal: Seq<char>, update: UpdateView },
    DeleteDatapoint { goal: Seq<char>, datapoint_id: Seq<char> },
    GoalCreate(CreateGoalView),
    GoalUpdate { goal: Seq<char>, changes: UpdateGoalView },
    GoalRefresh { goal: Seq<char> },
    AddBatch { goal: Seq<char>, datapoints: Seq<CreateView> },
    Shortcircuit { goal: Seq<char> },
    Stepdown { goal: Seq<char> },
    CancelStepdown { goal: Seq<char> },
    Backup { include_archived: bool, max_goals: Option<usize>, max_datapoints: Option<u64> },
}

impl View for ToolCall {
    type V = CallView;

    open spec fn view(&self) -> CallView {
        match self {
            ToolCall::ListGoals => CallView::ListGoals,
            ToolCall::ListArchived => CallView::ListArchived,
            ToolCall::AddDatapoint { goal, datapoint } => CallView::AddDatapoint {
                goal: goal@,
                datapoint: datapoint@,
            },
            ToolCall::GetDatapoints { goal, sort, count, page, per } => CallView::GetDatapoints {
                goal: goal@,
                sort: opt_text(*sort),
                count: *count,
                page: *page,
                per: *per,
            },
            ToolCall::UpdateDatapoint { goal, update } => CallView::UpdateDatapoint {
                goal: goal@,
                update: update@,
            },
            ToolCall::DeleteDatapoint { goal, datapoint_id } => CallView::DeleteDatapoint {
                goal: goal@,
                datapoint_id: datapoint_id@,
            },
            ToolCall::GoalCreate(c) => CallView::GoalCreate(c@),
            ToolCall::GoalUpdate { goal, changes } => CallView::GoalUpdate {
                goal: goal@,
                changes: changes@,
            },
            ToolCall::GoalRefresh { goal } => CallView::GoalRefresh { goal: goal@ },
            ToolCall::AddBatch { goal, datapoints } => CallView::AddBatch {
                goal: goal@,
                datapoints: datapoints@.map_values(|d: CreateDatapoint| d@),
            },
            ToolCall::Shortcircuit { goal } => CallView::Shortcircuit { goal: goal@ },
            ToolCall::Stepdown { goal } => CallView::Stepdown { goal: goal@ },
            ToolCall::CancelStepdown { goal } => CallView::CancelStepdown { goal: goal@ },
            ToolCall::Backup { include_archived, max_goals, max_datapoints } => CallView::Backup {
                include_archived: *include_archived,
                max_goals: *max_goals,
                max_datapoints: *max_datapoints,
            },
        }
    }
}

/// The value of what planning a request returns.
pub open spec fn planned_view(r: Result<ToolCall, ToolFault>) -> Result<CallView, FaultView> {
    match r {
        Ok(c) => Ok(c@),
        Err(e) => Err(e@),
    }
}

/// Whether a timestamp, where one is given, is one that the calendar has a reading for.
pub open spec fn stamp_ok(t: Option<i64>) -> bool {
    match t {
        Some(x) => civil_at(x as int, 0) is Some,
        None => true,
    }
}

/// The datapoint that a batch entry asks for.
pub open spec fn input_datapoint(i: DatapointInput) -> CreateView {
    CreateView {
        value: i.value@,
        timestamp: opt_int(i.timestamp),
        daystamp: opt_text(i.daystamp),
        comment: opt_text(i.comment),
        requestid: opt_text(i.requestid),
    }
}

/// The datapoints that a batch asks for, or the first timestamp in it that
/// the calendar has no reading for.
pub open spec fn batch_of(inputs: Seq<DatapointInput>) -> Result<Seq<CreateView>, i64>
    decreases inputs.len(),
{
    if inputs.len() == 0 {
        Ok(Seq::<CreateView>::empty())
    } else {
        match batch_of(inputs.drop_last()) {
            Err(t) => Err(t),
            Ok(before) => if stamp_ok(inputs.last().timestamp) {
                Ok(before.push(input_datapoint(inputs.last())))
            } else {
                Err(inputs.last().timestamp->0)
            },
        }
    }
}

/// What an action on one goal asks for.
pub open spec fn on_goal(r: BeeminderRequest, call: spec_fn(Seq<char>) -> CallView) -> Result<
    CallView,
    FaultView,
> {
    match r.goal {
        Some(g) => Ok(call(g@)),
        None => Err(FaultView::MissingField(Field::Goal)),
    }
}

/// What adding a datapoint asks for.
pub open spec fn add_of(r: BeeminderRequest) -> Result<CallView, FaultView> {
    if r.goal is None {
        Err(FaultView::MissingField(Field::Goal))
    } else if r.value is None {
        Err(FaultView::MissingField(Field::Value))
    } else if !stamp_ok(r.timestamp) {
        Err(FaultView::InvalidTimestamp(r.timestamp->0))
    } else {
        Ok(
            CallView::AddDatapoint {
                goal: r.goal->0@,
                datapoint: CreateView {
                    value: r.value->0@,
                    timestamp: opt_int(r.timestamp),
                    daystamp: opt_text(r.daystamp),
                    comment: opt_text(r.comment),
                    requestid: opt_text(r.requestid),
                },
            },
        )
    }
}

/// What fetching datapoints asks for. For editing, the datapoints are asked
/// for by timestamp and twenty at a time, unless the request says otherwise.
pub open spec fn get_of(r: BeeminderRequest, editing: bool) -> Result<CallView, FaultView> {
    if r.goal is None {
        Err(FaultView::MissingField(Field::Goal))
    } else {
        Ok(
            CallView::GetDatapoints {
                goal: r.goal->0@,
                sort: if r.sort is None && editing {
                    Some("timestamp"@)
                } else {
                    opt_text(r.sort)
                },
                count: if r.count is None && editing {
                    Some(20u64)
                } else {
                    r.count
                },
                page: r.page,
                per: r.per,
            },
        )
    }
}

/// What changing a datapoint asks for.
pub open spec fn update_of(r: BeeminderRequest) -> Result<CallView, FaultView> {
    if r.goal is None {
        Err(FaultView::MissingField(Field::Goal))
    } else if r.datapoint_id is None {
        Err(FaultView::MissingField(Field::DatapointId))
    } else if r.value is None && r.comment is None && r.timestamp is None {
        Err(FaultView::NothingToUpdate)
    } else if !stamp_ok(r.timestamp) {
        Err(FaultView::InvalidTimestamp(r.timestamp->0))
    } else {
        Ok(
            CallView::UpdateDatapoint {
                goal: r.goal->0@,
                update: UpdateView {
                    id: r.datapoint_id->0@,
                    timestamp: opt_int(r.timestamp),
                    value: opt_value(r.value),
                    comment: opt_text(r.comment),
                },
            },
        )
    }
}

/// What deleting a datapoint asks for.
pub open spec fn delete_of(r: BeeminderRequest) -> Result<CallView, FaultView> {
    if r.goal is None {
        Err(FaultView::MissingField(Field::Goal))
    } else if r.datapoint_id is None {
        Err(FaultView::MissingField(Field::DatapointId))
    } else {
        Ok(CallView::DeleteDatapoint { goal: r.goal->0@, datapoint_id: r.datapoint_id->0@ })
    }
}

/// How many of three settings are given.
pub open spec fn given(a: bool, b: bool, c: bool) -> int {
    (if a {
        1int
    } else {
        0int
    }) + (if b {
        1int
    } else {
        0int
    }) + (if c {
        1int
    } else {
        0int
    })
}

/// What creating a goal asks for.
pub open spec fn goal_create_of(r: BeeminderRequest) -> Result<CallView, FaultView> {
    if r.goal is None {
        Err(FaultView::MissingField(Field::Goal))
    } else if r.title is None {
        Err(FaultView::MissingField(Field::Title))
    } else if r.goal_type is None {
        Err(FaultView::MissingField(Field::GoalType))
    } else if GoalType::named(normalized(r.goal_type->0@)) is None {
        Err(FaultView::UnknownGoalType(r.goal_type->0@))
    } else if r.gunits is None {
        Err(FaultView::MissingField(Field::Gunits))
    } else if given(r.goalval is Some, r.rate is Some, r.goaldate is Some) != 2 {
        Err(FaultView::TwoOfThree)
    } else if !stamp_ok(r.goaldate) {
        Err(FaultView::InvalidTimestamp(r.goaldate->0))
    } else if !stamp_ok(r.initday) {
        Err(FaultView::InvalidTimestamp(r.initday->0))
    } else {
        Ok(
            CallView::GoalCreate(
                CreateGoalView {
                    goalval: opt_value(r.goalval),
                    rate: opt_value(r.rate),
                    goaldate: opt_int(r.goaldate),
                    runits: opt_text(r.runits),
                    initval: opt_value(r.initval),
                    initday: opt_int(r.initday),
                    gunits: opt_text(r.gunits),
                    yaxis: opt_text(r.yaxis),
                    secret: r.secret,
                    datapublic: r.datapublic,
                    fineprint: opt_text(r.fineprint),
                    ..bare_goal(
                        r.goal->0@,
                        r.title->0@,
                        GoalType::named(normalized(r.goal_type->0@))->0.name(),
                    )
                },
            ),
        )
    }
}

/// Whether a request names a field of a goal to change.
pub open spec fn names_goal_field(r: BeeminderRequest) -> bool {
    ||| r.title is Some
    ||| r.goalval is Some
    ||| r.rate is Some
    ||| r.goaldate is Some
    ||| r.runits is Some
    ||| r.yaxis is Some
    ||| r.fineprint is Some
    ||| r.secret is Some
    ||| r.datapublic is Some
    ||| r.archived is Some
}

/// What changing a goal asks for.
pub open spec fn goal_update_of(r: BeeminderRequest) -> Result<CallView, FaultView> {
    if r.goal is None {
        Err(FaultView::MissingField(Field::Goal))
    } else if !names_goal_field(r) {
        Err(FaultView::NothingToUpdateGoal)
    } else if !stamp_ok(r.goaldate) {
        Err(FaultView::InvalidTimestamp(r.goaldate->0))
    } else {
        Ok(
            CallView::GoalUpdate {
                goal: r.goal->0@,
                changes: UpdateGoalView {
                    title: opt_text(r.title),
                    goalval: opt_value(r.goalval),
                    rate: opt_value(r.rate),
                    goaldate: opt_int(r.goaldate),
                    runits: opt_text(r.runits),
                    yaxis: opt_text(r.yaxis),
                    fineprint: opt_text(r.fineprint),
                    secret: r.secret,
                    datapublic: r.datapublic,
                    archived: r.archived,
                },
            },
        )
    }
}

/// What adding a batch of datapoints asks for.
pub open spec fn batch_call_of(r: BeeminderRequest) -> Result<CallView, FaultView> {
    if r.goal is None {
        Err(FaultView::MissingField(Field::Goal))
    } else if r.datapoints is None || r.datapoints->0@.len() == 0 {
        Err(FaultView::NoDatapoints)
    } else {
        match batch_of(r.datapoints->0@) {
            Ok(datapoints) => Ok(CallView::AddBatch { goal: r.goal->0@, datapoints }),
            Err(t) => Err(FaultView::InvalidTimestamp(t)),
        }
    }
}

/// What a backup asks for: archived goals are part of it unless the request says otherwise.
pub open spec fn backup_of(r: BeeminderRequest) -> Result<CallView, FaultView> {
    if r.max_goals is Some && r.max_goals->0 > usize::MAX {
        Err(FaultView::TooManyGoals)
    } else {
        Ok(
            CallView::Backup {
                include_archived: match r.include_archived {
                    Some(b) => b,
                    None => true,
                },
                max_goals: match r.max_goals {
                    Some(n) => Some(n as usize),
                    None => None,
                },
                max_datapoints: r.max_datapoints_per_goal,
            },
        )
    }
}

/// What a request asks for, by its action. Actions are compared in lower
/// case and without spaces, hyphens and underscores.
pub open spec fn planned(r: BeeminderRequest) -> Result<CallView, FaultView> {
    let a = normalized_action(r.action@);
    if a == "list"@ || a == "listgoals"@ {
        Ok(CallView::ListGoals)
    } else if a == "listarchived"@ || a == "listarchivedgoals"@ {
        Ok(CallView::ListArchived)
    } else if a == "add"@ || a == "adddatapoint"@ {
        add_of(r)
    } else if a == "getdatapoints"@ {
        get_of(r, false)
    } else if a == "edit"@ || a == "editdatapoints"@ {
        get_of(r, true)
    } else if a == "updatedatapoint"@ {
        update_of(r)
    } else if a == "deletedatapoint"@ {
        delete_of(r)
    } else if a == "goalcreate"@ {
        goal_create_of(r)
    } else if a == "goalupdate"@ {
        goal_update_of(r)
    } else if a == "goalrefresh"@ {
        on_goal(r, |g: Seq<char>| CallView::GoalRefresh { goal: g })
    } else if a == "addbatch"@ || a == "createall"@ {
        batch_call_of(r)
    } else if a == "shortcircuit"@ {
        on_goal(r, |g: Seq<char>| CallView::Shortcircuit { goal: g })
    } else if a == "stepdown"@ {
        on_goal(r, |g: Seq<char>| CallView::Stepdown { goal: g })
    } else if a == "cancelstepdown"@ {
        on_goal(r, |g: Seq<char>| CallView::CancelStepdown { goal: g })
    } else if a == "backup"@ {
        backup_of(r)
    } else {
        Err(FaultView::UnknownAction)
    }
}

/// Whether a timestamp, where one is given, is one that the calendar has a reading for.
fn check_stamp(t: Option<i64>) -> (r: bool)
    ensures
        r == stamp_ok(t),
{
    match t {
        Some(x) => is_timestamp(x),
        None => true,
    }
}

/// The datapoint that a batch entry asks for.
fn datapoint_of_input(i: &DatapointInput) -> (d: CreateDatapoint)
    ensures
        d@ == input_datapoint(*i),
{
    CreateDatapoint {
        value: i.value.clone(),
        timestamp: i.timestamp,
        daystamp: copy_text(&i.daystamp),
        comment: copy_text(&i.comment),
        requestid: copy_text(&i.requestid),
    }
}

/// The datapoints that a batch asks for.
fn plan_batch(inputs: &Vec<DatapointInput>) -> (r: Result<Vec<CreateDatapoint>, i64>)
    ensures
        match r {
            Ok(d) => batch_of(inputs@) == Ok::<Seq<CreateView>, i64>(
                d@.map_values(|x: CreateDatapoint| x@),
            ),
            Err(t) => batch_of(inputs@) == Err::<Seq<CreateView>, i64>(t),
        },
{
    let mut out: Vec<CreateDatapoint> = Vec::new();
    let mut i: usize = 0;
    proof {
        assert(out@.map_values(|x: CreateDatapoint| x@) =~= Seq::<CreateView>::empty());
    }
    while i < inputs.len()
        invariant
            0 <= i <= inputs.len(),
            batch_of(inputs@.take(i as int)) == Ok::<Seq<CreateView>, i64>(
                out@.map_values(|x: CreateDatapoint| x@),
            ),
        decreases inputs.len() - i,
    {
        let ghost before = out@;
        proof {
            assert(inputs@.take(i as int + 1).drop_last() =~= inputs@.take(i as int));
        }
        if !check_stamp(inputs[i].timestamp) {
            let t = match inputs[i].timestamp {
                Some(t) => t,
                None => 0,
            };
            proof {
                lemma_batch_fault(inputs@, i as int + 1);
            }
            return Err(t);
        }
        let d = datapoint_of_input(&inputs[i]);
        out.push(d);
        proof {
            assert(out@.map_values(|x: CreateDatapoint| x@) =~= before.map_values(
                |x: CreateDatapoint| x@,
            ).push(d@));
        }
        i = i + 1;
    }
    proof {
        assert(inputs@.take(inputs.len() as int) =~= inputs@);
    }
    Ok(out)
}

/// A timestamp without a reading fails the whole batch.
proof fn lemma_batch_fault(inputs: Seq<DatapointInput>, k: int)
    requires
        0 <= k <= inputs.len(),
        batch_of(inputs.take(k)) is Err,
    ensures
        batch_of(inputs) == batch_of(inputs.take(k)),
    decreases inputs.len() - k,
{
    if k == inputs.len() {
        assert(inputs.take(k) =~= inputs);
    } else {
        assert(inputs.take(k + 1).drop_last() =~= inputs.take(k));
        lemma_batch_fault(inputs, k + 1);
    }
}

/// What adding a datapoint asks for.
fn plan_add(r: &BeeminderRequest) -> (out: Result<ToolCall, ToolFault>)
    ensures
        planned_view(out) == add_of(*r),
{
    let goal = match &r.goal {
        Some(g) => g.clone(),
        None => {
            return Err(ToolFault::MissingField(Field::Goal));
        },
    };
    let value = match &r.value {
        Some(v) => v.clone(),
        None => {
            return Err(ToolFault::MissingField(Field::Value));
        },
    };
    if !check_stamp(r.timestamp) {
        let t = match r.timestamp {
            Some(t) => t,
            None => 0,
        };
        return Err(ToolFault::InvalidTimestamp(t));
    }
    Ok(
        ToolCall::AddDatapoint {
            goal,
            datapoint: CreateDatapoint {
                value,
                timestamp: r.timestamp,
                daystamp: copy_text(&r.daystamp),
                comment: copy_text(&r.comment),
                requestid: copy_text(&r.requestid),
            },
        },
    )
}

/// What fetching datapoints asks for.
fn plan_get(r: &BeeminderRequest, editing: bool) -> (out: Result<ToolCall, ToolFault>)
    ensures
        planned_view(out) == get_of(*r, editing),
{
    let goal = match &r.goal {
        Some(g) => g.clone(),
        None => {
            return Err(ToolFault::MissingField(Field::Goal));
        },
    };
    let sort = match &r.sort {
        Some(s) => Some(s.clone()),
        None => if editing {
            Some(String::from_str("timestamp"))
        } else {
            None
        },
    };
    let count = match r.count {
        Some(c) => Some(c),
        None => if editing {
            Some(20)
        } else {
            None
        },
    };
    Ok(ToolCall::GetDatapoints { goal, sort, count, page: r.page, per: r.per })
}

/// What changing a datapoint asks for.
fn plan_update(r: &BeeminderRequest) -> (out: Result<ToolCall, ToolFault>)
    ensures
        planned_view(out) == update_of(*r),
{
    let goal = match &r.goal {
        Some(g) => g.clone(),
        None => {
            return Err(ToolFault::MissingField(Field::Goal));
        },
    };
    let id = match &r.datapoint_id {
        Some(i) => i.clone(),
        None => {
            return Err(ToolFault::MissingField(Field::DatapointId));
        },
    };
    if r.value.is_none() && r.comment.is_none() && r.timestamp.is_none() {
        return Err(ToolFault::NothingToUpdate);
    }
    if !check_stamp(r.timestamp) {
        let t = match r.timestamp {
            Some(t) => t,
            None => 0,
        };
        return Err(ToolFault::InvalidTimestamp(t));
    }
    Ok(
        ToolCall::UpdateDatapoint {
            goal,
            update: UpdateDatapoint {
                id,
                timestamp: r.timestamp,
                value: copy_value(&r.value),
                comment: copy_text(&r.comment),
            },
        },
    )
}

/// What deleting a datapoint asks for.
fn plan_delete(r: &BeeminderRequest) -> (out: Result<ToolCall, ToolFault>)
    ensures
        planned_view(out) == delete_of(*r),
{
    let goal = match &r.goal {
        Some(g) => g.clone(),
        None => {
            return Err(ToolFault::MissingField(Field::Goal));
        },
    };
    match &r.datapoint_id {
        Some(i) => Ok(ToolCall::DeleteDatapoint { goal, datapoint_id: i.clone() }),
        None => Err(ToolFault::MissingField(Field::DatapointId)),
    }
}

/// What creating a goal asks for.
#[verifier::rlimit(40)]
fn plan_goal_create(r: &BeeminderRequest) -> (out: Result<ToolCall, ToolFault>)
    ensures
        planned_view(out) == goal_create_of(*r),
{
    let goal = match &r.goal {
        Some(g) => g.clone(),
        None => {
            return Err(ToolFault::MissingField(Field::Goal));
        },
    };
    let title = match &r.title {
        Some(t) => t.clone(),
        None => {
            return Err(ToolFault::MissingField(Field::Title));
        },
    };
    let type_text = match &r.goal_type {
        Some(t) => t,
        None => {
            return Err(ToolFault::MissingField(Field::GoalType));
        },
    };
    let goal_type = match GoalType::from_str(type_text.as_str()) {
        Ok(t) => t,
        Err(e) => {
            return Err(ToolFault::UnknownGoalType(e));
        },
    };
    let gunits = match &r.gunits {
        Some(g) => g.clone(),
        None => {
            return Err(ToolFault::MissingField(Field::Gunits));
        },
    };
    if !crate::goals::exactly_two(r.goalval.is_some(), r.rate.is_some(), r.goaldate.is_some()) {
        return Err(ToolFault::TwoOfThree);
    }
    if !check_stamp(r.goaldate) {
        let t = match r.goaldate {
            Some(t) => t,
            None => 0,
        };
        return Err(ToolFault::InvalidTimestamp(t));
    }
    if !check_stamp(r.initday) {
        let t = match r.initday {
            Some(t) => t,
            None => 0,
        };
        return Err(ToolFault::InvalidTimestamp(t));
    }
    let mut create = CreateGoal::new(goal, title, String::from_str(goal_type.as_str()));
    create.goalval = copy_value(&r.goalval);
    create.rate = copy_value(&r.rate);
    create.goaldate = r.goaldate;
    create.runits = copy_text(&r.runits);
    create.initval = copy_value(&r.initval);
    create.initday = r.initday;
    create.gunits = Some(gunits);
    create.yaxis = copy_text(&r.yaxis);
    create.fineprint = copy_text(&r.fineprint);
    create.secret = r.secret;
    create.datapublic = r.datapublic;
    Ok(ToolCall::GoalCreate(create))
}

/// What changing a goal asks for.
fn plan_goal_update(r: &BeeminderRequest) -> (out: Result<ToolCall, ToolFault>)
    ensures
        planned_view(out) == goal_update_of(*r),
{
    let goal = match &r.goal {
        Some(g) => g.clone(),
        None => {
            return Err(ToolFault::MissingField(Field::Goal));
        },
    };
    if r.title.is_none() && r.goalval.is_none() && r.rate.is_none() && r.goaldate.is_none()
        && r.runits.is_none() && r.yaxis.is_none() && r.fineprint.is_none() && r.secret.is_none()
        && r.datapublic.is_none() && r.archived.is_none() {
        return Err(ToolFault::NothingToUpdateGoal);
    }
    if !check_stamp(r.goaldate) {
        let t = match r.goaldate {
            Some(t) => t,
            None => 0,
        };
        return Err(ToolFault::InvalidTimestamp(t));
    }
    let mut update = UpdateGoal::new();
    update.title = copy_text(&r.title);
    update.goalval = copy_value(&r.goalval);
    update.rate = copy_value(&r.rate);
    update.goaldate = r.goaldate;
    update.runits = copy_text(&r.runits);
    update.yaxis = copy_text(&r.yaxis);
    update.fineprint = copy_text(&r.fineprint);
    update.secret = r.secret;
    update.datapublic = r.datapublic;
    update.archived = r.archived;
    Ok(ToolCall::GoalUpdate { goal, changes: update })
}

/// What adding a batch of datapoints asks for.
fn plan_batch_call(r: &BeeminderRequest) -> (out: Result<ToolCall, ToolFault>)
    ensures
        planned_view(out) == batch_call_of(*r),
{
    let goal = match &r.goal {
        Some(g) => g.clone(),
        None => {
            return Err(ToolFault::MissingField(Field::Goal));
        },
    };
    let inputs = match &r.datapoints {
        Some(d) => d,
        None => {
            return Err(ToolFault::NoDatapoints);
        },
    };
    if inputs.len() == 0 {
        return Err(ToolFault::NoDatapoints);
    }
    match plan_batch(inputs) {
        Ok(datapoints) => Ok(ToolCall::AddBatch { goal, datapoints }),
        Err(t) => Err(ToolFault::InvalidTimestamp(t)),
    }
}

/// What a backup asks for.
fn plan_backup(r: &BeeminderRequest) -> (out: Result<ToolCall, ToolFault>)
    ensures
        planned_view(out) == backup_of(*r),
{
    let max_goals = match r.max_goals {
        Some(n) => {
            if n > usize::MAX as u64 {
                return Err(ToolFault::TooManyGoals);
            }
            Some(n as usize)
        },
        None => None,
    };
    let include_archived = match r.include_archived {
        Some(b) => b,
        None => true,
    };
    Ok(ToolCall::Backup { include_archived, max_goals, max_datapoints: r.max_datapoints_per_goal })
}

/// What a request asks for, or why it asks for nothing.
#[verifier::rlimit(40)]
pub fn plan_tool_call(r: &BeeminderRequest) -> (out: Result<ToolCall, ToolFault>)
    ensures
        planned_view(out) == planned(*r),
{
    let action = normalize_action(r.action.as_str());
    let a = action.as_str();
    if same_text(a, "list") || same_text(a, "listgoals") {
        Ok(ToolCall::ListGoals)
    } else if same_text(a, "listarchived") || same_text(a, "listarchivedgoals") {
        Ok(ToolCall::ListArchived)
    } else if same_text(a, "add") || same_text(a, "adddatapoint") {
        plan_add(r)
    } else if same_text(a, "getdatapoints") {
        plan_get(r, false)
    } else if same_text(a, "edit") || same_text(a, "editdatapoints") {
        plan_get(r, true)
    } else if same_text(a, "updatedatapoint") {
        plan_update(r)
    } else if same_text(a, "deletedatapoint") {
        plan_delete(r)
    } else if same_text(a, "goalcreate") {
        plan_goal_create(r)
    } else if same_text(a, "goalupdate") {
        plan_goal_update(r)
    } else if same_text(a, "goalrefresh") {
        match &r.goal {
            Some(g) => Ok(ToolCall::GoalRefresh { goal: g.clone() }),
            None => Err(ToolFault::MissingField(Field::Goal)),
        }
    } else if same_text(a, "addbatch") || same_text(a, "createall") {
        plan_batch_call(r)
    } else if same_text(a, "shortcircuit") {
        match &r.goal {
            Some(g) => Ok(ToolCall::Shortcircuit { goal: g.clone() }),
            None => Err(ToolFault::MissingField(Field::Goal)),
        }
    } else if same_text(a, "stepdown") {
        match &r.goal {
            Some(g) => Ok(ToolCall::Stepdown { goal: g.clone() }),
            None => Err(ToolFault::MissingField(Field::Goal)),
        }
    } else if same_text(a, "cancelstepdown") {
        match &r.goal {
            Some(g) => Ok(ToolCall::CancelStepdown { goal: g.clone() }),
            None => Err(ToolFault::MissingField(Field::Goal)),
        }
    } else if same_text(a, "backup") {
        plan_backup(r)
    } else {
        Err(ToolFault::UnknownAction)
    }
}

impl Field {
    /// The name of the field in a request.
    pub fn name(self) -> (n: &'static str)
        ensures
            n@ == match self {
                Field::Goal => "goal"@,
                Field::Value => "value"@,
                Field::DatapointId => "datapoint_id"@,
                Field::Title => "title"@,
                Field::GoalType => "goal_type"@,
                Field::Gunits => "gunits"@,
            },
    {
        match self {
            Field::Goal => "goal",
            Field::Value => "value",
            Field::DatapointId => "datapoint_id",
            Field::Title => "title",
            Field::GoalType => "goal_type",
            Field::Gunits => "gunits",
        }
    }
}

/// The notice for a fault.
pub open spec fn fault_message(f: FaultView) -> Seq<char> {
    match f {
        FaultView::MissingField(field) => "Missing required field: "@ + (match field {
            Field::Goal => "goal"@,
            Field::Value => "value"@,
            Field::DatapointId => "datapoint_id"@,
            Field::Title => "title"@,
            Field::GoalType => "goal_type"@,
            Field::Gunits => "gunits"@,
        }),
        FaultView::NothingToUpdate => "Provide at least one of: value, comment, timestamp"@,
        FaultView::NothingToUpdateGoal => "Provide at least one field to update (title, goalval, rate, goaldate, runits, yaxis, fineprint, secret, datapublic, archived)"@,
        FaultView::TwoOfThree => "Goal creation requires exactly two of: goalval, rate, goaldate"@,
        FaultView::NoDatapoints => "Provide datapoints as a non-empty array"@,
        FaultView::InvalidTimestamp(t) => "Invalid unix timestamp: "@ + signed_text(t as int),
        FaultView::UnknownGoalType(value) => "invalid goal type '"@ + value
            + "'; expected one of: hustler, biker, fatloser, gainer, inboxer, drinker, custom"@,
        FaultView::TooManyGoals => "max_goals exceeds the maximum supported size"@,
        FaultView::UnknownAction => "Unknown action. Try: list, add, edit, goal-create, goal-update, goal-refresh, add-batch, shortcircuit, stepdown, cancel-stepdown, get-datapoints, update-datapoint, delete-datapoint, backup"@,
    }
}

impl ToolFault {
    /// The notice for the fault.
    pub fn message(&self) -> (m: String)
        ensures
            m@ == fault_message(self@),
    {
        match self {
            ToolFault::MissingField(field) => {
                let mut m = String::from_str("Missing required field: ");
                m.append(field.name());
                m
            },
            ToolFault::NothingToUpdate => String::from_str(
                "Provide at least one of: value, comment, timestamp",
            ),
            ToolFault::NothingToUpdateGoal => String::from_str(
                "Provide at least one field to update (title, goalval, rate, goaldate, runits, yaxis, fineprint, secret, datapublic, archived)",
            ),
            ToolFault::TwoOfThree => String::from_str(
                "Goal creation requires exactly two of: goalval, rate, goaldate",
            ),
            ToolFault::NoDatapoints => String::from_str("Provide datapoints as a non-empty array"),
            ToolFault::InvalidTimestamp(t) => {
                let mut m = String::from_str("Invalid unix timestamp: ");
                let digits = signed_decimal(*t);
                m.append(digits.as_str());
                m
            },
            ToolFault::UnknownGoalType(e) => e.message(),
            ToolFault::TooManyGoals => String::from_str(
                "max_goals exceeds the maximum supported size",
            ),
            ToolFault::UnknownAction => String::from_str(
                "Unknown action. Try: list, add, edit, goal-create, goal-update, goal-refresh, add-batch, shortcircuit, stepdown, cancel-stepdown, get-datapoints, update-datapoint, delete-datapoint, backup",
            ),
        }
    }
}

} // verus!
