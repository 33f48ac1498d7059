//! What is sent to the remote store to create or to change a datapoint.

use vstd::prelude::*;
use vstd::string::StringExecFns;
use crate::model::{opt_text, Datapoint, Measurement};

verus! {

/// The value of an optional count of seconds.
pub open spec fn opt_int(t: Option<i64>) -> Option<int> {
    match t {
        Some(v) => Some(v as int),
        None => None,
    }
}

/// The text of an optional measurement.
pub open spec fn opt_value(v: Option<Measurement>) -> Option<Seq<char>> {
    match v {
        Some(m) => Some(m@),
        None => None,
    }
}

/// The fields of a datapoint to create.
#[derive(Debug, PartialEq, Eq)]
pub struct CreateDatapoint {
    pub value: Measurement,
    /// Seconds since the Unix epoch; the remote store takes the present where none is given.
    pub timestamp: Option<i64>,
    /// A day such as `20150831`, in place of a timestamp.
    pub daystamp: Option<String>,
    pub comment: Option<String>,
    /// An identity by which the remote store recognises a repeated request.
    pub requestid: Option<String>,
}

/// The mathematical value of a [`CreateDatapoint`].
pub struct CreateView {
    pub value: Seq<char>,
    pub timestamp: Option<int>,
    pub daystamp: Option<Seq<char>>,
    pub comment: Option<Seq<char>>,
    pub requestid: Option<Seq<char>>,
}

impl View for CreateDatapoint {
    type V = CreateView;

    open spec fn view(&self) -> CreateView {
        CreateView {
            value: self.value@,
            timestamp: opt_int(self.timestamp),
            daystamp: opt_text(self.daystamp),
            comment: opt_text(self.comment),
            requestid: opt_text(self.requestid),
        }
    }
}

impl CreateDatapoint {
    /// A datapoint with a value and nothing else.
    pub fn new(value: Measurement) -> (dp: CreateDatapoint)
        ensures
            dp@ == (CreateView {
                value: value@,
                timestamp: None,
                daystamp: None,
                comment: None,
                requestid: None,
            }),
    {
        CreateDatapoint { value, timestamp: None, daystamp: None, comment: None, requestid: None }
    }

    /// The same datapoint with the timestamp set.
    pub fn with_timestamp(self, timestamp: i64) -> (dp: CreateDatapoint)
        ensures
            dp@ == (CreateView { timestamp: Some(timestamp as int), ..self@ }),
    {
        let mut dp = self;
        dp.timestamp = Some(timestamp);
        dp
    }

    /// The same datapoint with the daystamp set.
    pub fn with_daystamp(self, daystamp: &str) -> (dp: CreateDatapoint)
        ensures
            dp@ == (CreateView { daystamp: Some(daystamp@), ..self@ }),
    {
        let mut dp = self;
        dp.daystamp = Some(String::from_str(daystamp));
        dp
    }

    /// The same datapoint with the comment set.
    pub fn with_comment(self, comment: &str) -> (dp: CreateDatapoint)
        ensures
            dp@ == (CreateView { comment: Some(comment@), ..self@ }),
    {
        let mut dp = self;
        dp.comment = Some(String::from_str(comment));
        dp
    }

    /// The same datapoint with the request identity set.
    pub fn with_requestid(self, requestid: &str) -> (dp: CreateDatapoint)
        ensures
            dp@ == (CreateView { requestid: Some(requestid@), ..self@ }),
    {
        let mut dp = self;
        dp.requestid = Some(String::from_str(requestid));
        dp
    }
}

/// The fields of a datapoint to change; a field that is `None` is left as it is.
#[derive(Debug, PartialEq, Eq)]
pub struct UpdateDatapoint {
    pub id: String,
    pub timestamp: Option<i64>,
    pub value: Option<Measurement>,
    pub comment: Option<String>,
}

/// The mathematical value of an [`UpdateDatapoint`].
pub struct UpdateView {
    pub id: Seq<char>,
    pub timestamp: Option<int>,
    pub value: Option<Seq<char>>,
    pub comment: Option<Seq<char>>,
}

impl View for UpdateDatapoint {
    type V = UpdateView;

    open spec fn view(&self) -> UpdateView {
        UpdateView {
            id: self.id@,
            timestamp: opt_int(self.timestamp),
            value: opt_value(self.value),
            comment: opt_text(self.comment),
        }
    }
}

impl UpdateDatapoint {
    /// An update of the datapoint `id` that changes nothing.
    pub fn new(id: String) -> (up: UpdateDatapoint)
        ensures
            up@ == (UpdateView { id: id@, timestamp: None, value: None, comment: None }),
    {
        UpdateDatapoint { id, timestamp: None, value: None, comment: None }
    }

    /// The update that sets every field to what `datapoint` holds.
    pub fn from_datapoint(datapoint: &Datapoint) -> (up: UpdateDatapoint)
        ensures
            up@ == (UpdateView {
                id: datapoint@.id,
                timestamp: Some(datapoint@.timestamp),
                value: Some(datapoint@.value),
                comment: datapoint@.comment,
            }),
    {
        let comment = match &datapoint.comment {
            Some(c) => Some(c.clone()),
            None => None,
        };
        UpdateDatapoint {
            id: datapoint.id.clone(),
            timestamp: Some(datapoint.timestamp),
            value: Some(datapoint.value.clone()),
            comment,
        }
    }

    /// The same update with the timestamp set.
    pub fn with_timestamp(self, timestamp: i64) -> (up: UpdateDatapoint)
        ensures
            up@ == (UpdateView { timestamp: Some(timestamp as int), ..self@ }),
    {
        let mut up = self;
        up.timestamp = Some(timestamp);
        up
    }

    /// The same update with the value set.
    pub fn with_value(self, value: Measurement) -> (up: UpdateDatapoint)
        ensures
            up@ == (UpdateView { value: Some(value@), ..self@ }),
    {
        let mut up = self;
        up.value = Some(value);
        up
    }

    /// The same update with the comment set.
    pub fn with_comment(self, comment: &str) -> (up: UpdateDatapoint)
        ensures
            up@ == (UpdateView { comment: Some(comment@), ..self@ }),
    {
        let mut up = self;
        up.comment = Some(String::from_str(comment));
        up
    }
}

/// The fields of a goal to create.
#[derive(Debug, PartialEq, Eq)]
pub struct CreateGoal {
    /// The last part of the goal's address.
    pub slug: String,
    pub title: String,
    pub goal_type: String,
    /// The value that the goal is to reach.
    pub goalval: Option<Measurement>,
    /// The slope of the road.
    pub rate: Option<Measurement>,
    /// When the goal is to be reached, in seconds since the Unix epoch.
    pub goaldate: Option<i64>,
    /// The unit of time of the rate: `y`, `m`, `w`, `d` or `h`.
    pub runits: Option<String>,
    pub initval: Option<Measurement>,
    pub initday: Option<i64>,
    /// The unit of the goal, such as `hours`.
    pub gunits: Option<String>,
    pub yaxis: Option<String>,
    pub secret: Option<bool>,
    pub datapublic: Option<bool>,
    pub fineprint: Option<String>,
}

/// The mathematical value of a [`CreateGoal`].
pub struct CreateGoalView {
    pub slug: Seq<char>,
    pub title: Seq<char>,
    pub goal_type: Seq<char>,
    pub goalval: Option<Seq<char>>,
    pub rate: Option<Seq<char>>,
    pub goaldate: Option<int>,
    pub runits: Option<Seq<char>>,
    pub initval: Option<Seq<char>>,
    pub initday: Option<int>,
    pub gunits: Option<Seq<char>>,
    pub yaxis: Option<Seq<char>>,
    pub secret: Option<bool>,
    pub datapublic: Option<bool>,
    pub fineprint: Option<Seq<char>>,
}

impl View for CreateGoal {
    type V = CreateGoalView;

    open spec fn view(&self) -> CreateGoalView {
        CreateGoalView {
            slug: self.slug@,
            title: self.title@,
            goal_type: self.goal_type@,
            goalval: opt_value(self.goalval),
            rate: opt_value(self.rate),
            goaldate: opt_int(self.goaldate),
            runits: opt_text(self.runits),
            initval: opt_value(self.initval),
            initday: opt_int(self.initday),
            gunits: opt_text(self.gunits),
            yaxis: opt_text(self.yaxis),
            secret: self.secret,
            datapublic: self.datapublic,
            fineprint: opt_text(self.fineprint),
        }
    }
}

/// A goal with a slug, a title and a type, and nothing else.
pub open spec fn bare_goal(slug: Seq<char>, title: Seq<char>, goal_type: Seq<char>)
    -> CreateGoalView {
    CreateGoalView {
        slug,
        title,
        goal_type,
        goalval: None,
        rate: None,
        goaldate: None,
        runits: None,
        initval: None,
        initday: None,
        gunits: None,
        yaxis: None,
        secret: None,
        datapublic: None,
        fineprint: None,
    }
}

impl CreateGoal {
    /// A goal with a slug, a title and a type, and nothing else.
    pub fn new(slug: String, title: String, goal_type: String) -> (goal: CreateGoal)
        ensures
            goal@ == bare_goal(slug@, title@, goal_type@),
    {
        CreateGoal {
            slug,
            title,
            goal_type,
            goalval: None,
            rate: None,
            goaldate: None,
            runits: None,
            initval: None,
            initday: None,
            gunits: None,
            yaxis: None,
            secret: None,
            datapublic: None,
            fineprint: None,
        }
    }
}

/// The fields of a goal to change; a field that is `None` is left as it is.
#[derive(Debug, PartialEq, Eq)]
pub struct UpdateGoal {
    pub title: Option<String>,
    pub goalval: Option<Measurement>,
    pub rate: Option<Measurement>,
    pub goaldate: Option<i64>,
    pub runits: Option<String>,
    pub yaxis: Option<String>,
    pub fineprint: Option<String>,
    pub secret: Option<bool>,
    pub datapublic: Option<bool>,
    pub archived: Option<bool>,
}

/// The mathematical value of an [`UpdateGoal`].
pub struct UpdateGoalView {
    pub title: Option<Seq<char>>,
    pub goalval: Option<Seq<char>>,
    pub rate: Option<Seq<char>>,
    pub goaldate: Option<int>,
    pub runits: Option<Seq<char>>,
    pub yaxis: Option<Seq<char>>,
    pub fineprint: Option<Seq<char>>,
    pub secret: Option<bool>,
    pub datapublic: Option<bool>,
    pub archived: Option<bool>,
}

impl View for UpdateGoal {
    type V = UpdateGoalView;

    open spec fn view(&self) -> UpdateGoalView {
        UpdateGoalView {
            title: opt_text(self.title),
            goalval: opt_value(self.goalval),
            rate: opt_value(self.rate),
            goaldate: opt_int(self.goaldate),
            runits: opt_text(self.runits),
            yaxis: opt_text(self.yaxis),
            fineprint: opt_text(self.fineprint),
            secret: self.secret,
            datapublic: self.datapublic,
            archived: self.archived,
        }
    }
}

/// The update that changes nothing.
pub open spec fn no_update() -> UpdateGoalView {
    UpdateGoalView {
        title: None,
        goalval: None,
        rate: None,
        goaldate: None,
        runits: None,
        yaxis: None,
        fineprint: None,
        secret: None,
        datapublic: None,
        archived: None,
    }
}

impl UpdateGoal {
    /// The update that changes nothing.
    pub fn new() -> (update: UpdateGoal)
        ensures
            update@ == no_update(),
    {
        UpdateGoal {
            title: None,
            goalval: None,
            rate: None,
            goaldate: None,
            runits: None,
            yaxis: None,
            fineprint: None,
            secret: None,
            datapublic: None,
            archived: None,
        }
    }
}

/// A copy of an optional text.
pub fn copy_text(t: &Option<String>) -> (r: Option<String>)
    ensures
        opt_text(r) == opt_text(*t),
{
    match t {
        Some(s) => Some(s.clone()),
        None => None,
    }
}

/// A copy of an optional measurement.
pub fn copy_value(v: &Option<Measurement>) -> (r: Option<Measurement>)
    ensures
        opt_value(r) == opt_value(*v),
{
    match v {
        Some(m) => Some(m.clone()),
        None => None,
    }
}

} // verus!
