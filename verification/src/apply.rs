//! The order in which a plan is applied, and the account of what has been
//! applied when an operation fails.
//!
//! The remote store is the caller's: the caller asks for the next operation,
//! performs it, and reports how it went. Nothing is retried or rolled back.

use vstd::prelude::*;
use crate::plan::{empty_plan, Plan, PlanView};

verus! {

/// How many operations of each kind have succeeded.
#[derive(Debug, Clone, Copy, PartialEq, Eq, Structural)]
pub struct Applied {
    pub creates: usize,
    pub updates: usize,
    pub deletes: usize,
}

/// One operation of a plan, by its place in the plan's list of that kind.
#[derive(Debug, Clone, Copy, PartialEq, Eq, Structural)]
pub enum Operation {
    Create(usize),
    Update(usize),
    Delete(usize),
}

/// The operation that failed, and what had succeeded before it.
#[derive(Debug, Clone, Copy, PartialEq, Eq, Structural)]
pub struct ApplyFailure {
    pub applied: Applied,
    pub operation: Operation,
}

/// The state of applying one plan.
#[derive(Debug, Clone, Copy, PartialEq, Eq, Structural)]
pub struct Executor {
    pub applied: Applied,
    /// Set once an operation has failed; nothing is issued after that.
    pub stopped: bool,
}

/// The counts before anything was applied.
pub open spec fn nothing_applied() -> Applied {
    Applied { creates: 0, updates: 0, deletes: 0 }
}

/// The state in which nothing has been applied.
pub open spec fn initial() -> Executor {
    Executor { applied: nothing_applied(), stopped: false }
}

/// The number of operations in a plan.
pub open spec fn total(plan: PlanView) -> nat {
    plan.creates.len() + plan.updates.len() + plan.deletes.len()
}

/// The counts after the first `n` operations of a plan have succeeded: the
/// creates come first, then the updates, then the deletes.
pub open spec fn split(plan: PlanView, n: nat) -> (nat, nat, nat) {
    let c = plan.creates.len();
    let u = plan.updates.len();
    let d = plan.deletes.len();
    if n <= c {
        (n, 0, 0)
    } else if n <= c + u {
        (c, (n - c) as nat, 0)
    } else if n <= c + u + d {
        (c, u, (n - c - u) as nat)
    } else {
        (c, u, d)
    }
}

impl Applied {
    /// The number of operations that have succeeded.
    pub open spec fn count(&self) -> nat {
        (self.creates + self.updates + self.deletes) as nat
    }
}

impl Executor {
    /// Whether the state can arise while applying `plan`: no count exceeds its
    /// list, no update has been applied before the last create, and no delete
    /// before the last update.
    pub open spec fn wf(&self, plan: PlanView) -> bool {
        &&& self.applied.count() <= total(plan)
        &&& split(plan, self.applied.count()) == (
            self.applied.creates as nat,
            self.applied.updates as nat,
            self.applied.deletes as nat,
        )
    }

    /// The operation to issue next, if any: the first create not yet applied,
    /// else the first such update, else the first such delete; none once an
    /// operation has failed.
    pub open spec fn next_of(&self, plan: PlanView) -> Option<Operation> {
        if self.stopped {
            None
        } else if self.applied.creates < plan.creates.len() {
            Some(Operation::Create(self.applied.creates))
        } else if self.applied.updates < plan.updates.len() {
            Some(Operation::Update(self.applied.updates))
        } else if self.applied.deletes < plan.deletes.len() {
            Some(Operation::Delete(self.applied.deletes))
        } else {
            None
        }
    }

    /// Whether the whole plan has been applied.
    pub open spec fn complete(&self, plan: PlanView) -> bool {
        &&& !self.stopped
        &&& self.applied.creates == plan.creates.len()
        &&& self.applied.updates == plan.updates.len()
        &&& self.applied.deletes == plan.deletes.len()
    }

    /// Whether the state can arise while applying `plan`.
    pub fn check(&self, plan: &Plan) -> (r: bool)
        ensures
            r == self.wf(plan@),
    {
        proof {
            assert(plan@.creates.len() == plan.creates@.len());
            assert(plan@.updates.len() == plan.updates@.len());
            assert(plan@.deletes.len() == plan.deletes@.len());
        }
        let c = plan.creates.len();
        let u = plan.updates.len();
        let d = plan.deletes.len();
        let a = &self.applied;
        a.creates <= c && a.updates <= u && a.deletes <= d && (a.updates == 0 || a.creates == c)
            && (a.deletes == 0 || (a.creates == c && a.updates == u))
    }

    /// The state in which nothing has been applied.
    pub fn new() -> (e: Executor)
        ensures
            e == initial(),
            forall|plan: PlanView| #[trigger] e.wf(plan),
    {
        Executor { applied: Applied { creates: 0, updates: 0, deletes: 0 }, stopped: false }
    }

    /// The operation to issue next, if any.
    pub fn next(&self, plan: &Plan) -> (op: Option<Operation>)
        ensures
            op == self.next_of(plan@),
    {
        if self.stopped {
            None
        } else if self.applied.creates < plan.creates.len() {
            Some(Operation::Create(self.applied.creates))
        } else if self.applied.updates < plan.updates.len() {
            Some(Operation::Update(self.applied.updates))
        } else if self.applied.deletes < plan.deletes.len() {
            Some(Operation::Delete(self.applied.deletes))
        } else {
            None
        }
    }

    /// Records that the operation issued last has succeeded.
    pub fn succeed(&mut self, plan: &Plan)
        requires
            old(self).wf(plan@),
            old(self).next_of(plan@) is Some,
        ensures
            final(self).wf(plan@),
            !final(self).stopped,
            final(self).applied.count() == old(self).applied.count() + 1,
            final(self).applied == match old(self).next_of(plan@)->0 {
                Operation::Create(_) => Applied {
                    creates: (old(self).applied.creates + 1) as usize,
                    ..old(self).applied
                },
                Operation::Update(_) => Applied {
                    updates: (old(self).applied.updates + 1) as usize,
                    ..old(self).applied
                },
                Operation::Delete(_) => Applied {
                    deletes: (old(self).applied.deletes + 1) as usize,
                    ..old(self).applied
                },
            },
    {
        proof {
            assert(plan@.creates.len() == plan.creates@.len());
            assert(plan@.updates.len() == plan.updates@.len());
            assert(plan@.deletes.len() == plan.deletes@.len());
        }
        if self.applied.creates < plan.creates.len() {
            self.applied.creates = self.applied.creates + 1;
        } else if self.applied.updates < plan.updates.len() {
            self.applied.updates = self.applied.updates + 1;
        } else {
            let deletes = plan.deletes.len();
            assert(self.applied.deletes < deletes);
            self.applied.deletes = self.applied.deletes + 1;
        }
    }

    /// Records that the operation issued last has failed, and says what had
    /// succeeded before it. Nothing is issued afterwards.
    pub fn fail(&mut self, plan: &Plan) -> (failure: ApplyFailure)
        requires
            old(self).next_of(plan@) is Some,
        ensures
            final(self).stopped,
            final(self).applied == old(self).applied,
            final(self).next_of(plan@) is None,
            failure.applied == old(self).applied,
            failure.operation == old(self).next_of(plan@)->0,
    {
        let operation = if self.applied.creates < plan.creates.len() {
            Operation::Create(self.applied.creates)
        } else if self.applied.updates < plan.updates.len() {
            Operation::Update(self.applied.updates)
        } else {
            Operation::Delete(self.applied.deletes)
        };
        self.stopped = true;
        ApplyFailure { applied: self.applied, operation }
    }

    /// Whether the whole plan has been applied.
    pub fn is_complete(&self, plan: &Plan) -> (r: bool)
        ensures
            r == self.complete(plan@),
    {
        !self.stopped && self.applied.creates == plan.creates.len() && self.applied.updates
            == plan.updates.len() && self.applied.deletes == plan.deletes.len()
    }
}

/// The operations of a plan are issued in one fixed order: each list from its
/// first entry to its last, no update before every create has succeeded, and
/// no delete before every create and every update has.
pub proof fn creates_then_updates_then_deletes(e: Executor, plan: PlanView)
    requires
        e.wf(plan),
    ensures
        match e.next_of(plan) {
            Some(Operation::Create(i)) => {
                &&& i == e.applied.creates
                &&& e.applied.updates == 0
                &&& e.applied.deletes == 0
            },
            Some(Operation::Update(i)) => {
                &&& i == e.applied.updates
                &&& e.applied.creates == plan.creates.len()
                &&& e.applied.deletes == 0
            },
            Some(Operation::Delete(i)) => {
                &&& i == e.applied.deletes
                &&& e.applied.creates == plan.creates.len()
                &&& e.applied.updates == plan.updates.len()
            },
            None => e.stopped || e.complete(plan),
        },
{
}

/// Applying the empty plan issues no operation, and is complete at once.
pub proof fn empty_plan_issues_nothing()
    ensures
        initial().next_of(empty_plan()) is None,
        initial().complete(empty_plan()),
{
}

/// When an operation fails after `n` others have succeeded, the account
/// holds those `n`, counted in the fixed order, and nothing further is issued.
pub proof fn failure_keeps_the_count(e: Executor, plan: PlanView)
    requires
        e.wf(plan),
        e.next_of(plan) is Some,
    ensures
        e.applied.count() < total(plan),
        split(plan, e.applied.count()) == (
            e.applied.creates as nat,
            e.applied.updates as nat,
            e.applied.deletes as nat,
        ),
        (Executor { stopped: true, ..e }).next_of(plan) is None,
{
}

/// The state after one more operation has succeeded.
pub open spec fn advanced(e: Executor, plan: PlanView) -> Executor {
    match e.next_of(plan) {
        Some(Operation::Create(_)) => Executor {
            applied: Applied { creates: (e.applied.creates + 1) as usize, ..e.applied },
            ..e
        },
        Some(Operation::Update(_)) => Executor {
            applied: Applied { updates: (e.applied.updates + 1) as usize, ..e.applied },
            ..e
        },
        Some(Operation::Delete(_)) => Executor {
            applied: Applied { deletes: (e.applied.deletes + 1) as usize, ..e.applied },
            ..e
        },
        None => e,
    }
}

/// The state after the first `n` operations of a plan have succeeded.
pub open spec fn after_successes(plan: PlanView, n: nat) -> Executor
    decreases n,
{
    if n == 0 {
        initial()
    } else {
        advanced(after_successes(plan, (n - 1) as nat), plan)
    }
}

/// After the first `n` operations of a plan have succeeded, the account
/// holds them split in the fixed order, and the plan is complete exactly
/// when `n` is the number of its operations. An operation that then fails is
/// reported with that account.
pub proof fn successes_are_counted_in_order(plan: PlanView, n: nat)
    requires
        n <= total(plan),
        plan.creates.len() <= usize::MAX,
        plan.updates.len() <= usize::MAX,
        plan.deletes.len() <= usize::MAX,
    ensures
        after_successes(plan, n).wf(plan),
        !after_successes(plan, n).stopped,
        split(plan, n) == (
            after_successes(plan, n).applied.creates as nat,
            after_successes(plan, n).applied.updates as nat,
            after_successes(plan, n).applied.deletes as nat,
        ),
        after_successes(plan, n).complete(plan) <==> n == total(plan),
        after_successes(plan, n).next_of(plan) is Some <==> n < total(plan),
    decreases n,
{
    if n > 0 {
        successes_are_counted_in_order(plan, (n - 1) as nat);
    }
}

} // verus!
