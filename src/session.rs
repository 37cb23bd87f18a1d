use vstd::prelude::*;
use crate::address::Family;
use crate::join::{
    InterfaceRecord, JoinOutcome, JoinStep, JoinTarget, fallback, fallback_target,
    is_logged_failure, logs_failure, plan_joins, planned,
};

verus! {

/// The state of a session, as a mathematical value.
pub struct SessionModel {
    pub family: Family,
    /// Whether the interfaces could be enumerated at all.
    pub enumerated: bool,
    /// The per-interface joins, in order.
    pub targets: Seq<JoinTarget>,
    /// How many of them have been reported on.
    pub next: nat,
    /// Whether one of them succeeded.
    pub joined: bool,
    /// Whether the wildcard join has been reported on.
    pub fallback_tried: bool,
}

/// The state in which a session starts; `None` stands for an enumeration
/// that failed.
pub open spec fn start_model(f: Family, e: Option<Seq<InterfaceRecord>>) -> SessionModel {
    SessionModel {
        family: f,
        enumerated: e is Some,
        targets: match e {
            Some(s) => planned(f, s),
            None => seq![],
        },
        next: 0,
        joined: false,
        fallback_tried: false,
    }
}

/// What a session in state `m` asks for.
pub open spec fn step_of(m: SessionModel) -> JoinStep {
    if !m.enumerated {
        JoinStep::Finished
    } else if m.next < m.targets.len() {
        JoinStep::Attempt(m.targets[m.next as int])
    } else if !m.joined && !m.fallback_tried {
        JoinStep::Attempt(fallback(m.family))
    } else {
        JoinStep::Finished
    }
}

/// The state after the attempt that `step_of(m)` asked for came to `o`.
pub open spec fn after(m: SessionModel, o: JoinOutcome) -> SessionModel {
    if !m.enumerated {
        m
    } else if m.next < m.targets.len() {
        SessionModel { next: m.next + 1, joined: m.joined || o == JoinOutcome::Joined, ..m }
    } else if !m.joined && !m.fallback_tried {
        SessionModel { fallback_tried: true, ..m }
    } else {
        m
    }
}

/// The joins attempted from state `m` when the attempts come, in turn, to
/// the outcomes `outs`.
pub open spec fn run(m: SessionModel, outs: Seq<JoinOutcome>) -> Seq<JoinTarget>
    decreases outs.len(),
{
    if outs.len() == 0 {
        seq![]
    } else {
        match step_of(m) {
            JoinStep::Finished => seq![],
            JoinStep::Attempt(t) => seq![t] + run(after(m, outs[0]), outs.drop_first()),
        }
    }
}

/// The decisions of one multicast-group join procedure: which joins to
/// attempt, in which order, and whether the wildcard join is still owed.
/// The caller performs each join and reports its outcome.
pub struct JoinSession {
    family: Family,
    enumerated: bool,
    targets: Vec<JoinTarget>,
    next: usize,
    joined: bool,
    fallback_tried: bool,
}

impl View for JoinSession {
    type V = SessionModel;

    closed spec fn view(&self) -> SessionModel {
        SessionModel {
            family: self.family,
            enumerated: self.enumerated,
            targets: self.targets@,
            next: self.next as nat,
            joined: self.joined,
            fallback_tried: self.fallback_tried,
        }
    }
}

impl JoinSession {
    pub closed spec fn wf(&self) -> bool {
        self.next <= self.targets@.len()
    }

    /// Starts a session on the result of the interface enumeration; `None`
    /// stands for an enumeration that failed, after which nothing is joined.
    pub fn start(family: Family, enumeration: Option<Vec<InterfaceRecord>>) -> (s: JoinSession)
        ensures
            s.wf(),
            s@ == start_model(
                family,
                match enumeration {
                    Some(v) => Some(v@),
                    None => None,
                },
            ),
    {
        match enumeration {
            Some(v) => JoinSession {
                family,
                enumerated: true,
                targets: plan_joins(family, &v),
                next: 0,
                joined: false,
                fallback_tried: false,
            },
            None => JoinSession {
                family,
                enumerated: false,
                targets: Vec::new(),
                next: 0,
                joined: false,
                fallback_tried: false,
            },
        }
    }

    /// The join to attempt now, or `Finished`.
    pub fn next_step(&self) -> (r: JoinStep)
        requires
            self.wf(),
        ensures
            r == step_of(self@),
    {
        if !self.enumerated {
            JoinStep::Finished
        } else if self.next < self.targets.len() {
            JoinStep::Attempt(self.targets[self.next])
        } else if !self.joined && !self.fallback_tried {
            JoinStep::Attempt(fallback_target(self.family))
        } else {
            JoinStep::Finished
        }
    }

    /// Records the outcome of the join that `next_step` asked for. Returns
    /// whether the outcome is a failure worth a diagnostic; no outcome is
    /// an error of the session.
    pub fn report(&mut self, outcome: JoinOutcome) -> (log: bool)
        requires
            old(self).wf(),
        ensures
            final(self).wf(),
            final(self)@ == after(old(self)@, outcome),
            log == is_logged_failure(outcome),
    {
        if !self.enumerated {
        } else if self.next < self.targets.len() {
            self.next = self.next + 1;
            if let JoinOutcome::Joined = outcome {
                self.joined = true;
            }
        } else if !self.joined && !self.fallback_tried {
            self.fallback_tried = true;
        }
        logs_failure(outcome)
    }

    /// Whether one of the per-interface joins succeeded so far.
    pub fn joined(&self) -> (r: bool)
        ensures
            r == self@.joined,
    {
        self.joined
    }
}

} // verus!
