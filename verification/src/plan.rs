//! Plans: a fixed list of steps that someone else performs one by one.
//!
//! The library decides what is to be done and what a failure means; the
//! caller does the work and reports how each step went. A step is either
//! required, so that its failure ends the plan at once, or optional, so that
//! its failure is only worth a warning.

use vstd::prelude::*;

verus! {

/// One step of a plan.
#[derive(Debug, PartialEq, Eq)]
pub struct PlanStep<T> {
    /// What is to be done.
    pub action: T,
    /// Whether the plan ends when this step fails.
    pub required: bool,
}

/// What a report did to a plan.
#[derive(Debug, Clone, Copy, PartialEq, Eq, Structural)]
pub enum Reaction {
    /// The step succeeded; the plan moved on.
    Advanced,
    /// An optional step failed; the plan moved on all the same.
    Warned,
    /// A required step failed; no further step will be handed out.
    Aborted,
    /// No step was waiting for a report; nothing changed.
    Ignored,
}

/// Where a plan stands.
#[derive(Debug, Clone, Copy, PartialEq, Eq, Structural)]
pub enum Outcome {
    /// A step is waiting to be performed.
    Pending,
    /// Every step was performed, and no required one failed.
    Completed,
    /// The required step at index `at` failed; the steps after it were dropped.
    Aborted { at: usize },
}

/// A list of steps with a cursor on the next one to perform.
#[derive(Debug)]
pub struct Plan<T> {
    steps: Vec<PlanStep<T>>,
    cursor: usize,
    halted: bool,
}

impl<T> Plan<T> {
    /// The steps, in the order in which they are handed out.
    pub closed spec fn steps(&self) -> Seq<PlanStep<T>> {
        self.steps@
    }

    /// How many steps have been reported on without ending the plan.
    pub closed spec fn position(&self) -> nat {
        self.cursor as nat
    }

    /// Whether a required step has failed.
    pub closed spec fn halted(&self) -> bool {
        self.halted
    }

    #[verifier::type_invariant]
    closed spec fn wf(&self) -> bool {
        &&& self.cursor <= self.steps.len()
        &&& self.halted ==> self.cursor < self.steps.len() && self.steps@[self.cursor as int].required
    }

    /// Whether a step is waiting to be performed.
    pub open spec fn pending(&self) -> bool {
        !self.halted() && self.position() < self.steps().len()
    }

    /// A plan over `steps`, with nothing performed yet.
    pub fn new(steps: Vec<PlanStep<T>>) -> (plan: Plan<T>)
        ensures
            plan.steps() == steps@,
            plan.position() == 0,
            !plan.halted(),
    {
        Plan { steps, cursor: 0, halted: false }
    }

    /// The number of steps in the plan, performed or not.
    pub fn len(&self) -> (n: usize)
        ensures
            n == self.steps().len(),
    {
        self.steps.len()
    }

    /// The step to perform next: the one under the cursor, unless the plan
    /// has ended.
    pub fn current(&self) -> (step: Option<&PlanStep<T>>)
        ensures
            self.pending() ==> step == Some(&self.steps()[self.position() as int]),
            !self.pending() ==> step.is_none(),
    {
        proof {
            use_type_invariant(self);
        }
        if !self.halted && self.cursor < self.steps.len() {
            Some(&self.steps[self.cursor])
        } else {
            None
        }
    }

    /// The required step whose failure ended the plan, if one did.
    pub fn failed(&self) -> (step: Option<&PlanStep<T>>)
        ensures
            self.halted() ==> self.position() < self.steps().len() && step == Some(
                &self.steps()[self.position() as int],
            ),
            !self.halted() ==> step.is_none(),
            step.is_some() ==> step.unwrap().required,
    {
        proof {
            use_type_invariant(self);
        }
        if self.halted {
            Some(&self.steps[self.cursor])
        } else {
            None
        }
    }

    /// What a report does to the plan: nothing where no step is waiting;
    /// else success moves on, the failure of an optional step warns and moves
    /// on, and the failure of a required step ends the plan.
    pub open spec fn reaction_to(&self, succeeded: bool) -> Reaction {
        if !self.pending() {
            Reaction::Ignored
        } else if succeeded {
            Reaction::Advanced
        } else if self.steps()[self.position() as int].required {
            Reaction::Aborted
        } else {
            Reaction::Warned
        }
    }

    /// Whether `next` is this plan after a report: the same steps, the
    /// cursor one further where the plan moved on, and halted where it
    /// ended or had ended before.
    pub open spec fn reported(&self, succeeded: bool, next: Plan<T>) -> bool {
        let reaction = self.reaction_to(succeeded);
        &&& next.steps() == self.steps()
        &&& next.position() == if reaction == Reaction::Advanced || reaction == Reaction::Warned {
            self.position() + 1
        } else {
            self.position()
        }
        &&& next.halted() == (self.halted() || reaction == Reaction::Aborted)
    }

    /// Takes the report on the current step. Success moves the cursor on;
    /// so does the failure of an optional step; the failure of a required
    /// step ends the plan with the cursor left on that step.
    pub fn report(&mut self, succeeded: bool) -> (reaction: Reaction)
        ensures
            reaction == old(self).reaction_to(succeeded),
            old(self).reported(succeeded, *final(self)),
    {
        proof {
            use_type_invariant(&*self);
        }
        if self.halted || self.cursor >= self.steps.len() {
            Reaction::Ignored
        } else if succeeded {
            self.cursor = self.cursor + 1;
            Reaction::Advanced
        } else if self.steps[self.cursor].required {
            self.halted = true;
            Reaction::Aborted
        } else {
            self.cursor = self.cursor + 1;
            Reaction::Warned
        }
    }

    /// Where the plan stands.
    pub fn outcome(&self) -> (o: Outcome)
        ensures
            match o {
                Outcome::Pending => self.pending(),
                Outcome::Completed => !self.halted() && self.position() == self.steps().len(),
                Outcome::Aborted { at } => {
                    &&& self.halted()
                    &&& at == self.position()
                    &&& at < self.steps().len()
                    &&& self.steps()[at as int].required
                },
            },
    {
        proof {
            use_type_invariant(self);
        }
        if self.halted {
            Outcome::Aborted { at: self.cursor }
        } else if self.cursor < self.steps.len() {
            Outcome::Pending
        } else {
            Outcome::Completed
        }
    }
}

/// Whether every step of a plan is required.
pub open spec fn all_required<T>(steps: Seq<PlanStep<T>>) -> bool {
    forall|i: int| 0 <= i < steps.len() ==> (#[trigger] steps[i]).required
}

} // verus!
