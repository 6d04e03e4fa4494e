use vstd::prelude::*;
use crate::agent::AgentId;
use crate::ids::fresh_uuid;

verus! {

/// Identifier of a plan.
#[derive(Debug, Clone, Copy, PartialEq, Eq, Structural, Hash)]
pub struct PlanId(pub u128);

impl PlanId {
    /// A fresh random identifier.
    pub fn new() -> (r: Self) {
        PlanId(fresh_uuid())
    }
}

/// Progress of one step of a plan.
#[derive(Debug, Clone, Copy, PartialEq, Eq, Structural)]
pub enum PlanStepStatus {
    Pending,
    InProgress,
    Completed,
    Failed,
}

/// One step of a plan, with its own sub-steps.
#[derive(Debug)]
pub struct PlanStep {
    pub description: String,
    pub status: PlanStepStatus,
    pub sub_steps: Vec<PlanStep>,
}

impl PlanStep {
    /// A pending step without sub-steps.
    pub fn new(description: String) -> (r: Self)
        ensures
            r.description@ == description@,
            r.status == PlanStepStatus::Pending,
            r.sub_steps@.len() == 0,
    {
        PlanStep { description, status: PlanStepStatus::Pending, sub_steps: Vec::new() }
    }
}

/// A plan that an agent follows.
#[derive(Debug)]
pub struct Plan {
    pub id: PlanId,
    pub agent_id: AgentId,
    pub title: String,
    pub description: String,
    pub steps: Vec<PlanStep>,
}

impl Plan {
    /// A plan without steps, under a fresh identifier.
    pub fn new(agent_id: AgentId, title: String, description: String) -> (r: Self)
        ensures
            r.agent_id == agent_id,
            r.title == title,
            r.description == description,
            r.steps@.len() == 0,
    {
        Plan { id: PlanId::new(), agent_id, title, description, steps: Vec::new() }
    }

    /// Appends a step.
    pub fn add_step(&mut self, step: PlanStep)
        ensures
            final(self).steps@ == old(self).steps@.push(step),
            final(self).id == old(self).id,
            final(self).agent_id == old(self).agent_id,
            final(self).title == old(self).title,
            final(self).description == old(self).description,
    {
        self.steps.push(step);
    }
}

} // verus!
