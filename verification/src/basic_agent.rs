//! The identity and lifecycle state that every agent carries: an objective,
//! a role label, a lifecycle state, and an append-only transcript of all
//! model exchanges the agent has made.

use vstd::prelude::*;

verus! {

/// Who produced a transcript message.
#[derive(Clone, Copy, Debug, PartialEq, Eq, Structural)]
pub enum Role {
    System,
    User,
    Assistant,
}

/// One entry of an agent's transcript; immutable once appended.
#[derive(Clone, Debug)]
pub struct Message {
    pub role: Role,
    pub content: String,
}

/// Lifecycle state of an agent; not every agent visits every state.
#[derive(Clone, Copy, Debug, PartialEq, Eq, Structural)]
pub enum AgentState {
    Discovery,
    Working,
    UnitTesting,
    Finished,
}

/// An agent's identity and lifecycle state.
#[derive(Debug)]
pub struct BasicAgent {
    pub objective: String,
    pub position: String,
    pub state: AgentState,
    pub memory: Vec<Message>,
}

impl BasicAgent {
    /// Move the agent to a new lifecycle state; identity and transcript stay.
    pub fn update_state(&mut self, new_state: AgentState)
        ensures
            final(self).state == new_state,
            final(self).objective == old(self).objective,
            final(self).position == old(self).position,
            final(self).memory == old(self).memory,
    {
        self.state = new_state;
    }
}

} // verus!
