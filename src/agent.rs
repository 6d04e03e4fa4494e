use vstd::prelude::*;
use crate::ids::fresh_uuid;

verus! {

/// Identifier of an agent.
#[derive(Debug, Clone, Copy, PartialEq, Eq, Structural, Hash)]
pub struct AgentId(pub u128);

impl AgentId {
    /// A fresh random identifier.
    pub fn new() -> (r: Self) {
        AgentId(fresh_uuid())
    }
}

/// Kind of agent backend.
#[derive(Debug, Clone, Copy, PartialEq, Eq, Structural)]
pub enum AgentType {
    Ollama,
}

impl AgentType {
    /// The display name of the backend.
    pub fn name(&self) -> (r: &'static str)
        ensures
            r@ == "Ollama"@,
    {
        match self {
            AgentType::Ollama => "Ollama",
        }
    }
}

/// Connection state of an agent.
#[derive(Debug, Clone, PartialEq, Eq)]
pub enum AgentStatus {
    Disconnected,
    Connecting,
    Connected,
    Error(String),
}

/// Where an Ollama agent runs and which model it uses.
#[derive(Debug, Clone)]
pub struct OllamaConfig {
    pub host: String,
    pub model: String,
}

} // verus!
