//! Agent sessions as the daemon keeps them.

use vstd::prelude::*;

verus! {

/// What an agent session is doing.
#[derive(Clone, Copy, Debug, PartialEq, Eq, Structural)]
pub enum AgentState {
    Working,
    Waiting,
    Done,
}

/// The non-empty details that a session's state file reported; `pid` is
/// the process id in decimal.
#[derive(Clone, Debug)]
pub struct SessionMetadata {
    pub project: Option<String>,
    pub branch: Option<String>,
    pub workspace: Option<String>,
    pub blocked_on: Option<String>,
    pub message: Option<String>,
    pub pid: Option<String>,
}

/// A persisted agent session record, used for cold-start hydration.
#[derive(Clone, Debug)]
pub struct AgentSessionRecord {
    pub session_id: String,
    pub cwd: String,
    pub state: AgentState,
    pub updated_at_unix_ms: u64,
    pub metadata: Option<SessionMetadata>,
    /// OS process ID of the agent, used to filter out dead sessions.
    pub pid: Option<u32>,
}

} // verus!
