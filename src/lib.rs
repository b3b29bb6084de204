//! Autonomous operation of a coding agent: turning the agent runtime's event stream
//! into conversation turns, delegating approvals to a decision service, driving
//! successive turns with checkpoints, and the file-based supervisor handoff.
pub mod driver;
pub mod exec;
pub mod handoff;
pub mod json;
pub mod protocol;
pub mod realtime;
pub mod template;
pub mod text;
pub mod turn;
pub mod verdict;
