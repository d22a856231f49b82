//! The tools of agents that own other agents, and of supervisors.
pub mod close_agent;
pub mod close_agent_v2;
pub mod message_tool;
pub mod supervisor_compact_parent_context;
pub mod supervisor_followup_parent;
pub mod supervisor_snooze;
