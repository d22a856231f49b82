//! The collaboration tools of an agent.
pub mod close_agent;
pub mod compact_parent_context;
pub mod config;
pub mod handler;
pub mod list_agents;
pub mod resume_agent;
pub mod send_input;
pub mod spawn;
pub mod wait;
