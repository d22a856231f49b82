//! The tools by which agents start, steer and stop each other.
pub mod collab;
pub mod multi_agents;
pub mod refusal;
