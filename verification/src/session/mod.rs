//! The parts of a session.
pub mod checkpoint_faults;
pub mod completion;
pub mod dispatch;
pub mod handlers;
pub mod idle_turn;
pub mod inject;
pub mod input_queue;
pub mod multi_agents;
pub mod persistence_repair;
pub mod recovery;
pub mod rollback;
pub mod session;
pub mod settings;
pub mod step_context;
pub mod submission_loop;
pub mod user_turn;
