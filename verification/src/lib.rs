//! Verified core of the arbor workspace tools: pull-request status
//! summaries, review-thread conversion, agent session records and the
//! bounded in-memory log.

pub mod agent;
pub mod command;
pub mod file_agent_store;
pub mod github_service;
pub mod log_layer;
pub mod review_service;
pub mod text;
