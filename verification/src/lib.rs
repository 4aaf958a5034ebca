//! Guardian: the verified decision core of an AI-agent supervisor.
pub mod config;
pub mod event;
pub mod notification;
pub mod text;
pub mod types;
pub mod risk;
pub mod ids;
pub mod json;
pub mod safety;
pub mod gate;
pub mod kill_switch;
pub mod rollback;
pub mod engine;
pub mod sensors;
pub mod queries;
pub mod mcp;
pub mod tokens;
