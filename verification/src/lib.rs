//! Verified core of a local runtime that drives the Codex CLI: the command
//! line Codex is started with, the stable events its JSONL output stands for,
//! the task registry, and the decisions of the JSON-RPC service.

pub mod text;
pub mod adapter;
pub mod errors;
pub mod json;
pub mod events;
pub mod registry;
pub mod service;
pub mod monitor;
