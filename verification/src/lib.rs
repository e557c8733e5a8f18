use vstd::prelude::*;

pub mod text;
pub mod types;
pub mod json;
pub mod message;
pub mod configs;
pub mod agent_role;
pub mod error;
pub mod command;
pub mod think;
pub mod registry;
pub mod effective;
pub mod nexus_repo;
pub mod command_exec;
pub mod provider;
pub mod context_builder;
pub mod context_cache;
pub mod session_context;
pub mod batching;
pub mod channel;
pub mod station;
pub mod pipelines;
pub mod memory_reader;
pub mod context_config;
pub mod agent_config;
pub mod order;
pub mod recent;
pub mod ego;
pub mod management;
pub mod incoming;
pub mod memory_records;
pub mod key_change;
pub mod laws;

verus! {
} // verus!
