//! Verified task-loading and builtin-threading engine for a Cairo-style
//! bootloader run.
//!
//! The engine aggregates independently-compiled sub-programs ("tasks") into a
//! single host execution: it loads each task's code or recorded memory into a
//! model of the host's segmented memory, threads resource-capability pointers
//! ("builtins") into and out of each task's frame, verifies program identity
//! through a Pedersen chain hash, and records the page layout of each task's
//! output ("fact topology").
//!
//! The host virtual machine is represented by an explicit, verified memory
//! model ([`memory::Memory`]); the surrounding driver converts between that
//! model and the live machine at the edges.

pub mod builtins;
pub mod execute_task;
pub mod fact_topologies;
pub mod felt;
pub mod hash;
pub mod memory;
pub mod pie;
pub mod program;
pub mod simple_bootloader;
pub mod state;
pub mod tasks;
pub mod types;
