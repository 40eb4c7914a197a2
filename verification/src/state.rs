//! The per-run engine state: the scoped variables the orchestration
//! sequence threads between its steps, as one explicit record instead of a
//! dynamically typed scope stack.

use std::collections::HashMap;

use vstd::prelude::*;

use crate::fact_topologies::{FactTopology, OutputBuiltinState};
use crate::memory::Relocatable;
use crate::types::TaskSpec;

verus! {

/// The run's scoped variables. Each is set by one orchestration step and
/// read by later ones; the fact-topology list grows monotonically.
pub struct RunState {
    /// The ordered task list, once published to the run.
    pub tasks: Option<Vec<TaskSpec>>,
    /// Index of the task currently executing, into the input's task list.
    pub current_task: Option<usize>,
    /// Base of the segment the current task's program is loaded into.
    pub program_data_base: Option<Relocatable>,
    /// Address of the current task's first code word.
    pub program_address: Option<Relocatable>,
    /// The saved output state to restore after the current task, if the
    /// task tracks pages.
    pub output_runner_data: Option<Option<OutputBuiltinState>>,
    /// Number of capabilities the current task declares.
    pub n_builtins: Option<usize>,
    /// Number of selected capabilities, published to the nested scope.
    pub n_selected_builtins: Option<usize>,
    /// Whether a nested task scope is open.
    pub task_scope_open: bool,
    /// The running task's input mapping, published to its scope.
    pub program_input: Option<HashMap<String, serde_json::Value>>,
    /// Whether the nested scope marks execution under the bootloader.
    pub with_bootloader: bool,
    /// Base address handed out for the task range checks.
    pub task_range_check_ptr: Option<Relocatable>,
    /// One fact topology per finished task, in execution order.
    pub fact_topologies: Vec<FactTopology>,
}

impl RunState {
    pub fn new() -> (r: RunState)
        ensures
            r.tasks is None,
            r.current_task is None,
            r.program_data_base is None,
            r.program_address is None,
            r.output_runner_data is None,
            r.n_builtins is None,
            r.n_selected_builtins is None,
            !r.task_scope_open,
            r.program_input is None,
            !r.with_bootloader,
            r.task_range_check_ptr is None,
            r.fact_topologies@ == Seq::<FactTopology>::empty(),
    {
        RunState {
            tasks: None,
            current_task: None,
            program_data_base: None,
            program_address: None,
            output_runner_data: None,
            n_builtins: None,
            n_selected_builtins: None,
            task_scope_open: false,
            program_input: None,
            with_bootloader: false,
            task_range_check_ptr: None,
            fact_topologies: Vec::new(),
        }
    }
}

} // verus!
