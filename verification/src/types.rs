//! The task model and whole-run configuration types.
//!
//! A task is one sub-program or serialized execution aggregated into the
//! run: freshly compiled code with a hash-algorithm flag, a path reference
//! to a serialized artifact (resolved at the edge), or an artifact already
//! loaded. Exactly one variant describes a task at any time.

use std::collections::HashMap;

use vstd::prelude::*;

use crate::felt::Felt;
use crate::pie::CairoPie;
use crate::program::StrippedProgram;

verus! {

/// The opaque structured values a fresh-code task's input mapping carries;
/// the engine moves them to the nested task scope without reading them.
#[verifier::external_type_specification]
#[verifier::external_body]
pub struct ExValue(serde_json::Value);

/// Relies on `std::collections::HashMap::clone`: the copy holds exactly the
/// entries of the original map.
#[verifier::external_body]
pub fn clone_program_input(m: &HashMap<String, serde_json::Value>) -> (r: HashMap<
    String,
    serde_json::Value,
>)
    ensures
        r@ == m@,
{
    m.clone()
}

/// Schema version written into the program header.
pub type BootloaderVersion = u64;

/// Whole-run configuration committed in the output.
#[derive(Clone, PartialEq, Debug)]
pub struct BootloaderConfig {
    pub simple_bootloader_program_hash: Felt,
    pub supported_cairo_verifier_program_hashes: Vec<Felt>,
}

/// A packed output that nests further packed outputs.
#[derive(Debug)]
pub struct CompositePackedOutput {
    pub outputs: Vec<Felt>,
    pub subtasks: Vec<PackedOutput>,
}

impl CompositePackedOutput {
    /// The words hashed to commit this composite output.
    pub fn elements_for_hash(&self) -> (r: &Vec<Felt>)
        ensures
            r@ == self.outputs@,
    {
        &self.outputs
    }
}

/// One packed-output descriptor per task.
#[derive(Debug)]
pub enum PackedOutput {
    Plain(Vec<Felt>),
    Composite(CompositePackedOutput),
}

/// A task backed by freshly compiled code, with its key-value input
/// mapping for the task's own hints.
#[derive(Clone, Debug)]
pub struct RunProgramTask {
    pub program: StrippedProgram,
    pub program_input: HashMap<String, serde_json::Value>,
    pub use_poseidon: bool,
}

impl RunProgramTask {
    pub fn new(
        program: StrippedProgram,
        program_input: HashMap<String, serde_json::Value>,
        use_poseidon: bool,
    ) -> (r: RunProgramTask)
        ensures
            r.program == program,
            r.program_input == program_input,
            r.use_poseidon == use_poseidon,
    {
        RunProgramTask { program, program_input, use_poseidon }
    }

    pub fn get_program(&self) -> (r: &StrippedProgram)
        ensures
            r == &self.program,
    {
        &self.program
    }
}

/// A path reference to a serialized artifact, resolved at the edge.
#[derive(Clone, PartialEq, Debug)]
pub struct CairoPiePath {
    pub path: String,
    pub use_poseidon: bool,
}

/// A task backed by a loaded serialized artifact.
#[derive(Clone, PartialEq, Debug)]
pub struct CairoPieTask {
    pub cairo_pie: CairoPie,
    pub use_poseidon: bool,
}

impl CairoPieTask {
    pub fn new(cairo_pie: CairoPie, use_poseidon: bool) -> (r: CairoPieTask)
        ensures
            r.cairo_pie == cairo_pie,
            r.use_poseidon == use_poseidon,
    {
        CairoPieTask { cairo_pie, use_poseidon }
    }

    pub fn get_program(&self) -> (r: &StrippedProgram)
        ensures
            r == &self.cairo_pie.metadata.program,
    {
        &self.cairo_pie.metadata.program
    }
}

/// Why a task could not be used.
#[derive(Clone, Copy, PartialEq, Eq, Structural, Debug)]
pub enum TaskError {
    /// The task is a path reference that was not resolved into a loaded
    /// artifact before use.
    UnresolvedPath,
}

/// A resolved view of a task: fresh code or a loaded artifact.
pub enum LoadedTask<'a> {
    Program(&'a RunProgramTask),
    Pie(&'a CairoPieTask),
}

/// The program descriptor a resolved task carries.
pub open spec fn task_program_spec(t: TaskSpec) -> StrippedProgram
    recommends
        !(t is CairoPiePath),
{
    match t {
        TaskSpec::RunProgram(x) => x.program,
        TaskSpec::CairoPieTask(x) => x.cairo_pie.metadata.program,
        TaskSpec::CairoPiePath(_) => arbitrary(),
    }
}

/// One task slot of the run.
#[derive(Clone, Debug)]
pub enum TaskSpec {
    RunProgram(RunProgramTask),
    CairoPiePath(CairoPiePath),
    CairoPieTask(CairoPieTask),
}

impl TaskSpec {
    /// The resolved task data. A path reference fails: the artifact behind
    /// it is read and parsed at the edge, which replaces the variant with
    /// a loaded one before the engine runs.
    pub fn load_task(&self) -> (r: Result<LoadedTask<'_>, TaskError>)
        ensures
            match r {
                Ok(t) => match t {
                    LoadedTask::Program(p) => *self matches TaskSpec::RunProgram(q) && *p == q,
                    LoadedTask::Pie(p) => *self matches TaskSpec::CairoPieTask(q) && *p == q,
                },
                Err(e) => *self is CairoPiePath && e == TaskError::UnresolvedPath,
            },
    {
        match self {
            TaskSpec::RunProgram(t) => Ok(LoadedTask::Program(t)),
            TaskSpec::CairoPiePath(_) => Err(TaskError::UnresolvedPath),
            TaskSpec::CairoPieTask(t) => Ok(LoadedTask::Pie(t)),
        }
    }

    /// The task's program descriptor.
    pub fn get_program(&self) -> (r: Result<&StrippedProgram, TaskError>)
        ensures
            match r {
                Ok(p) => match self {
                    TaskSpec::RunProgram(t) => *p == t.program,
                    TaskSpec::CairoPieTask(t) => *p == t.cairo_pie.metadata.program,
                    TaskSpec::CairoPiePath(_) => false,
                },
                Err(e) => *self is CairoPiePath && e == TaskError::UnresolvedPath,
            },
    {
        match self {
            TaskSpec::RunProgram(t) => Ok(&t.program),
            TaskSpec::CairoPiePath(_) => Err(TaskError::UnresolvedPath),
            TaskSpec::CairoPieTask(t) => Ok(&t.cairo_pie.metadata.program),
        }
    }

    /// Whether the task selects the alternative hash algorithm.
    pub fn use_poseidon(&self) -> (r: bool)
        ensures
            r == match self {
                TaskSpec::RunProgram(t) => t.use_poseidon,
                TaskSpec::CairoPiePath(t) => t.use_poseidon,
                TaskSpec::CairoPieTask(t) => t.use_poseidon,
            },
    {
        match self {
            TaskSpec::RunProgram(t) => t.use_poseidon,
            TaskSpec::CairoPiePath(t) => t.use_poseidon,
            TaskSpec::CairoPieTask(t) => t.use_poseidon,
        }
    }

    /// Whether the task is backed by a serialized artifact.
    pub fn is_pie(&self) -> (r: bool)
        ensures
            r == (*self is CairoPieTask),
    {
        match self {
            TaskSpec::CairoPieTask(_) => true,
            _ => false,
        }
    }
}

/// The input of the inner bootloader: the ordered task list and
/// fact-topology handling.
#[derive(Clone, Debug)]
pub struct SimpleBootloaderInput {
    pub fact_topologies_path: Option<String>,
    pub single_page: bool,
    pub tasks: Vec<TaskSpec>,
}

/// The whole-run input: tasks, configuration, one packed output per task,
/// and whether per-task fact topologies are bypassed.
#[derive(Debug)]
pub struct BootloaderInput {
    pub simple_bootloader_input: SimpleBootloaderInput,
    pub bootloader_config: BootloaderConfig,
    pub packed_outputs: Vec<PackedOutput>,
    pub ignore_fact_topologies: bool,
}

/// Where the run's final trace and memory snapshots live, for downstream
/// proof generation.
#[derive(Clone, PartialEq, Debug)]
pub struct PrivateInput {
    pub trace_path: String,
    pub memory_path: String,
}

} // verus!
