//! Building the run's task list and whole-run input from loaded values.
//! Reading program files and artifact archives happens at the edge; the
//! engine receives the parsed descriptors and artifacts.

use std::collections::HashMap;

use vstd::prelude::*;

use crate::felt::Felt;
use crate::pie::CairoPie;
use crate::program::StrippedProgram;
use crate::types::{
    BootloaderConfig, BootloaderInput, CairoPieTask, PackedOutput, RunProgramTask,
    SimpleBootloaderInput, TaskSpec,
};

verus! {

/// Why a task could not be built from its source.
#[derive(Clone, PartialEq, Debug)]
pub enum BootloaderTaskError {
    /// Reading or parsing a program failed, with the reader's message.
    Program(String),
    /// Reading or parsing a serialized artifact failed, with the reader's
    /// message.
    Pie(String),
}

/// Builds the run's task list: one fresh-code task per program, paired
/// with its input mapping, in order, followed by one artifact task per
/// loaded artifact, in order.
pub fn make_bootloader_tasks(
    programs: Vec<StrippedProgram>,
    program_inputs: Vec<HashMap<String, serde_json::Value>>,
    pies: Vec<CairoPie>,
) -> (r: Vec<TaskSpec>)
    requires
        programs@.len() == program_inputs@.len(),
    ensures
        r@.len() == programs@.len() + pies@.len(),
        forall|i: int|
            0 <= i < programs@.len() ==> (#[trigger] r@[i] matches TaskSpec::RunProgram(t)
                && t.program == programs@[i] && t.program_input == program_inputs@[i]
                && !t.use_poseidon),
        forall|i: int|
            0 <= i < pies@.len() ==> (#[trigger] r@[programs@.len() + i]
                matches TaskSpec::CairoPieTask(t) && t.cairo_pie == pies@[i] && !t.use_poseidon),
{
    let ghost programs_view = programs@;
    let ghost inputs_view = program_inputs@;
    let ghost pies_view = pies@;
    let ghost n = programs@.len() as int;
    let mut programs = programs;
    let mut program_inputs = program_inputs;
    let mut pies = pies;
    let mut tasks: Vec<TaskSpec> = Vec::new();
    while programs.len() > 0
        invariant
            n == programs_view.len(),
            n == inputs_view.len(),
            tasks@.len() + programs@.len() == n,
            programs@.len() == program_inputs@.len(),
            programs@ == programs_view.subrange(tasks@.len() as int, n),
            program_inputs@ == inputs_view.subrange(tasks@.len() as int, n),
            forall|k: int|
                0 <= k < tasks@.len() ==> (#[trigger] tasks@[k] matches TaskSpec::RunProgram(t)
                    && t.program == programs_view[k] && t.program_input == inputs_view[k]
                    && !t.use_poseidon),
        decreases programs@.len(),
    {
        let ghost done = tasks@.len() as int;
        let program = programs.remove(0);
        let program_input = program_inputs.remove(0);
        proof {
            assert(program == programs_view[done]);
            assert(program_input == inputs_view[done]);
            assert(programs@ =~= programs_view.subrange(done + 1, n));
            assert(program_inputs@ =~= inputs_view.subrange(done + 1, n));
        }
        tasks.push(
            TaskSpec::RunProgram(RunProgramTask { program, program_input, use_poseidon: false }),
        );
    }
    while pies.len() > 0
        invariant
            n == programs_view.len(),
            n == inputs_view.len(),
            tasks@.len() + pies@.len() == n + pies_view.len(),
            tasks@.len() >= n,
            pies@ == pies_view.subrange(tasks@.len() - n, pies_view.len() as int),
            forall|k: int|
                0 <= k < n ==> (#[trigger] tasks@[k] matches TaskSpec::RunProgram(t)
                    && t.program == programs_view[k] && t.program_input == inputs_view[k]
                    && !t.use_poseidon),
            forall|k: int|
                0 <= k < tasks@.len() - n ==> (#[trigger] tasks@[n + k]
                    matches TaskSpec::CairoPieTask(t) && t.cairo_pie == pies_view[k]
                    && !t.use_poseidon),
        decreases pies@.len(),
    {
        let ghost done = tasks@.len() - n;
        let cairo_pie = pies.remove(0);
        proof {
            assert(cairo_pie == pies_view[done]);
            assert(pies@ =~= pies_view.subrange(done + 1, pies_view.len() as int));
        }
        tasks.push(TaskSpec::CairoPieTask(CairoPieTask { cairo_pie, use_poseidon: false }));
    }
    tasks
}

/// Builds the whole-run input for a task list: no fact-topology file, one
/// plain empty packed output per task, topologies bypassed, as the plain
/// proof-mode run configures it.
pub fn bootloader_input_for_tasks(tasks: Vec<TaskSpec>) -> (r: BootloaderInput)
    ensures
        r.simple_bootloader_input.tasks == tasks,
        r.simple_bootloader_input.fact_topologies_path is None,
        !r.simple_bootloader_input.single_page,
        r.bootloader_config.simple_bootloader_program_hash@ == 0,
        r.bootloader_config.supported_cairo_verifier_program_hashes@.len() == 0,
        r.packed_outputs@.len() == tasks@.len(),
        forall|i: int|
            0 <= i < r.packed_outputs@.len() ==> (#[trigger] r.packed_outputs@[i]
                matches PackedOutput::Plain(v) && v@.len() == 0),
        r.ignore_fact_topologies,
{
    let n_tasks = tasks.len();
    let mut packed_outputs: Vec<PackedOutput> = Vec::new();
    let mut i: usize = 0;
    while i < n_tasks
        invariant
            i <= n_tasks,
            packed_outputs@.len() == i,
            forall|k: int|
                0 <= k < i ==> (#[trigger] packed_outputs@[k] matches PackedOutput::Plain(v)
                    && v@.len() == 0),
        decreases n_tasks - i,
    {
        packed_outputs.push(PackedOutput::Plain(Vec::new()));
        i = i + 1;
    }
    BootloaderInput {
        simple_bootloader_input: SimpleBootloaderInput {
            fact_topologies_path: None,
            single_page: false,
            tasks,
        },
        bootloader_config: BootloaderConfig {
            simple_bootloader_program_hash: Felt::zero(),
            supported_cairo_verifier_program_hashes: Vec::new(),
        },
        packed_outputs,
        ignore_fact_topologies: true,
    }
}

} // verus!
