//! The inner bootloader's per-run steps: publishing the task count,
//! handing out the task range-check segment, and selecting the current
//! task.

use vstd::prelude::*;

use crate::execute_task::ExecuteTaskError;
use crate::felt::Felt;
use crate::memory::{MaybeRelocatable, Memory, Relocatable};
use crate::state::RunState;
use crate::types::{SimpleBootloaderInput, TaskSpec};

verus! {

/// The field element a machine counter denotes, as the engine builds it.
pub open spec fn count_felt(n: usize) -> Felt {
    Felt { d0: n as u64, d1: 0, d2: 0, d3: 0 }
}

/// The base address of the next temporary segment to be handed out.
pub open spec fn next_temp_segment(n_temp: int) -> Relocatable {
    Relocatable { segment_index: (-(n_temp + 1)) as isize, offset: 0 }
}

/// Writes the task count to the output, hands out a temporary segment for
/// the task range checks (stored both in the run state and in the cell the
/// control program reads it from), and starts the empty fact-topology
/// list.
pub fn prepare_task_range_checks(
    mem: &mut Memory,
    state: &mut RunState,
    input: &SimpleBootloaderInput,
    output_ptr: Relocatable,
    task_range_check_ptr_addr: Relocatable,
) -> (r: Result<Relocatable, ExecuteTaskError>)
    requires
        old(mem).n_temp_segments() < 0x8000,
    ensures
        final(mem).n_segments() == old(mem).n_segments(),
        forall|i: int| final(mem).finalized_size(i) == old(mem).finalized_size(i),
        forall|b: Relocatable|
            b != output_ptr && b != task_range_check_ptr_addr ==> final(mem).cell(b) == old(
                mem,
            ).cell(b),
        old(mem).n_temp_segments() <= final(mem).n_temp_segments() <= old(
            mem,
        ).n_temp_segments() + 1,
        *final(state) == (RunState {
            task_range_check_ptr: final(state).task_range_check_ptr,
            fact_topologies: final(state).fact_topologies,
            ..*old(state)
        }),
        r is Ok <==> {
            &&& old(mem).writable(
                output_ptr,
                MaybeRelocatable::Int(count_felt(input.tasks@.len() as usize)),
            )
            &&& task_range_check_ptr_addr != output_ptr
            &&& old(mem).writable(
                task_range_check_ptr_addr,
                MaybeRelocatable::Addr(next_temp_segment(old(mem).n_temp_segments())),
            )
        },
        match r {
            Ok(rc) => {
                &&& final(mem).int_at(output_ptr) == Some(input.tasks@.len() as int)
                &&& rc == next_temp_segment(old(mem).n_temp_segments())
                &&& final(mem).cell(task_range_check_ptr_addr) == Some(
                    MaybeRelocatable::Addr(rc),
                )
                &&& final(state).task_range_check_ptr == Some(rc)
                &&& final(state).fact_topologies@.len() == 0
                &&& final(mem).n_temp_segments() == old(mem).n_temp_segments() + 1
            },
            Err(_) => final(state).task_range_check_ptr == old(state).task_range_check_ptr
                && final(state).fact_topologies == old(state).fact_topologies,
        },
{
    let n_tasks = input.tasks.len();
    match mem.insert(output_ptr, MaybeRelocatable::Int(Felt::from_usize(n_tasks))) {
        Ok(()) => {},
        Err(e) => {
            return Err(ExecuteTaskError::Memory(e));
        },
    }
    let task_range_check_segment = mem.add_temporary_segment();
    match mem.insert(task_range_check_ptr_addr, MaybeRelocatable::Addr(task_range_check_segment)) {
        Ok(()) => {},
        Err(e) => {
            return Err(ExecuteTaskError::Memory(e));
        },
    }
    state.task_range_check_ptr = Some(task_range_check_segment);
    state.fact_topologies = Vec::new();
    Ok(task_range_check_segment)
}

/// Publishes the run's task list to the engine state.
pub fn set_tasks_variable(state: &mut RunState, tasks: Vec<TaskSpec>)
    ensures
        *final(state) == (RunState { tasks: Some(tasks), ..*old(state) }),
{
    state.tasks = Some(tasks);
}

/// Computes `num // 2` of the field element at `num_addr` and writes it to
/// the cell the allocation pointer designates.
pub fn divide_num_by_2(mem: &mut Memory, num_addr: Relocatable, ap: Relocatable) -> (r: Result<
    (),
    ExecuteTaskError,
>)
    ensures
        r is Ok <==> (old(mem).cell(num_addr) matches Some(MaybeRelocatable::Int(f)) && old(
            mem,
        ).writable(ap, MaybeRelocatable::Int(f.halved()))),
        match r {
            Ok(()) => {
                &&& final(mem).int_at(ap) == Some(old(mem).int_at(num_addr).unwrap() / 2)
                &&& final(mem).unchanged_except(*old(mem), ap)
            },
            Err(_) => *final(mem) == *old(mem),
        },
{
    let num = match mem.get_integer(num_addr) {
        Ok(f) => f,
        Err(e) => {
            return Err(ExecuteTaskError::Memory(e));
        },
    };
    let half = num.div2();
    match mem.insert(ap, MaybeRelocatable::Int(half)) {
        Ok(()) => Ok(()),
        Err(e) => Err(ExecuteTaskError::Memory(e)),
    }
}

/// Writes zero to the cell the allocation pointer designates.
pub fn set_ap_to_zero(mem: &mut Memory, ap: Relocatable) -> (r: Result<(), ExecuteTaskError>)
    ensures
        r is Ok <==> old(mem).writable(
            ap,
            MaybeRelocatable::Int(Felt { d0: 0u64, d1: 0, d2: 0, d3: 0 }),
        ),
        match r {
            Ok(()) => final(mem).int_at(ap) == Some(0int) && final(mem).unchanged_except(
                *old(mem),
                ap,
            ),
            Err(_) => *final(mem) == *old(mem),
        },
{
    match mem.insert(ap, MaybeRelocatable::Int(Felt::zero())) {
        Ok(()) => Ok(()),
        Err(e) => Err(ExecuteTaskError::Memory(e)),
    }
}

/// The index of the task the countdown at `n_tasks` selects.
pub open spec fn selected_task_index(input: SimpleBootloaderInput, n_tasks: int) -> int {
    input.tasks@.len() - n_tasks
}

/// Whether the task the countdown value `n` selects is fresh code that
/// selects the alternative hash algorithm.
pub open spec fn poseidon_flag(input: SimpleBootloaderInput, n: int) -> bool {
    match input.tasks@[selected_task_index(input, n)] {
        TaskSpec::RunProgram(t) => t.use_poseidon,
        _ => false,
    }
}

/// Writes one or zero to the cell the allocation pointer designates: one
/// exactly when the current task is fresh code that selects the
/// alternative hash algorithm.
pub fn set_ap_to_zero_or_one(
    mem: &mut Memory,
    input: &SimpleBootloaderInput,
    n_tasks_addr: Relocatable,
    ap: Relocatable,
) -> (r: Result<(), ExecuteTaskError>)
    requires
        match old(mem).int_at(n_tasks_addr) {
            Some(v) => 1 <= v <= input.tasks@.len(),
            None => true,
        },
    ensures
        r is Ok <==> (old(mem).int_at(n_tasks_addr) matches Some(v) && old(mem).writable(
            ap,
            MaybeRelocatable::Int(
                Felt {
                    d0: if poseidon_flag(*input, old(mem).int_at(n_tasks_addr).unwrap()) {
                        1u64
                    } else {
                        0u64
                    },
                    d1: 0,
                    d2: 0,
                    d3: 0,
                },
            ),
        )),
        match r {
            Ok(()) => {
                &&& final(mem).int_at(ap) == Some(
                    if poseidon_flag(*input, old(mem).int_at(n_tasks_addr).unwrap()) {
                        1int
                    } else {
                        0int
                    },
                )
                &&& final(mem).unchanged_except(*old(mem), ap)
            },
            Err(_) => *final(mem) == *old(mem),
        },
{
    let len = input.tasks.len();
    let n_tasks_felt = match mem.get_integer(n_tasks_addr) {
        Ok(f) => f,
        Err(e) => {
            return Err(ExecuteTaskError::Memory(e));
        },
    };
    let n_tasks = match n_tasks_felt.to_u64() {
        Some(v) => v as usize,
        None => {
            return Err(ExecuteTaskError::NumberTooLarge);
        },
    };
    let task_id = len - n_tasks;
    let use_poseidon = match &input.tasks[task_id] {
        TaskSpec::RunProgram(t) => t.use_poseidon,
        _ => false,
    };
    match mem.insert(ap, MaybeRelocatable::Int(Felt::from_bool(use_poseidon))) {
        Ok(()) => Ok(()),
        Err(e) => Err(ExecuteTaskError::Memory(e)),
    }
}

/// Selects the task the countdown at `n_tasks` designates as the current
/// one: tasks run in input order, the countdown starting at the task
/// count.
pub fn set_current_task(
    mem: &Memory,
    state: &mut RunState,
    input: &SimpleBootloaderInput,
    n_tasks_addr: Relocatable,
) -> (r: Result<usize, ExecuteTaskError>)
    requires
        match mem.int_at(n_tasks_addr) {
            Some(v) => 1 <= v <= input.tasks@.len(),
            None => true,
        },
    ensures
        *final(state) == (RunState { current_task: final(state).current_task, ..*old(state) }),
        r is Ok <==> mem.int_at(n_tasks_addr) is Some,
        match r {
            Ok(idx) => {
                &&& idx == selected_task_index(*input, mem.int_at(n_tasks_addr).unwrap())
                &&& 0 <= idx < input.tasks@.len()
                &&& final(state).current_task == Some(idx)
            },
            Err(_) => final(state).current_task == old(state).current_task,
        },
{
    let len = input.tasks.len();
    let n_tasks_felt = match mem.get_integer(n_tasks_addr) {
        Ok(f) => f,
        Err(e) => {
            return Err(ExecuteTaskError::Memory(e));
        },
    };
    let n_tasks = match n_tasks_felt.to_u64() {
        Some(v) => v as usize,
        None => {
            return Err(ExecuteTaskError::NumberTooLarge);
        },
    };
    let task_id = len - n_tasks;
    state.current_task = Some(task_id);
    Ok(task_id)
}

} // verus!
