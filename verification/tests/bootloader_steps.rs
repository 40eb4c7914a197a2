//! The inner bootloader's orchestration steps and task-list construction.

use bootloader_engine::builtins::BuiltinName;
use bootloader_engine::execute_task::{call_task, exit_scope_with_comments, rebase_hint_pc};
use bootloader_engine::fact_topologies::{OutputBuiltin, OutputBuiltinState};
use bootloader_engine::felt::Felt;
use bootloader_engine::memory::{MaybeRelocatable, Memory, Relocatable};
use bootloader_engine::simple_bootloader::{
    divide_num_by_2, prepare_task_range_checks, set_ap_to_zero, set_ap_to_zero_or_one,
    set_current_task, set_tasks_variable,
};
use bootloader_engine::state::RunState;
use bootloader_engine::program::StrippedProgram;
use bootloader_engine::tasks::{bootloader_input_for_tasks, make_bootloader_tasks};
use bootloader_engine::types::{RunProgramTask, SimpleBootloaderInput, TaskSpec};

fn addr(segment_index: isize, offset: usize) -> Relocatable {
    Relocatable { segment_index, offset }
}

fn cell_int(x: u64) -> MaybeRelocatable {
    MaybeRelocatable::Int(Felt::from_u64(x))
}

fn sample_tasks() -> Vec<TaskSpec> {
    let program = StrippedProgram { data: vec![Felt::from_u64(7)], builtins: vec![], main: 0 };
    vec![
        TaskSpec::RunProgram(RunProgramTask {
            program: program.clone(),
            program_input: std::collections::HashMap::new(),
            use_poseidon: true,
        }),
        TaskSpec::RunProgram(RunProgramTask {
            program,
            program_input: std::collections::HashMap::new(),
            use_poseidon: true,
        }),
    ]
}

fn sample_input() -> SimpleBootloaderInput {
    SimpleBootloaderInput { fact_topologies_path: None, single_page: false, tasks: sample_tasks() }
}

#[test]
fn range_check_preparation_publishes_the_task_count() {
    let mut mem = Memory::new();
    mem.add_segment(); // 0: frame
    mem.add_segment(); // 1: output
    let mut state = RunState::new();
    let input = sample_input();

    let rc = prepare_task_range_checks(&mut mem, &mut state, &input, addr(1, 0), addr(0, 2))
        .expect("preparation failed");
    assert_eq!(mem.get(addr(1, 0)), Some(cell_int(2)));
    assert_eq!(rc, addr(-1, 0));
    assert_eq!(mem.get(addr(0, 2)), Some(MaybeRelocatable::Addr(rc)));
    assert_eq!(state.task_range_check_ptr, Some(rc));
    assert!(state.fact_topologies.is_empty());
}

#[test]
fn tasks_variable_is_published() {
    let mut state = RunState::new();
    set_tasks_variable(&mut state, sample_tasks());
    assert_eq!(state.tasks.as_ref().map(|t| t.len()), Some(2));
}

#[test]
fn num_is_halved_into_the_allocation_cell() {
    for (num, expected) in [(128u64, 64u64), (1001, 500)] {
        let mut mem = Memory::new();
        mem.add_segment();
        mem.insert(addr(0, 0), cell_int(num)).unwrap();
        divide_num_by_2(&mut mem, addr(0, 0), addr(0, 1)).expect("halving failed");
        assert_eq!(mem.get(addr(0, 1)), Some(cell_int(expected)));
    }
}

#[test]
fn zero_is_written_to_the_allocation_cell() {
    let mut mem = Memory::new();
    mem.add_segment();
    set_ap_to_zero(&mut mem, addr(0, 0)).expect("write failed");
    assert_eq!(mem.get(addr(0, 0)), Some(cell_int(0)));
}

#[test]
fn poseidon_flag_of_the_current_task_is_written() {
    let mut mem = Memory::new();
    mem.add_segment();
    mem.insert(addr(0, 0), cell_int(1)).unwrap(); // n_tasks countdown: last task
    let input = sample_input();
    set_ap_to_zero_or_one(&mut mem, &input, addr(0, 0), addr(0, 1)).expect("write failed");
    assert_eq!(mem.get(addr(0, 1)), Some(cell_int(1)));
}

#[test]
fn current_task_follows_the_countdown() {
    let mut mem = Memory::new();
    mem.add_segment();
    mem.insert(addr(0, 0), cell_int(2)).unwrap(); // two tasks remain: first task
    let mut state = RunState::new();
    let input = sample_input();
    let idx =
        set_current_task(&mem, &mut state, &input, addr(0, 0)).expect("task selection failed");
    assert_eq!(idx, 0);
    assert_eq!(state.current_task, Some(0));
}

#[test]
fn task_list_keeps_program_then_artifact_order() {
    let p1 = StrippedProgram { data: vec![Felt::from_u64(1)], builtins: vec![], main: 0 };
    let p2 = StrippedProgram {
        data: vec![Felt::from_u64(2)],
        builtins: vec![BuiltinName::Output],
        main: 0,
    };
    let tasks = make_bootloader_tasks(
        vec![p1, p2],
        vec![std::collections::HashMap::new(), std::collections::HashMap::new()],
        vec![],
    );
    assert_eq!(tasks.len(), 2);
    assert!(matches!(&tasks[0], TaskSpec::RunProgram(t) if t.program.data.len() == 1));
    assert!(matches!(&tasks[1], TaskSpec::RunProgram(t) if t.program.builtins.len() == 1));

    let input = bootloader_input_for_tasks(tasks);
    assert_eq!(input.packed_outputs.len(), 2);
    assert!(input.ignore_fact_topologies);
    assert!(!input.simple_bootloader_input.single_page);
}

#[test]
fn call_task_saves_the_output_state_for_fresh_code() {
    let mut mem = Memory::new();
    mem.add_segment(); // 0: frame
    mem.add_segment(); // 1: output target
    mem.insert(addr(0, 0), MaybeRelocatable::Addr(addr(1, 0))).unwrap();

    let mut state = RunState::new();
    let saved_state = OutputBuiltinState {
        base: 9,
        base_offset: 0,
        pages: vec![],
        tree_structure: Some(vec![1, 0]),
    };
    let mut output_builtin = OutputBuiltin { state: saved_state.clone() };
    let task = TaskSpec::RunProgram(RunProgramTask {
        program: StrippedProgram { data: vec![Felt::from_u64(1)], builtins: vec![], main: 0 },
        program_input: std::collections::HashMap::new(),
        use_poseidon: false,
    });

    call_task(
        &mut mem,
        &mut state,
        &task,
        &mut output_builtin,
        addr(0, 0),
        addr(0, 8),
        addr(0, 8),
        addr(2, 0),
    )
    .expect("task preparation failed");

    assert_eq!(state.n_builtins, Some(0));
    assert_eq!(state.output_runner_data, Some(Some(saved_state)));
    assert_eq!(output_builtin.state.base, 1);
    assert!(output_builtin.state.pages.is_empty());
    // The task scope is open, with the input mapping and marker published.
    assert!(state.task_scope_open);
    assert!(state.with_bootloader);
    assert_eq!(state.program_input.as_ref().map(|m| m.len()), Some(0));

    // The nested scopes unwind innermost first: the selected count, then
    // the task scope; a third exit has nothing to leave.
    state.n_selected_builtins = Some(0);
    exit_scope_with_comments(&mut state).expect("scope exit failed");
    assert_eq!(state.n_selected_builtins, None);
    assert!(state.task_scope_open);
    exit_scope_with_comments(&mut state).expect("task scope exit failed");
    assert!(!state.task_scope_open);
    assert_eq!(state.program_input, None);
    assert!(!state.with_bootloader);
    assert!(exit_scope_with_comments(&mut state).is_err());
}

#[test]
fn program_data_segment_is_allocated_and_published() {
    let mut mem = Memory::new();
    mem.add_segment(); // 0: frame
    mem.add_segment(); // 1
    let mut state = RunState::new();
    let base = bootloader_engine::execute_task::allocate_program_data_segment(
        &mut mem,
        &mut state,
        addr(0, 0),
    )
    .expect("allocation failed");
    assert_eq!(base, addr(2, 0));
    assert_eq!(mem.get(addr(0, 0)), Some(MaybeRelocatable::Addr(base)));
    assert_eq!(state.program_data_base, Some(base));
    assert_eq!(mem.num_segments(), 3);
}

#[test]
fn hint_counters_are_rebased_by_the_code_address() {
    let r = rebase_hint_pc(addr(0, 8), addr(2, 0)).expect("rebasing failed");
    assert_eq!(r, addr(2, 8));

    let ranges = vec![(addr(0, 8), (0usize, 1usize)), (addr(0, 11), (1usize, 2usize))];
    let rebased = bootloader_engine::execute_task::rebase_hint_ranges(&ranges, addr(2, 0))
        .expect("range rebasing failed");
    assert_eq!(rebased, vec![(addr(2, 8), (0, 1)), (addr(2, 11), (1, 2))]);
}

#[test]
fn task_input_mapping_reaches_the_nested_scope() {
    let mut inputs = std::collections::HashMap::new();
    inputs.insert("fibonacci_claim_index".to_string(), serde_json::Value::from(10u64));
    let program = StrippedProgram { data: vec![Felt::from_u64(7)], builtins: vec![], main: 0 };

    let tasks = make_bootloader_tasks(vec![program], vec![inputs.clone()], vec![]);
    assert_eq!(tasks.len(), 1);
    match &tasks[0] {
        TaskSpec::RunProgram(t) => assert_eq!(t.program_input, inputs),
        _ => panic!("expected a fresh-code task"),
    }

    let mut mem = Memory::new();
    mem.add_segment(); // 0: frame
    mem.add_segment(); // 1: output target
    mem.insert(addr(0, 0), MaybeRelocatable::Addr(addr(1, 0))).unwrap();
    let mut state = RunState::new();
    let mut output_builtin = OutputBuiltin {
        state: OutputBuiltinState { base: 9, base_offset: 0, pages: vec![], tree_structure: None },
    };
    call_task(
        &mut mem,
        &mut state,
        &tasks[0],
        &mut output_builtin,
        addr(0, 0),
        addr(0, 8),
        addr(0, 8),
        addr(2, 0),
    )
    .expect("task preparation failed");

    assert!(state.task_scope_open);
    assert!(state.with_bootloader);
    assert_eq!(state.program_input.as_ref(), Some(&inputs));
}
