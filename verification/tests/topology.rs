//! Fact-topology scenarios: page sizes sum to the output size, topologies
//! append in call order, and the saved output state is handed back.

use bootloader_engine::execute_task::append_fact_topologies;
use bootloader_engine::fact_topologies::get_task_fact_topology;
use bootloader_engine::types::RunProgramTask;
use bootloader_engine::fact_topologies::{
    program_fact_topology, FactTopologyError, OutputBuiltin, OutputBuiltinState, PageEntry,
};
use bootloader_engine::felt::Felt;
use bootloader_engine::memory::{MaybeRelocatable, Memory, Relocatable};
use bootloader_engine::pie::{CairoPie, CairoPieMetadata, SegmentInfo};
use bootloader_engine::program::StrippedProgram;
use bootloader_engine::state::RunState;
use bootloader_engine::types::{CairoPieTask, TaskSpec};

fn addr(segment_index: isize, offset: usize) -> Relocatable {
    Relocatable { segment_index, offset }
}

fn tracked_state(pages: Vec<PageEntry>, tree: Option<Vec<usize>>) -> OutputBuiltinState {
    OutputBuiltinState { base: 2, base_offset: 0, pages, tree_structure: tree }
}

#[test]
fn page_sizes_sum_to_the_output_size() {
    let state = tracked_state(
        vec![
            PageEntry { id: 1, start: 0, size: 7 },
            PageEntry { id: 2, start: 7, size: 3 },
        ],
        Some(vec![1, 2, 3, 4]),
    );
    let ft = program_fact_topology(10, &state).expect("topology failed");
    assert_eq!(ft.page_sizes, vec![0, 7, 3]);
    assert_eq!(ft.tree_structure, vec![1, 2, 3, 4]);
    assert_eq!(ft.page_sizes.iter().sum::<usize>(), 10);

    // A nonzero header page takes what the declared pages leave.
    let ft2 = program_fact_topology(12, &state).expect("topology failed");
    assert_eq!(ft2.page_sizes, vec![2, 7, 3]);
    assert_eq!(ft2.page_sizes.iter().sum::<usize>(), 12);
}

#[test]
fn page_validation_refuses_gaps_duplicates_and_oversizes() {
    let gap = tracked_state(vec![PageEntry { id: 2, start: 0, size: 1 }], Some(vec![1, 0]));
    assert_eq!(program_fact_topology(5, &gap), Err(FactTopologyError::InvalidPageId(2)));

    let dup = tracked_state(
        vec![
            PageEntry { id: 1, start: 0, size: 1 },
            PageEntry { id: 1, start: 1, size: 1 },
        ],
        Some(vec![1, 0]),
    );
    assert_eq!(program_fact_topology(5, &dup), Err(FactTopologyError::DuplicatePage(1)));

    let oversize = tracked_state(vec![PageEntry { id: 1, start: 0, size: 9 }], Some(vec![1, 0]));
    assert_eq!(program_fact_topology(5, &oversize), Err(FactTopologyError::PageSizesExceedOutput));

    let no_tree = tracked_state(vec![PageEntry { id: 1, start: 0, size: 1 }], None);
    assert_eq!(program_fact_topology(5, &no_tree), Err(FactTopologyError::TreeStructureMissing));
}

#[test]
fn no_pages_give_a_single_flat_page() {
    let state = tracked_state(vec![], None);
    let ft = program_fact_topology(4, &state).expect("topology failed");
    assert_eq!(ft.page_sizes, vec![4]);
    assert_eq!(ft.tree_structure, vec![1, 0]);
}

fn pie_task() -> TaskSpec {
    TaskSpec::CairoPieTask(CairoPieTask {
        cairo_pie: CairoPie {
            metadata: CairoPieMetadata {
                program: StrippedProgram {
                    data: vec![Felt::from_u64(1)],
                    builtins: vec![],
                    main: 0,
                },
                program_segment: SegmentInfo { index: 0, size: 1 },
                execution_segment: SegmentInfo { index: 1, size: 2 },
                ret_fp_segment: SegmentInfo { index: 2, size: 0 },
                ret_pc_segment: SegmentInfo { index: 3, size: 0 },
                builtin_segments: vec![],
                extra_segments: vec![],
            },
            memory: vec![],
        },
        use_poseidon: false,
    })
}

#[test]
fn two_tasks_append_two_topologies_in_call_order() {
    let mut mem = Memory::new();
    mem.add_segment(); // 0: frame
    mem.add_segment(); // 1
    mem.add_segment(); // 2
    // First task: output (1, 0) .. (1, 5); second: (2, 0) .. (2, 7).
    mem.insert(addr(0, 0), MaybeRelocatable::Addr(addr(1, 0))).unwrap();
    mem.insert(addr(0, 1), MaybeRelocatable::Addr(addr(1, 5))).unwrap();
    mem.insert(addr(0, 2), MaybeRelocatable::Addr(addr(2, 0))).unwrap();
    mem.insert(addr(0, 3), MaybeRelocatable::Addr(addr(2, 7))).unwrap();

    let mut state = RunState::new();
    let mut output_builtin = OutputBuiltin { state: tracked_state(vec![], None) };
    let task = pie_task();

    state.output_runner_data = Some(None);
    append_fact_topologies(&mem, &mut state, &task, &mut output_builtin, addr(0, 0), addr(0, 1))
        .expect("first append failed");
    state.output_runner_data = Some(None);
    append_fact_topologies(&mem, &mut state, &task, &mut output_builtin, addr(0, 2), addr(0, 3))
        .expect("second append failed");

    assert_eq!(state.fact_topologies.len(), 2);
    assert_eq!(state.fact_topologies[0].page_sizes, vec![5]);
    assert_eq!(state.fact_topologies[0].tree_structure, vec![1, 0]);
    assert_eq!(state.fact_topologies[1].page_sizes, vec![7]);
    assert_eq!(state.fact_topologies[1].tree_structure, vec![1, 0]);
}

#[test]
fn output_state_bookkeeping_must_match_the_task_kind() {
    // A fresh-code task without the saved state, and an artifact task with
    // one, are both refused.
    let mut output_builtin = OutputBuiltin { state: tracked_state(vec![], None) };
    let fresh = TaskSpec::RunProgram(RunProgramTask {
        program: StrippedProgram { data: vec![Felt::from_u64(1)], builtins: vec![], main: 0 },
        program_input: std::collections::HashMap::new(),
        use_poseidon: false,
    });
    assert_eq!(
        get_task_fact_topology(4, &fresh, &mut output_builtin, None),
        Err(FactTopologyError::MissingOutputData)
    );
    let saved = tracked_state(vec![], None);
    assert_eq!(
        get_task_fact_topology(4, &pie_task(), &mut output_builtin, Some(saved)),
        Err(FactTopologyError::UnexpectedOutputData)
    );
}

#[test]
fn run_program_topology_restores_the_saved_output_state() {
    let task = TaskSpec::RunProgram(RunProgramTask {
        program: StrippedProgram { data: vec![Felt::from_u64(1)], builtins: vec![], main: 0 },
        program_input: std::collections::HashMap::new(),
        use_poseidon: false,
    });
    let task_pages = tracked_state(
        vec![
            PageEntry { id: 1, start: 0, size: 7 },
            PageEntry { id: 2, start: 7, size: 3 },
        ],
        Some(vec![1, 2, 3, 4]),
    );
    let saved = tracked_state(vec![], None);
    let mut output_builtin = OutputBuiltin { state: task_pages };

    let ft = get_task_fact_topology(10, &task, &mut output_builtin, Some(saved.clone()))
        .expect("topology failed");
    assert_eq!(ft.page_sizes, vec![0, 7, 3]);
    assert_eq!(ft.tree_structure, vec![1, 2, 3, 4]);
    // The capability got the saved pre-task state back.
    assert_eq!(output_builtin.state, saved);
}
