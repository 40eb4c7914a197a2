//! Program-loading and artifact-placement scenarios: fixed header layout,
//! segment finalization, and address rebasing.

use bootloader_engine::felt::Felt;
use bootloader_engine::memory::{MaybeRelocatable, Memory, MemoryError, Relocatable};
use bootloader_engine::pie::{
    load_cairo_pie, BuiltinSegment, CairoPie, CairoPieMetadata, SegmentInfo,
};
use bootloader_engine::program::{load_program, StrippedProgram};
use bootloader_engine::state::RunState;
use bootloader_engine::builtins::BuiltinName;

fn addr(segment_index: isize, offset: usize) -> Relocatable {
    Relocatable { segment_index, offset }
}

fn cell_int(x: u64) -> MaybeRelocatable {
    MaybeRelocatable::Int(Felt::from_u64(x))
}

#[test]
fn two_instruction_zero_builtin_program_loads_at_header_plus_four() {
    let mut mem = Memory::new();
    mem.add_segment(); // 0
    let header = mem.add_segment(); // 1: header address (1, 0)
    assert_eq!(header, addr(1, 0));

    let program = StrippedProgram {
        data: vec![Felt::from_u64(0x48307fff7fff8000), Felt::from_u64(0x010780017fff7fff)],
        builtins: vec![],
        main: 0,
    };
    let mut state = RunState::new();
    state.program_data_base = Some(header);
    let lp = bootloader_engine::execute_task::load_program_hint(
        &mut mem,
        &mut state,
        &bootloader_engine::types::TaskSpec::RunProgram(
            bootloader_engine::types::RunProgramTask {
                program: program.clone(),
                program_input: std::collections::HashMap::new(),
                use_poseidon: false,
            },
        ),
        header,
    )
    .expect("loading failed");

    // Fixed header size of four words, then the code.
    assert_eq!(lp.code_address, addr(1, 4));
    assert_eq!(lp.size, 4 + 2);
    // The backing segment is finalized to header + code length.
    assert_eq!(mem.get_finalized_size(1), Some(6));
    // Header: payload length, schema version, entry point, builtin count.
    assert_eq!(mem.get(addr(1, 0)), Some(cell_int(5)));
    assert_eq!(mem.get(addr(1, 1)), Some(cell_int(0)));
    assert_eq!(mem.get(addr(1, 2)), Some(cell_int(0)));
    assert_eq!(mem.get(addr(1, 3)), Some(cell_int(0)));
    assert_eq!(mem.get(addr(1, 4)), Some(cell_int(0x48307fff7fff8000)));
    assert_eq!(mem.get(addr(1, 5)), Some(cell_int(0x010780017fff7fff)));
    assert_eq!(state.program_address, Some(addr(1, 4)));
}

#[test]
fn header_carries_builtin_names_before_code() {
    let mut mem = Memory::new();
    mem.add_segment();
    let header = mem.add_segment();
    let program = StrippedProgram {
        data: vec![Felt::from_u64(9)],
        builtins: vec![BuiltinName::Output, BuiltinName::Pedersen],
        main: 3,
    };
    let lp = load_program(&mut mem, header, &program, 0).expect("loading failed");
    assert_eq!(lp.code_address, addr(1, 6));
    assert_eq!(lp.size, 7);
    assert_eq!(mem.get(addr(1, 0)), Some(cell_int(3 + 2 + 1)));
    assert_eq!(mem.get(addr(1, 2)), Some(cell_int(3)));
    assert_eq!(mem.get(addr(1, 3)), Some(cell_int(2)));
    // ASCII of "output" and "pedersen", big endian.
    assert_eq!(mem.get(addr(1, 4)), Some(cell_int(0x6f7574707574)));
    assert_eq!(mem.get(addr(1, 5)), Some(cell_int(0x706564657273656e)));
    assert_eq!(mem.get(addr(1, 6)), Some(cell_int(9)));
}

fn small_pie() -> CairoPie {
    CairoPie {
        metadata: CairoPieMetadata {
            program: StrippedProgram { data: vec![Felt::from_u64(1)], builtins: vec![], main: 0 },
            program_segment: SegmentInfo { index: 0, size: 2 },
            execution_segment: SegmentInfo { index: 1, size: 4 },
            ret_fp_segment: SegmentInfo { index: 2, size: 0 },
            ret_pc_segment: SegmentInfo { index: 3, size: 0 },
            builtin_segments: vec![BuiltinSegment {
                builtin: BuiltinName::Output,
                segment: SegmentInfo { index: 4, size: 3 },
            }],
            extra_segments: vec![SegmentInfo { index: 5, size: 2 }],
        },
        memory: vec![
            (addr(0, 0), cell_int(11)),
            (addr(0, 1), cell_int(12)),
            (addr(1, 0), MaybeRelocatable::Addr(addr(2, 0))),
            (addr(1, 1), MaybeRelocatable::Addr(addr(3, 0))),
            (addr(1, 2), MaybeRelocatable::Addr(addr(0, 1))),
            (addr(1, 3), MaybeRelocatable::Addr(addr(4, 2))),
        ],
    }
}

#[test]
fn artifact_cells_are_rebased_into_fresh_and_given_segments() {
    let mut mem = Memory::new();
    mem.add_segment(); // 0: caller frame
    mem.add_segment(); // 1: program target
    mem.add_segment(); // 2: execution target
    let pa = addr(1, 0);
    let ea = addr(2, 0);
    let ret_fp = addr(0, 5);
    let ret_pc = addr(0, 9);

    let pie = small_pie();
    let map = load_cairo_pie(&pie, &mut mem, pa, ea, ret_fp, ret_pc).expect("placement failed");

    // Code cells land at the program address.
    assert_eq!(mem.get(addr(1, 0)), Some(cell_int(11)));
    assert_eq!(mem.get(addr(1, 1)), Some(cell_int(12)));
    // The frame's return cells are wired to the supplied frame pointer and
    // return address.
    assert_eq!(mem.get(addr(2, 0)), Some(MaybeRelocatable::Addr(ret_fp)));
    assert_eq!(mem.get(addr(2, 1)), Some(MaybeRelocatable::Addr(ret_pc)));
    // An address into the artifact's own program segment is rebased.
    assert_eq!(mem.get(addr(2, 2)), Some(MaybeRelocatable::Addr(addr(1, 1))));
    // The capability segment went to the first fresh segment (index 3).
    assert_eq!(mem.get(addr(2, 3)), Some(MaybeRelocatable::Addr(addr(3, 2))));

    // The rebase map sends distinct original segments to distinct new
    // segments: program, execution, capability, extra are all apart.
    let mut targets: Vec<isize> = map
        .iter()
        .filter(|(orig, _)| [0isize, 1, 4, 5].contains(orig))
        .map(|(_, base)| base.segment_index)
        .collect();
    targets.sort();
    targets.dedup();
    assert_eq!(targets.len(), 4);
}

#[test]
fn artifact_cell_beyond_declared_size_is_refused() {
    let mut mem = Memory::new();
    mem.add_segment();
    mem.add_segment();
    mem.add_segment();
    let mut pie = small_pie();
    pie.memory.push((addr(0, 7), cell_int(1))); // program segment declares size 2
    let r = load_cairo_pie(&pie, &mut mem, addr(1, 0), addr(2, 0), addr(0, 5), addr(0, 9));
    assert!(r.is_err());
}

#[test]
fn memory_cells_are_write_once() {
    let mut mem = Memory::new();
    mem.add_segment();
    mem.insert(addr(0, 3), cell_int(5)).unwrap();
    // Rewriting with the same value is accepted, another value refused.
    mem.insert(addr(0, 3), cell_int(5)).unwrap();
    assert_eq!(mem.insert(addr(0, 3), cell_int(6)), Err(MemoryError::InconsistentWrite(addr(0, 3))));
    // Writes beyond a finalized size are refused.
    mem.finalize(0, 4);
    assert_eq!(mem.insert(addr(0, 9), cell_int(1)), Err(MemoryError::BeyondFinalizedSize(addr(0, 9))));
    // Unallocated and temporary segments hold no cells.
    assert_eq!(mem.insert(addr(7, 0), cell_int(1)), Err(MemoryError::UnallocatedSegment(addr(7, 0))));
    assert_eq!(mem.insert(addr(-1, 0), cell_int(1)), Err(MemoryError::TemporarySegment(addr(-1, 0))));
}
