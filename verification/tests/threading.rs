//! Builtin-threading scenarios: identity for unused capabilities, packed
//! consumption for declared ones, and artifact usage cross-checks.

use bootloader_engine::builtins::BuiltinName;
use bootloader_engine::execute_task::{write_return_builtins, ExecuteTaskError};
use bootloader_engine::felt::Felt;
use bootloader_engine::memory::{MaybeRelocatable, Memory, Relocatable};
use bootloader_engine::pie::{BuiltinSegment, CairoPie, CairoPieMetadata, SegmentInfo};
use bootloader_engine::program::StrippedProgram;

fn addr(segment_index: isize, offset: usize) -> Relocatable {
    Relocatable { segment_index, offset }
}

/// A memory whose pre-execution record at (1,0..11) holds the addresses
/// (2, 0) .. (2, 10).
fn memory_with_pre_execution() -> Memory {
    let mut mem = Memory::new();
    mem.add_segment(); // 0
    mem.add_segment(); // 1: frame
    mem.add_segment(); // 2: pointer targets
    for k in 0..11 {
        mem.insert(addr(1, k), MaybeRelocatable::Addr(addr(2, k))).unwrap();
    }
    mem
}

#[test]
fn threading_selects_packed_pointers_and_keeps_the_rest() {
    let mut mem = memory_with_pre_execution();
    // The packed used pointers u0, u1 at (1, 20).
    mem.insert(addr(1, 20), MaybeRelocatable::Addr(addr(2, 30))).unwrap();
    mem.insert(addr(1, 21), MaybeRelocatable::Addr(addr(2, 50))).unwrap();

    let used = vec![BuiltinName::RangeCheck, BuiltinName::Bitwise];
    write_return_builtins(&mut mem, addr(1, 40), &used, addr(1, 20), addr(1, 0), None)
        .expect("threading failed");

    // range-check is canonical slot 2, bitwise slot 4.
    assert_eq!(mem.get(addr(1, 42)), Some(MaybeRelocatable::Addr(addr(2, 30))));
    assert_eq!(mem.get(addr(1, 44)), Some(MaybeRelocatable::Addr(addr(2, 50))));
    // Every other slot keeps its pre-execution value exactly.
    for k in [0usize, 1, 3, 5, 6, 7, 8, 9, 10] {
        assert_eq!(mem.get(addr(1, 40 + k)), Some(MaybeRelocatable::Addr(addr(2, k))));
    }
}

fn pie_with_output_usage(size: usize) -> CairoPie {
    CairoPie {
        metadata: CairoPieMetadata {
            program: StrippedProgram { data: vec![Felt::from_u64(1)], builtins: vec![BuiltinName::Output], main: 0 },
            program_segment: SegmentInfo { index: 0, size: 1 },
            execution_segment: SegmentInfo { index: 1, size: 4 },
            ret_fp_segment: SegmentInfo { index: 2, size: 0 },
            ret_pc_segment: SegmentInfo { index: 3, size: 0 },
            builtin_segments: vec![BuiltinSegment {
                builtin: BuiltinName::Output,
                segment: SegmentInfo { index: 4, size },
            }],
            extra_segments: vec![],
        },
        memory: vec![],
    }
}

#[test]
fn artifact_usage_mismatch_is_refused() {
    // The artifact declares output usage 5, but the threaded pointers imply
    // an advance of 6: that must fail, never silently accept 6.
    let mut mem = memory_with_pre_execution();
    mem.insert(addr(1, 20), MaybeRelocatable::Addr(addr(2, 6))).unwrap();

    let pie = pie_with_output_usage(5);
    let used = vec![BuiltinName::Output];
    let r = write_return_builtins(
        &mut mem,
        addr(1, 40),
        &used,
        addr(1, 20),
        addr(1, 0),
        Some(&pie.metadata),
    );
    assert_eq!(r, Err(ExecuteTaskError::BuiltinUsageMismatch(BuiltinName::Output)));
}

#[test]
fn artifact_usage_match_is_accepted() {
    let mut mem = memory_with_pre_execution();
    mem.insert(addr(1, 20), MaybeRelocatable::Addr(addr(2, 6))).unwrap();

    let pie = pie_with_output_usage(6);
    let used = vec![BuiltinName::Output];
    write_return_builtins(
        &mut mem,
        addr(1, 40),
        &used,
        addr(1, 20),
        addr(1, 0),
        Some(&pie.metadata),
    )
    .expect("consistent usage must thread");
    assert_eq!(mem.get(addr(1, 40)), Some(MaybeRelocatable::Addr(addr(2, 6))));
}

#[test]
fn threading_fails_on_unwritten_pre_execution_cell() {
    let mut mem = Memory::new();
    mem.add_segment();
    mem.add_segment();
    let used: Vec<BuiltinName> = vec![];
    let r = write_return_builtins(&mut mem, addr(1, 40), &used, addr(1, 20), addr(1, 0), None);
    assert!(matches!(r, Err(ExecuteTaskError::Memory(_))));
}
