//! Builtin threading: merging the capability pointers a task wrote with the
//! stored pre-execution pointers into the task's return pointer record.
//!
//! The canonical capability order has one slot per well-known capability.
//! A slot the task declared takes the next entry of the densely packed
//! used-pointer sequence; every other slot keeps its pre-execution value.
//! For a task replayed from a serialized artifact, each declared slot's
//! advance must equal the usage size the artifact recorded.

use vstd::prelude::*;

use crate::builtins::{all_builtins, all_builtins_spec, n_builtin_slots, BuiltinName};
use crate::fact_topologies::{
    get_task_fact_topology, page_size_of, prepare_output_runner, program_topology_ok, sum_of,
    FactTopologyError, OutputBuiltin,
};
use crate::hash::{program_hash, program_hash_matches};
use crate::memory::{MaybeRelocatable, Memory, MemoryError, Relocatable};
use crate::pie::{
    can_load_pie, memory_keys_distinct, pie_map_spec, rebase_addr, rebase_value, usage_of,
    CairoPieMetadata, PieLoadError,
};
use crate::program::{can_load, load_program, LoadedProgram};
use crate::state::RunState;
use crate::types::{task_program_spec, TaskError, TaskSpec};

verus! {

/// Why a task-execution step failed.
#[derive(Clone, Copy, PartialEq, Eq, Structural, Debug)]
pub enum ExecuteTaskError {
    /// A memory read or write was refused.
    Memory(MemoryError),
    /// The recorded usage of this capability disagrees with the threaded
    /// advance.
    BuiltinUsageMismatch(BuiltinName),
    /// The artifact records no usage for this declared capability.
    MissingBuiltinUsage(BuiltinName),
    /// The threaded advance of this capability is not an in-segment,
    /// non-negative distance.
    UsageDeltaUndefined(BuiltinName),
    /// The task could not be resolved.
    Task(TaskError),
    /// Placing a serialized artifact failed.
    Pie(PieLoadError),
    /// Capturing a fact topology failed.
    Fact(FactTopologyError),
    /// A scoped variable an earlier step should have set is missing.
    VariableNotSet,
    /// The computed program hash does not match the committed one.
    HashMismatch,
    /// The segment to finalize does not exist.
    BadDataSegment,
    /// Frame-pointer arithmetic went below the frame base.
    OffsetUnderflow,
    /// A counter read from memory does not fit a machine integer.
    NumberTooLarge,
}

/// Number of declared capabilities among the first `i` canonical slots:
/// the index into the packed used-pointer sequence when slot `i` is
/// reached.
pub open spec fn n_used_before(used: Seq<BuiltinName>, i: int) -> int
    decreases i,
{
    if i <= 0 {
        0
    } else {
        n_used_before(used, i - 1) + if used.contains(all_builtins_spec()[i - 1]) {
            1int
        } else {
            0int
        }
    }
}

pub proof fn lemma_n_used_before_nonneg(used: Seq<BuiltinName>, i: int)
    ensures
        0 <= i ==> 0 <= n_used_before(used, i) <= i,
    decreases i,
{
    if i > 0 {
        lemma_n_used_before_nonneg(used, i - 1);
    }
}

pub proof fn lemma_n_used_before_mono(used: Seq<BuiltinName>, i: int, j: int)
    requires
        i <= j,
    ensures
        n_used_before(used, i) <= n_used_before(used, j),
        0 <= i ==> n_used_before(used, j) - n_used_before(used, i) <= j - i,
    decreases j - i,
{
    lemma_n_used_before_nonneg(used, i);
    if i < j {
        lemma_n_used_before_mono(used, i, j - 1);
    }
}

/// The artifact metadata behind an optional reference.
pub open spec fn opt_meta(p: Option<&CairoPieMetadata>) -> Option<CairoPieMetadata> {
    match p {
        Some(m) => Some(*m),
        None => None,
    }
}

/// What threading writes into return slot `i`, read from the memory before
/// the call: the next packed used pointer for a declared capability, the
/// pre-execution cell otherwise.
pub open spec fn threaded_cell(
    m: Memory,
    used: Seq<BuiltinName>,
    used_addr: Relocatable,
    pre: Relocatable,
    i: int,
) -> Option<MaybeRelocatable> {
    if used.contains(all_builtins_spec()[i]) {
        m.cell(used_addr.plus(n_used_before(used, i)))
    } else {
        m.cell(pre.plus(i))
    }
}

/// The conditions under which slot `i` threads without error, stated over
/// the memory before the call.
pub open spec fn slot_ok(
    m: Memory,
    ret: Relocatable,
    used: Seq<BuiltinName>,
    used_addr: Relocatable,
    pre: Relocatable,
    pie: Option<CairoPieMetadata>,
    i: int,
) -> bool {
    let slot = all_builtins_spec()[i];
    let rank = n_used_before(used, i);
    if used.contains(slot) {
        &&& used_addr.offset + rank <= usize::MAX
        &&& ret.offset + i <= usize::MAX
        &&& m.cell(used_addr.plus(rank)) matches Some(MaybeRelocatable::Addr(v))
        &&& m.writable(ret.plus(i), m.cell(used_addr.plus(rank)).unwrap())
        &&& match pie {
            Some(meta) => {
                &&& pre.offset + i <= usize::MAX
                &&& m.cell(pre.plus(i)) matches Some(MaybeRelocatable::Addr(p))
                &&& m.addr_at(used_addr.plus(rank)).unwrap().segment_index == p.segment_index
                &&& m.addr_at(used_addr.plus(rank)).unwrap().offset >= p.offset
                &&& usage_of(meta.builtin_segments@, slot) == Some(
                    (m.addr_at(used_addr.plus(rank)).unwrap().offset - p.offset) as usize,
                )
            },
            None => true,
        }
    } else {
        &&& pre.offset + i <= usize::MAX
        &&& ret.offset + i <= usize::MAX
        &&& m.cell(pre.plus(i)) is Some
        &&& m.writable(ret.plus(i), m.cell(pre.plus(i)).unwrap())
    }
}

/// Whether threading succeeds for every slot.
pub open spec fn threading_ok(
    m: Memory,
    ret: Relocatable,
    used: Seq<BuiltinName>,
    used_addr: Relocatable,
    pre: Relocatable,
    pie: Option<CairoPieMetadata>,
) -> bool {
    forall|i: int| 0 <= i < n_builtin_slots() ==> slot_ok(m, ret, used, used_addr, pre, pie, i)
}

/// The return record does not overlap the pre-execution record or the
/// packed used-pointer sequence it is computed from.
pub open spec fn threading_ranges_disjoint(
    ret: Relocatable,
    used: Seq<BuiltinName>,
    used_addr: Relocatable,
    pre: Relocatable,
) -> bool {
    &&& (pre.segment_index != ret.segment_index || pre.offset + n_builtin_slots() <= ret.offset
        || ret.offset + n_builtin_slots() <= pre.offset)
    &&& (used_addr.segment_index != ret.segment_index || used_addr.offset + n_used_before(
        used,
        n_builtin_slots(),
    ) <= ret.offset || ret.offset + n_builtin_slots() <= used_addr.offset)
}

/// Writes the updated capability pointers after a task's execution to the
/// return record at `return_builtins_addr`.
///
/// A declared capability takes the next entry of the densely packed
/// sequence at `used_builtins_addr`; an undeclared one keeps the value of
/// its pre-execution cell. When the task stems from a serialized artifact
/// (`pie_metadata` given), each declared capability's advance over its
/// pre-execution pointer must equal the artifact's recorded usage size.
pub fn write_return_builtins(
    mem: &mut Memory,
    return_builtins_addr: Relocatable,
    used_builtins: &Vec<BuiltinName>,
    used_builtins_addr: Relocatable,
    pre_execution_builtins_addr: Relocatable,
    pie_metadata: Option<&CairoPieMetadata>,
) -> (r: Result<(), ExecuteTaskError>)
    requires
        threading_ranges_disjoint(
            return_builtins_addr,
            used_builtins@,
            used_builtins_addr,
            pre_execution_builtins_addr,
        ),
    ensures
        match r {
            Ok(()) => {
                &&& threading_ok(
                    *old(mem),
                    return_builtins_addr,
                    used_builtins@,
                    used_builtins_addr,
                    pre_execution_builtins_addr,
                    opt_meta(pie_metadata),
                )
                &&& forall|i: int|
                    0 <= i < n_builtin_slots() ==> final(mem).cell(return_builtins_addr.plus(i))
                        == threaded_cell(
                        *old(mem),
                        used_builtins@,
                        used_builtins_addr,
                        pre_execution_builtins_addr,
                        i,
                    )
            },
            Err(e) => {
                &&& !threading_ok(
                    *old(mem),
                    return_builtins_addr,
                    used_builtins@,
                    used_builtins_addr,
                    pre_execution_builtins_addr,
                    opt_meta(pie_metadata),
                )
                &&& match e {
                    ExecuteTaskError::Memory(_) => true,
                    ExecuteTaskError::BuiltinUsageMismatch(b) => opt_meta(pie_metadata) is Some
                        && used_builtins@.contains(b) && usage_of(
                        opt_meta(pie_metadata).unwrap().builtin_segments@,
                        b,
                    ) is Some,
                    ExecuteTaskError::MissingBuiltinUsage(b) => opt_meta(pie_metadata) is Some
                        && used_builtins@.contains(b) && usage_of(
                        opt_meta(pie_metadata).unwrap().builtin_segments@,
                        b,
                    ) is None,
                    ExecuteTaskError::UsageDeltaUndefined(b) => opt_meta(pie_metadata) is Some
                        && used_builtins@.contains(b),
                    _ => false,
                }
            },
        },
        final(mem).unchanged_except_range(
            *old(mem),
            return_builtins_addr.segment_index as int,
            return_builtins_addr.offset as int,
            return_builtins_addr.offset + n_builtin_slots(),
        ),
{
    let ghost m0 = *old(mem);
    let ghost usedv = used_builtins@;
    let ghost pie_spec = opt_meta(pie_metadata);
    let ret = return_builtins_addr;
    let used_addr = used_builtins_addr;
    let pre = pre_execution_builtins_addr;

    let all = all_builtins();
    let mut used_offset: usize = 0;
    let mut i: usize = 0;
    while i < 11
        invariant
            m0 == *old(mem),
            ret == return_builtins_addr,
            used_addr == used_builtins_addr,
            pre == pre_execution_builtins_addr,
            all@ == all_builtins_spec(),
            i <= 11,
            used_offset == n_used_before(usedv, i as int),
            used_offset <= i,
            usedv == used_builtins@,
            pie_spec == opt_meta(pie_metadata),
            threading_ranges_disjoint(ret, usedv, used_addr, pre),
            mem.unchanged_except_range(
                m0,
                ret.segment_index as int,
                ret.offset as int,
                ret.offset + i,
            ),
            forall|j: int| 0 <= j < i ==> slot_ok(m0, ret, usedv, used_addr, pre, pie_spec, j),
            forall|j: int|
                0 <= j < i ==> mem.cell(ret.plus(j)) == threaded_cell(
                    m0,
                    usedv,
                    used_addr,
                    pre,
                    j,
                ),
        decreases 11 - i,
    {
        let ghost slot_i = i as int;
        let slot = all[i];
        proof {
            lemma_n_used_before_mono(usedv, slot_i, n_builtin_slots());
            lemma_n_used_before_mono(usedv, 0, slot_i);
        }
        if crate::builtins::contains_builtin(used_builtins, slot) {
            proof {
                assert(n_used_before(usedv, slot_i + 1) == used_offset + 1);
                lemma_n_used_before_mono(usedv, slot_i + 1, n_builtin_slots());
            }
            // The packed sequence lies outside the return record, so the
            // cell still holds its pre-call value.
            let src = match used_addr.add(used_offset) {
                Some(a) => a,
                None => {
                    proof {
                        assert(!slot_ok(m0, ret, usedv, used_addr, pre, pie_spec, slot_i));
                        assert(!threading_ok(m0, ret, usedv, used_addr, pre, pie_spec));
                        assert(mem.unchanged_except_range(m0, ret.segment_index as int,
                            ret.offset as int, ret.offset + n_builtin_slots()));
                    }
                    return Err(ExecuteTaskError::Memory(MemoryError::OffsetOverflow));
                },
            };
            proof {
                assert(mem.cell(src) == m0.cell(src));
            }
            let value = match mem.get_relocatable(src) {
                Ok(v) => v,
                Err(e) => {
                    proof {
                        assert(!slot_ok(m0, ret, usedv, used_addr, pre, pie_spec, slot_i));
                        assert(!threading_ok(m0, ret, usedv, used_addr, pre, pie_spec));
                        assert(mem.unchanged_except_range(m0, ret.segment_index as int,
                            ret.offset as int, ret.offset + n_builtin_slots()));
                    }
                    return Err(ExecuteTaskError::Memory(e));
                },
            };
            let dst = match ret.add(i) {
                Some(a) => a,
                None => {
                    proof {
                        assert(!slot_ok(m0, ret, usedv, used_addr, pre, pie_spec, slot_i));
                        assert(!threading_ok(m0, ret, usedv, used_addr, pre, pie_spec));
                        assert(mem.unchanged_except_range(m0, ret.segment_index as int,
                            ret.offset as int, ret.offset + n_builtin_slots()));
                    }
                    return Err(ExecuteTaskError::Memory(MemoryError::OffsetOverflow));
                },
            };
            let ghost mem_before = *mem;
            match mem.insert(dst, MaybeRelocatable::Addr(value)) {
                Ok(()) => {},
                Err(e) => {
                    proof {
                        assert(mem_before.cell(dst) == m0.cell(dst));
                        assert(!slot_ok(m0, ret, usedv, used_addr, pre, pie_spec, slot_i));
                        assert(!threading_ok(m0, ret, usedv, used_addr, pre, pie_spec));
                        assert(mem.unchanged_except_range(m0, ret.segment_index as int,
                            ret.offset as int, ret.offset + n_builtin_slots()));
                    }
                    return Err(ExecuteTaskError::Memory(e));
                },
            }
            proof {
                assert forall|b: Relocatable|
                    b.segment_index != ret.segment_index as int || b.offset < ret.offset
                        || b.offset >= ret.offset + (i + 1) implies mem.cell(b) == m0.cell(b) by {
                    assert(b != dst);
                    assert(mem.cell(b) == mem_before.cell(b));
                }
            }
            if let Some(meta) = pie_metadata {
                let pre_a = match pre.add(i) {
                    Some(a) => a,
                    None => {
                        proof {
                            assert(!slot_ok(m0, ret, usedv, used_addr, pre, pie_spec, slot_i));
                            assert(!threading_ok(m0, ret, usedv, used_addr, pre, pie_spec));
                            assert(mem.unchanged_except_range(m0, ret.segment_index as int,
                                ret.offset as int, ret.offset + n_builtin_slots()));
                        }
                        return Err(ExecuteTaskError::Memory(MemoryError::OffsetOverflow));
                    },
                };
                proof {
                    assert(mem.cell(pre_a) == m0.cell(pre_a));
                }
                let pre_value = match mem.get_relocatable(pre_a) {
                    Ok(v) => v,
                    Err(e) => {
                        proof {
                            assert(!slot_ok(m0, ret, usedv, used_addr, pre, pie_spec, slot_i));
                            assert(!threading_ok(m0, ret, usedv, used_addr, pre, pie_spec));
                            assert(mem.unchanged_except_range(m0, ret.segment_index as int,
                                ret.offset as int, ret.offset + n_builtin_slots()));
                        }
                        return Err(ExecuteTaskError::Memory(e));
                    },
                };
                let delta = match value.sub_addr(pre_value) {
                    Some(d) => d,
                    None => {
                        proof {
                            assert(!slot_ok(m0, ret, usedv, used_addr, pre, pie_spec, slot_i));
                            assert(!threading_ok(m0, ret, usedv, used_addr, pre, pie_spec));
                            assert(mem.unchanged_except_range(m0, ret.segment_index as int,
                                ret.offset as int, ret.offset + n_builtin_slots()));
                        }
                        return Err(ExecuteTaskError::UsageDeltaUndefined(slot));
                    },
                };
                let usage = match meta.builtin_usage(slot) {
                    Some(u) => u,
                    None => {
                        proof {
                            assert(!slot_ok(m0, ret, usedv, used_addr, pre, pie_spec, slot_i));
                            assert(!threading_ok(m0, ret, usedv, used_addr, pre, pie_spec));
                            assert(mem.unchanged_except_range(m0, ret.segment_index as int,
                                ret.offset as int, ret.offset + n_builtin_slots()));
                        }
                        return Err(ExecuteTaskError::MissingBuiltinUsage(slot));
                    },
                };
                if usage != delta {
                    proof {
                        assert(!slot_ok(m0, ret, usedv, used_addr, pre, pie_spec, slot_i));
                        assert(!threading_ok(m0, ret, usedv, used_addr, pre, pie_spec));
                        assert(mem.unchanged_except_range(m0, ret.segment_index as int,
                            ret.offset as int, ret.offset + n_builtin_slots()));
                    }
                    return Err(ExecuteTaskError::BuiltinUsageMismatch(slot));
                }
            }
            used_offset = used_offset + 1;
        } else {
            let pre_a = match pre.add(i) {
                Some(a) => a,
                None => {
                    proof {
                        assert(!slot_ok(m0, ret, usedv, used_addr, pre, pie_spec, slot_i));
                        assert(!threading_ok(m0, ret, usedv, used_addr, pre, pie_spec));
                        assert(mem.unchanged_except_range(m0, ret.segment_index as int,
                            ret.offset as int, ret.offset + n_builtin_slots()));
                    }
                    return Err(ExecuteTaskError::Memory(MemoryError::OffsetOverflow));
                },
            };
            proof {
                assert(mem.cell(pre_a) == m0.cell(pre_a));
            }
            let value = match mem.get(pre_a) {
                Some(v) => v,
                None => {
                    proof {
                        assert(!slot_ok(m0, ret, usedv, used_addr, pre, pie_spec, slot_i));
                        assert(!threading_ok(m0, ret, usedv, used_addr, pre, pie_spec));
                        assert(mem.unchanged_except_range(m0, ret.segment_index as int,
                            ret.offset as int, ret.offset + n_builtin_slots()));
                    }
                    return Err(ExecuteTaskError::Memory(MemoryError::UnknownCell(pre_a)));
                },
            };
            let dst = match ret.add(i) {
                Some(a) => a,
                None => {
                    proof {
                        assert(!slot_ok(m0, ret, usedv, used_addr, pre, pie_spec, slot_i));
                        assert(!threading_ok(m0, ret, usedv, used_addr, pre, pie_spec));
                        assert(mem.unchanged_except_range(m0, ret.segment_index as int,
                            ret.offset as int, ret.offset + n_builtin_slots()));
                    }
                    return Err(ExecuteTaskError::Memory(MemoryError::OffsetOverflow));
                },
            };
            let ghost mem_before = *mem;
            match mem.insert(dst, value) {
                Ok(()) => {},
                Err(e) => {
                    proof {
                        assert(mem_before.cell(dst) == m0.cell(dst));
                        assert(!slot_ok(m0, ret, usedv, used_addr, pre, pie_spec, slot_i));
                        assert(!threading_ok(m0, ret, usedv, used_addr, pre, pie_spec));
                        assert(mem.unchanged_except_range(m0, ret.segment_index as int,
                            ret.offset as int, ret.offset + n_builtin_slots()));
                    }
                    return Err(ExecuteTaskError::Memory(e));
                },
            }
            proof {
                assert forall|b: Relocatable|
                    b.segment_index != ret.segment_index as int || b.offset < ret.offset
                        || b.offset >= ret.offset + (i + 1) implies mem.cell(b) == m0.cell(b) by {
                    assert(b != dst);
                    assert(mem.cell(b) == mem_before.cell(b));
                }
            }
        }
        i = i + 1;
    }
    Ok(())
}

/// Allocates the segment the next task's program is loaded into, stores
/// its base both in the run state and in the cell the control program
/// reads it from, and returns it.
pub fn allocate_program_data_segment(
    mem: &mut Memory,
    state: &mut RunState,
    program_data_ptr_addr: Relocatable,
) -> (r: Result<Relocatable, ExecuteTaskError>)
    requires
        old(mem).n_segments() < 0x8000,
    ensures
        final(mem).n_segments() == old(mem).n_segments() + 1,
        final(mem).n_temp_segments() == old(mem).n_temp_segments(),
        match r {
            Ok(base) => {
                &&& base.segment_index == old(mem).n_segments()
                &&& base.offset == 0
                &&& final(mem).cell(program_data_ptr_addr) == Some(MaybeRelocatable::Addr(base))
                &&& forall|b: Relocatable|
                    b != program_data_ptr_addr ==> final(mem).cell(b) == old(mem).cell(b)
                &&& final(state).program_data_base == Some(base)
                &&& final(state).program_address == old(state).program_address
                &&& final(state).fact_topologies == old(state).fact_topologies
                &&& final(state).current_task == old(state).current_task
            },
            Err(_) => {
                &&& !(program_data_ptr_addr.segment_index == old(mem).n_segments()) && !old(
                    mem,
                ).writable(
                    program_data_ptr_addr,
                    MaybeRelocatable::Addr(
                        Relocatable {
                            segment_index: old(mem).n_segments() as isize,
                            offset: 0,
                        },
                    ),
                )
                &&& forall|b: Relocatable| final(mem).cell(b) == old(mem).cell(b)
                &&& *final(state) == *old(state)
            },
        },
{
    let base = mem.add_segment();
    match mem.insert(program_data_ptr_addr, MaybeRelocatable::Addr(base)) {
        Ok(()) => {},
        Err(e) => {
            return Err(ExecuteTaskError::Memory(e));
        },
    }
    state.program_data_base = Some(base);
    Ok(base)
}

/// Loads the current task's program header and code at the header address,
/// finalizes the program's backing segment to the written size, and
/// records where the code begins.
pub fn load_program_hint(
    mem: &mut Memory,
    state: &mut RunState,
    task: &TaskSpec,
    program_header_ptr: Relocatable,
) -> (r: Result<LoadedProgram, ExecuteTaskError>)
    requires
        !(task is CairoPiePath) ==> task_program_spec(*task).wf(),
    ensures
        final(mem).n_segments() == old(mem).n_segments(),
        final(mem).n_temp_segments() == old(mem).n_temp_segments(),
        *final(state) == (RunState { program_address: final(state).program_address, ..*old(state) }),
        match r {
            Ok(lp) => {
                &&& !(*task is CairoPiePath)
                &&& can_load(*old(mem), program_header_ptr, task_program_spec(*task), 0)
                &&& lp.size == task_program_spec(*task).load_words(0).len()
                &&& lp.code_address == program_header_ptr.plus(
                    4 + task_program_spec(*task).builtins@.len() as int,
                )
                &&& forall|k: int|
                    0 <= k < task_program_spec(*task).load_words(0).len() ==> final(mem).int_at(
                        program_header_ptr.plus(k),
                    ) == Some(task_program_spec(*task).load_words(0)[k])
                &&& old(state).program_data_base matches Some(base)
                    && 0 <= base.segment_index < old(mem).n_segments()
                    && final(mem).finalized_size(base.segment_index as int) == Some(lp.size)
                &&& final(state).program_address == Some(lp.code_address)
            },
            Err(e) => {
                &&& !({
                    &&& !(*task is CairoPiePath)
                    &&& old(state).program_data_base matches Some(base)
                    &&& 0 <= base.segment_index < old(mem).n_segments()
                    &&& can_load(*old(mem), program_header_ptr, task_program_spec(*task), 0)
                })
                &&& final(state).program_address == old(state).program_address
                &&& forall|i: int| final(mem).finalized_size(i) == old(mem).finalized_size(i)
                &&& match e {
                    ExecuteTaskError::Task(_) => *task is CairoPiePath,
                    ExecuteTaskError::VariableNotSet => old(state).program_data_base is None,
                    ExecuteTaskError::Memory(_) | ExecuteTaskError::BadDataSegment => true,
                    _ => false,
                }
            },
        },
{
    let base = match &state.program_data_base {
        Some(b) => *b,
        None => {
            return Err(ExecuteTaskError::VariableNotSet);
        },
    };
    let program = match task.get_program() {
        Ok(p) => p,
        Err(e) => {
            return Err(ExecuteTaskError::Task(e));
        },
    };
    let lp = match load_program(mem, program_header_ptr, program, 0) {
        Ok(lp) => lp,
        Err(e) => {
            return Err(ExecuteTaskError::Memory(e));
        },
    };
    if base.segment_index < 0 {
        return Err(ExecuteTaskError::BadDataSegment);
    }
    let seg = base.segment_index as usize;
    if seg >= mem.num_segments() {
        return Err(ExecuteTaskError::BadDataSegment);
    }
    mem.finalize(seg, lp.size);
    state.program_address = Some(lp.code_address);
    Ok(lp)
}

/// Checks the committed program hash: the cell after the output pointer
/// must hold the identity hash of the current task's program.
pub fn validate_hash(mem: &Memory, task: &TaskSpec, output_ptr: Relocatable) -> (r: Result<
    (),
    ExecuteTaskError,
>)
    requires
        !(task is CairoPiePath) ==> task_program_spec(*task).wf(),
    ensures
        r is Ok <==> {
            &&& !(*task is CairoPiePath)
            &&& output_ptr.offset + 1 <= usize::MAX
            &&& mem.int_at(output_ptr.plus(1)) == Some(
                program_hash(task_program_spec(*task), 0),
            )
        },
        match r {
            Ok(()) => true,
            Err(e) => match e {
                ExecuteTaskError::Task(t) => *task is CairoPiePath && t
                    == TaskError::UnresolvedPath,
                ExecuteTaskError::Memory(_) => !(*task is CairoPiePath) && (output_ptr.offset + 1
                    > usize::MAX || mem.int_at(output_ptr.plus(1)) is None),
                ExecuteTaskError::HashMismatch => {
                    &&& !(*task is CairoPiePath)
                    &&& output_ptr.offset + 1 <= usize::MAX
                    &&& mem.int_at(output_ptr.plus(1)) matches Some(h) && h != program_hash(
                        task_program_spec(*task),
                        0,
                    )
                },
                _ => false,
            },
        },
{
    let program = match task.get_program() {
        Ok(p) => p,
        Err(e) => {
            return Err(ExecuteTaskError::Task(e));
        },
    };
    let program_hash_ptr = match output_ptr.add(1) {
        Some(a) => a,
        None => {
            return Err(ExecuteTaskError::Memory(MemoryError::OffsetOverflow));
        },
    };
    let committed = match mem.get_integer(program_hash_ptr) {
        Ok(f) => f,
        Err(e) => {
            return Err(ExecuteTaskError::Memory(e));
        },
    };
    if program_hash_matches(program, &committed, 0) {
        Ok(())
    } else {
        Err(ExecuteTaskError::HashMismatch)
    }
}

/// Fills the values of all capability pointers after the task executed and
/// publishes the selected-capability count to the nested scope.
pub fn write_return_builtins_hint(
    mem: &mut Memory,
    state: &mut RunState,
    task: &TaskSpec,
    return_builtins_addr: Relocatable,
    used_builtins_addr: Relocatable,
    pre_execution_builtins_addr: Relocatable,
) -> (r: Result<(), ExecuteTaskError>)
    requires
        !(task is CairoPiePath) ==> threading_ranges_disjoint(
            return_builtins_addr,
            task_program_spec(*task).builtins@,
            used_builtins_addr,
            pre_execution_builtins_addr,
        ),
    ensures
        final(mem).unchanged_except_range(
            *old(mem),
            return_builtins_addr.segment_index as int,
            return_builtins_addr.offset as int,
            return_builtins_addr.offset + n_builtin_slots(),
        ),
        *final(state) == (RunState {
            n_selected_builtins: final(state).n_selected_builtins,
            ..*old(state)
        }),
        match r {
            Ok(()) => {
                &&& !(*task is CairoPiePath)
                &&& old(state).n_builtins is Some
                &&& final(state).n_selected_builtins == old(state).n_builtins
                &&& threading_ok(
                    *old(mem),
                    return_builtins_addr,
                    task_program_spec(*task).builtins@,
                    used_builtins_addr,
                    pre_execution_builtins_addr,
                    task_pie_metadata(*task),
                )
                &&& forall|i: int|
                    0 <= i < n_builtin_slots() ==> final(mem).cell(return_builtins_addr.plus(i))
                        == threaded_cell(
                        *old(mem),
                        task_program_spec(*task).builtins@,
                        used_builtins_addr,
                        pre_execution_builtins_addr,
                        i,
                    )
            },
            Err(_) => {
                &&& (*task is CairoPiePath || old(state).n_builtins is None || !threading_ok(
                    *old(mem),
                    return_builtins_addr,
                    task_program_spec(*task).builtins@,
                    used_builtins_addr,
                    pre_execution_builtins_addr,
                    task_pie_metadata(*task),
                ))
                &&& final(state).n_selected_builtins == old(state).n_selected_builtins
            },
        },
{
    let n_builtins = match &state.n_builtins {
        Some(n) => *n,
        None => {
            return Err(ExecuteTaskError::VariableNotSet);
        },
    };
    let program = match task.get_program() {
        Ok(p) => p,
        Err(e) => {
            return Err(ExecuteTaskError::Task(e));
        },
    };
    let pie_metadata = match task {
        TaskSpec::CairoPieTask(t) => Some(&t.cairo_pie.metadata),
        _ => None,
    };
    match write_return_builtins(
        mem,
        return_builtins_addr,
        &program.builtins,
        used_builtins_addr,
        pre_execution_builtins_addr,
        pie_metadata,
    ) {
        Ok(()) => {},
        Err(e) => {
            return Err(e);
        },
    }
    state.n_selected_builtins = Some(n_builtins);
    Ok(())
}

/// The artifact metadata of a task replayed from a serialized artifact.
pub open spec fn task_pie_metadata(t: TaskSpec) -> Option<CairoPieMetadata> {
    match t {
        TaskSpec::CairoPieTask(x) => Some(x.cairo_pie.metadata),
        _ => None,
    }
}

/// Prepares the nested task's execution: a task from a serialized artifact
/// has its recorded memory placed (rebased) with control set to return to
/// the instruction after the call; the output capability's state is saved
/// for a fresh-code task; the declared-capability count and the saved
/// output state are recorded for the later steps.
///
/// Loading a fresh-code task's embedded hints is the driver's work: it
/// rebases each hint's program counter with [`rebase_hint_pc`] and
/// compiles it against the new addresses.
pub fn call_task(
    mem: &mut Memory,
    state: &mut RunState,
    task: &TaskSpec,
    output_builtin: &mut OutputBuiltin,
    pre_execution_builtins_addr: Relocatable,
    ap: Relocatable,
    fp: Relocatable,
    pc: Relocatable,
) -> (r: Result<(), ExecuteTaskError>)
    requires
        match *task {
            TaskSpec::CairoPieTask(t) => {
                &&& memory_keys_distinct(t.cairo_pie)
                &&& old(mem).n_segments() + t.cairo_pie.metadata.builtin_segments@.len()
                    + t.cairo_pie.metadata.extra_segments@.len() <= 0x8000
                &&& 0 <= ap.segment_index < old(mem).n_segments()
                &&& match old(state).program_address {
                    Some(pa) => 0 <= pa.segment_index < old(mem).n_segments()
                        && pa.segment_index != ap.segment_index,
                    None => true,
                }
            },
            _ => true,
        },
    ensures
        *final(state) == (RunState {
            n_builtins: final(state).n_builtins,
            output_runner_data: final(state).output_runner_data,
            task_scope_open: final(state).task_scope_open,
            program_input: final(state).program_input,
            with_bootloader: final(state).with_bootloader,
            ..*old(state)
        }),
        *task is RunProgram ==> final(mem).same_shape(*old(mem)) && forall|b: Relocatable|
            final(mem).cell(b) == old(mem).cell(b),
        *task is RunProgram ==> (r is Ok <==> ((old(mem).addr_at(pre_execution_builtins_addr)
            matches Some(op)) && old(mem).addr_at(pre_execution_builtins_addr).unwrap().segment_index >= 0)),
        *task is CairoPiePath ==> r is Err,
        match *task {
            TaskSpec::CairoPieTask(t) => (r is Ok <==> {
                &&& old(state).program_address is Some
                &&& ap.offset >= t.cairo_pie.metadata.program.builtins@.len()
                &&& pc.offset + 1 <= usize::MAX
                &&& can_load_pie(
                    *old(mem),
                    t.cairo_pie,
                    old(state).program_address.unwrap(),
                    ap.plus(-(t.cairo_pie.metadata.program.builtins@.len() as int)),
                    fp,
                    pc.plus(1),
                )
                &&& final(mem).addr_at(pre_execution_builtins_addr) matches Some(op)
                &&& final(mem).addr_at(pre_execution_builtins_addr).unwrap().segment_index >= 0
            }),
            _ => true,
        },
        match r {
            Ok(()) => {
                &&& !(*task is CairoPiePath)
                &&& final(state).n_builtins == Some(task_program_spec(*task).builtins@.len() as usize)
                &&& final(mem).addr_at(pre_execution_builtins_addr) matches Some(output_ptr)
                    && output_ptr.segment_index >= 0 && (match *task {
                    TaskSpec::RunProgram(rt) => {
                        &&& final(state).output_runner_data == Some(
                            Some(old(output_builtin).state),
                        )
                        &&& final(output_builtin).state.base == output_ptr.segment_index
                        &&& final(output_builtin).state.pages@.len() == 0
                        &&& final(output_builtin).state.tree_structure is None
                        &&& final(state).task_scope_open
                        &&& final(state).program_input matches Some(m) && m@
                            == rt.program_input@
                        &&& final(state).with_bootloader
                    },
                    TaskSpec::CairoPieTask(t) => {
                        &&& final(state).output_runner_data == Some(
                            None::<crate::fact_topologies::OutputBuiltinState>,
                        )
                        &&& *final(output_builtin) == *old(output_builtin)
                        &&& final(state).task_scope_open
                        &&& final(state).program_input is None
                        &&& !final(state).with_bootloader
                        &&& old(state).program_address matches Some(pa)
                        &&& ap.offset >= t.cairo_pie.metadata.program.builtins@.len()
                        &&& pc.offset + 1 <= usize::MAX
                        &&& can_load_pie(
                            *old(mem),
                            t.cairo_pie,
                            pa,
                            ap.plus(-(t.cairo_pie.metadata.program.builtins@.len() as int)),
                            fp,
                            pc.plus(1),
                        )
                        &&& forall|j: int|
                            0 <= j < t.cairo_pie.memory@.len() ==> final(mem).cell(
                                rebase_addr(
                                    pie_map_spec(
                                        t.cairo_pie.metadata,
                                        pa,
                                        ap.plus(
                                            -(t.cairo_pie.metadata.program.builtins@.len() as int),
                                        ),
                                        fp,
                                        pc.plus(1),
                                        old(mem).n_segments(),
                                    ),
                                    (#[trigger] t.cairo_pie.memory@[j]).0,
                                ).unwrap(),
                            ) == Some(
                                rebase_value(
                                    pie_map_spec(
                                        t.cairo_pie.metadata,
                                        pa,
                                        ap.plus(
                                            -(t.cairo_pie.metadata.program.builtins@.len() as int),
                                        ),
                                        fp,
                                        pc.plus(1),
                                        old(mem).n_segments(),
                                    ),
                                    t.cairo_pie.memory@[j].1,
                                ).unwrap(),
                            )
                    },
                    TaskSpec::CairoPiePath(_) => false,
                })
            },
            Err(e) => {
                &&& final(state).n_builtins == old(state).n_builtins
                &&& final(state).output_runner_data == old(state).output_runner_data
                &&& final(state).task_scope_open == old(state).task_scope_open
                &&& final(state).program_input == old(state).program_input
                &&& final(state).with_bootloader == old(state).with_bootloader
                &&& match e {
                    ExecuteTaskError::Task(_) => *task is CairoPiePath,
                    ExecuteTaskError::VariableNotSet => *task is CairoPieTask && old(
                        state,
                    ).program_address is None,
                    ExecuteTaskError::Pie(_) | ExecuteTaskError::OffsetUnderflow => *task
                        is CairoPieTask,
                    ExecuteTaskError::Memory(_) | ExecuteTaskError::BadDataSegment
                        | ExecuteTaskError::Fact(_) => true,
                    _ => false,
                }
            },
        },
{
    let program = match task.get_program() {
        Ok(p) => p,
        Err(e) => {
            return Err(ExecuteTaskError::Task(e));
        },
    };
    let n_builtins = program.builtins.len();

    match task {
        TaskSpec::RunProgram(_) => {},
        TaskSpec::CairoPiePath(_) => {
            return Err(ExecuteTaskError::Task(TaskError::UnresolvedPath));
        },
        TaskSpec::CairoPieTask(t) => {
            let program_address = match &state.program_address {
                Some(a) => *a,
                None => {
                    return Err(ExecuteTaskError::VariableNotSet);
                },
            };
            let ret_pc = match pc.add(1) {
                Some(a) => a,
                None => {
                    return Err(ExecuteTaskError::Memory(MemoryError::OffsetOverflow));
                },
            };
            let execution_segment_address = match ap.sub(n_builtins) {
                Some(a) => a,
                None => {
                    return Err(ExecuteTaskError::OffsetUnderflow);
                },
            };
            match crate::pie::load_cairo_pie(
                &t.cairo_pie,
                mem,
                program_address,
                execution_segment_address,
                fp,
                ret_pc,
            ) {
                Ok(_) => {},
                Err(e) => {
                    return Err(ExecuteTaskError::Pie(e));
                },
            }
        },
    }

    let output_ptr = match mem.get_relocatable(pre_execution_builtins_addr) {
        Ok(a) => a,
        Err(e) => {
            return Err(ExecuteTaskError::Memory(e));
        },
    };
    if output_ptr.segment_index < 0 {
        return Err(ExecuteTaskError::BadDataSegment);
    }
    let output_runner_data = match prepare_output_runner(task, output_builtin, output_ptr) {
        Ok(d) => d,
        Err(e) => {
            return Err(ExecuteTaskError::Fact(e));
        },
    };
    state.n_builtins = Some(n_builtins);
    state.output_runner_data = Some(output_runner_data);
    state.task_scope_open = true;
    match task {
        TaskSpec::RunProgram(rt) => {
            state.program_input = Some(crate::types::clone_program_input(&rt.program_input));
            state.with_bootloader = true;
        },
        _ => {
            state.program_input = None;
            state.with_bootloader = false;
        },
    }
    Ok(())
}

/// Adds the fact topology of the finished task to the run-wide list: the
/// output size is the advance of the output pointer over the task, and the
/// saved output state is handed back to the capability. The saved state is
/// consumed even when capturing the topology fails, as the whole run
/// aborts on any failure.
pub fn append_fact_topologies(
    mem: &Memory,
    state: &mut RunState,
    task: &TaskSpec,
    output_builtin: &mut OutputBuiltin,
    pre_execution_builtin_ptrs_addr: Relocatable,
    return_builtin_ptrs_addr: Relocatable,
) -> (r: Result<(), ExecuteTaskError>)
    ensures
        *final(state) == (RunState {
            output_runner_data: final(state).output_runner_data,
            fact_topologies: final(state).fact_topologies,
            ..*old(state)
        }),
        r is Ok <==> {
            &&& mem.addr_at(pre_execution_builtin_ptrs_addr) matches Some(start)
            &&& mem.addr_at(return_builtin_ptrs_addr) matches Some(end)
            &&& mem.addr_at(return_builtin_ptrs_addr).unwrap().segment_index == mem.addr_at(
                pre_execution_builtin_ptrs_addr,
            ).unwrap().segment_index
            &&& mem.addr_at(return_builtin_ptrs_addr).unwrap().offset >= mem.addr_at(
                pre_execution_builtin_ptrs_addr,
            ).unwrap().offset
            &&& old(state).output_runner_data matches Some(d)
            &&& match *task {
                TaskSpec::RunProgram(_) => old(state).output_runner_data.unwrap() is Some
                    && program_topology_ok(
                    old(output_builtin).state,
                    mem.addr_at(return_builtin_ptrs_addr).unwrap().offset - mem.addr_at(
                        pre_execution_builtin_ptrs_addr,
                    ).unwrap().offset,
                ),
                TaskSpec::CairoPieTask(_) => old(state).output_runner_data.unwrap() is None,
                TaskSpec::CairoPiePath(_) => false,
            }
        },
        match r {
            Ok(()) => {
                let start = mem.addr_at(pre_execution_builtin_ptrs_addr).unwrap();
                let end = mem.addr_at(return_builtin_ptrs_addr).unwrap();
                let size = end.offset - start.offset;
                let ft = final(state).fact_topologies@.last();
                &&& final(state).fact_topologies@ == old(state).fact_topologies@.push(ft)
                &&& sum_of(ft.page_sizes@) == size
                &&& final(state).output_runner_data is None
                &&& match *task {
                    TaskSpec::RunProgram(_) => {
                        &&& final(output_builtin).state
                            == old(state).output_runner_data.unwrap().unwrap()
                        &&& ft.page_sizes@.len() == old(output_builtin).state.pages@.len() + 1
                        &&& forall|k: int|
                            1 <= k < ft.page_sizes@.len() ==> Some(#[trigger] ft.page_sizes@[k])
                                == page_size_of(
                                old(output_builtin).state.pages@,
                                k,
                            )
                        &&& match old(output_builtin).state.tree_structure {
                            Some(t) => ft.tree_structure@ == t@,
                            None => ft.tree_structure@ == seq![1usize, 0usize],
                        }
                    },
                    TaskSpec::CairoPieTask(_) => {
                        &&& ft.page_sizes@ == seq![(size) as usize]
                        &&& ft.tree_structure@ == seq![1usize, 0usize]
                        &&& *final(output_builtin) == *old(output_builtin)
                    },
                    TaskSpec::CairoPiePath(_) => false,
                }
            },
            Err(e) => {
                &&& match e {
                    ExecuteTaskError::Memory(_) | ExecuteTaskError::OffsetUnderflow
                        | ExecuteTaskError::VariableNotSet | ExecuteTaskError::Fact(_) => true,
                    _ => false,
                }
                &&& final(state).fact_topologies == old(state).fact_topologies
                &&& (final(state).output_runner_data == old(state).output_runner_data
                    || final(state).output_runner_data is None)
                &&& (*final(output_builtin) == *old(output_builtin) || ({
                    &&& *task is RunProgram
                    &&& old(state).output_runner_data matches Some(Some(saved))
                    &&& final(output_builtin).state == saved
                }))
            },
        },
{
    let output_start = match mem.get_relocatable(pre_execution_builtin_ptrs_addr) {
        Ok(a) => a,
        Err(e) => {
            return Err(ExecuteTaskError::Memory(e));
        },
    };
    let output_end = match mem.get_relocatable(return_builtin_ptrs_addr) {
        Ok(a) => a,
        Err(e) => {
            return Err(ExecuteTaskError::Memory(e));
        },
    };
    let output_size = match output_end.sub_addr(output_start) {
        Some(d) => d,
        None => {
            return Err(ExecuteTaskError::OffsetUnderflow);
        },
    };
    let mut taken: Option<Option<crate::fact_topologies::OutputBuiltinState>> = None;
    core::mem::swap(&mut state.output_runner_data, &mut taken);
    let output_runner_data = match taken {
        Some(d) => d,
        None => {
            return Err(ExecuteTaskError::VariableNotSet);
        },
    };
    let ft = match get_task_fact_topology(output_size, task, output_builtin, output_runner_data) {
        Ok(ft) => ft,
        Err(e) => {
            return Err(ExecuteTaskError::Fact(e));
        },
    };
    state.fact_topologies.push(ft);
    Ok(())
}

/// Leaves the innermost open scope: first the selected-capability count
/// published for the nested call, then the task scope itself with its
/// published input mapping.
pub fn exit_scope_with_comments(state: &mut RunState) -> (r: Result<(), ExecuteTaskError>)
    ensures
        match r {
            Ok(()) => if old(state).n_selected_builtins is Some {
                *final(state) == (RunState { n_selected_builtins: None, ..*old(state) })
            } else {
                &&& old(state).task_scope_open
                &&& *final(state) == (RunState {
                    task_scope_open: false,
                    program_input: None,
                    with_bootloader: false,
                    ..*old(state)
                })
            },
            Err(_) => old(state).n_selected_builtins is None && !old(state).task_scope_open
                && *final(state) == *old(state),
        },
{
    match &state.n_selected_builtins {
        Some(_) => {
            state.n_selected_builtins = None;
            Ok(())
        },
        None => {
            if state.task_scope_open {
                state.task_scope_open = false;
                state.program_input = None;
                state.with_bootloader = false;
                Ok(())
            } else {
                Err(ExecuteTaskError::VariableNotSet)
            }
        },
    }
}

/// Moves a hint's program counter by the address the task's code was
/// loaded at, so hints embedded in the program are dispatched at their new
/// addresses.
pub fn rebase_hint_pc(hint_pc: Relocatable, program_address: Relocatable) -> (r: Option<
    Relocatable,
>)
    ensures
        match r {
            Some(b) => {
                &&& isize::MIN <= hint_pc.segment_index + program_address.segment_index
                    <= isize::MAX
                &&& hint_pc.offset + program_address.offset <= usize::MAX
                &&& b.segment_index == hint_pc.segment_index + program_address.segment_index
                &&& b.offset == hint_pc.offset + program_address.offset
            },
            None => hint_pc.segment_index + program_address.segment_index > isize::MAX
                || hint_pc.segment_index + program_address.segment_index < isize::MIN
                || hint_pc.offset + program_address.offset > usize::MAX,
        },
{
    let seg = match hint_pc.segment_index.checked_add(program_address.segment_index) {
        Some(s) => s,
        None => {
            return None;
        },
    };
    let off = match hint_pc.offset.checked_add(program_address.offset) {
        Some(o) => o,
        None => {
            return None;
        },
    };
    Some(Relocatable { segment_index: seg, offset: off })
}

/// Rebases a program's embedded hint ranges for dispatch at the loaded
/// addresses: each range keeps its index span into the program's hint list
/// and its order, while its program counter moves by the code address. The
/// driver compiles each hint at its rebased counter and registers it.
pub fn rebase_hint_ranges(
    ranges: &Vec<(Relocatable, (usize, usize))>,
    program_address: Relocatable,
) -> (r: Result<Vec<(Relocatable, (usize, usize))>, ExecuteTaskError>)
    ensures
        r is Ok <==> forall|k: int|
            0 <= k < ranges@.len() ==> {
                &&& isize::MIN <= (#[trigger] ranges@[k]).0.segment_index
                    + program_address.segment_index <= isize::MAX
                &&& ranges@[k].0.offset + program_address.offset <= usize::MAX
            },
        match r {
            Ok(out) => {
                &&& out@.len() == ranges@.len()
                &&& forall|k: int|
                    0 <= k < out@.len() ==> {
                        &&& (#[trigger] out@[k]).0.segment_index == ranges@[k].0.segment_index
                            + program_address.segment_index
                        &&& out@[k].0.offset == ranges@[k].0.offset + program_address.offset
                        &&& out@[k].1 == ranges@[k].1
                    }
            },
            Err(_) => true,
        },
{
    let mut out: Vec<(Relocatable, (usize, usize))> = Vec::new();
    let mut k: usize = 0;
    while k < ranges.len()
        invariant
            k <= ranges@.len(),
            out@.len() == k,
            forall|j: int|
                0 <= j < k ==> {
                    &&& isize::MIN <= (#[trigger] ranges@[j]).0.segment_index
                        + program_address.segment_index <= isize::MAX
                    &&& ranges@[j].0.offset + program_address.offset <= usize::MAX
                },
            forall|j: int|
                0 <= j < k ==> {
                    &&& (#[trigger] out@[j]).0.segment_index == ranges@[j].0.segment_index
                        + program_address.segment_index
                    &&& out@[j].0.offset == ranges@[j].0.offset + program_address.offset
                    &&& out@[j].1 == ranges@[j].1
                },
        decreases ranges@.len() - k,
    {
        let (pc, span) = ranges[k];
        let new_pc = match rebase_hint_pc(pc, program_address) {
            Some(a) => a,
            None => {
                return Err(ExecuteTaskError::Memory(MemoryError::OffsetOverflow));
            },
        };
        out.push((new_pc, span));
        k = k + 1;
    }
    Ok(out)
}

/// Identity for unused capabilities: the return cell of every slot outside
/// the declared list is exactly the pre-execution cell.
pub proof fn lemma_unused_slot_identity(
    m: Memory,
    used: Seq<BuiltinName>,
    used_addr: Relocatable,
    pre: Relocatable,
    i: int,
)
    requires
        0 <= i < n_builtin_slots(),
        !used.contains(all_builtins_spec()[i]),
    ensures
        threaded_cell(m, used, used_addr, pre, i) == m.cell(pre.plus(i)),
{
}

/// Round-trip consistency with a serialized artifact: when threading
/// succeeds for a slot the task declares, the threaded pointer's advance
/// over the pre-execution pointer equals the artifact's recorded usage
/// size for that capability.
pub proof fn lemma_used_slot_matches_artifact(
    m: Memory,
    ret: Relocatable,
    used: Seq<BuiltinName>,
    used_addr: Relocatable,
    pre: Relocatable,
    meta: CairoPieMetadata,
    i: int,
)
    requires
        0 <= i < n_builtin_slots(),
        used.contains(all_builtins_spec()[i]),
        slot_ok(m, ret, used, used_addr, pre, Some(meta), i),
    ensures
        threaded_cell(m, used, used_addr, pre, i) matches Some(MaybeRelocatable::Addr(v))
            && m.cell(pre.plus(i)) matches Some(MaybeRelocatable::Addr(p))
            && v.segment_index == p.segment_index && v.offset >= p.offset && usage_of(
            meta.builtin_segments@,
            all_builtins_spec()[i],
        ) == Some((v.offset - p.offset) as usize),
{
}

} // verus!
