//! Model of a serialized-execution artifact: a previously executed task's
//! program descriptor, recorded memory segments and per-capability usage
//! sizes, replayable by copying its cells with address rebasing.

use vstd::prelude::*;

use crate::builtins::BuiltinName;
use crate::memory::{MaybeRelocatable, Memory, MemoryError, Relocatable};
use crate::program::StrippedProgram;

verus! {

/// A recorded segment: its index in the artifact's own address space and
/// its size in cells.
#[derive(Clone, Copy, PartialEq, Eq, Structural, Debug)]
pub struct SegmentInfo {
    pub index: isize,
    pub size: usize,
}

/// A capability the artifact used, with its recorded segment.
#[derive(Clone, Copy, PartialEq, Eq, Structural, Debug)]
pub struct BuiltinSegment {
    pub builtin: BuiltinName,
    pub segment: SegmentInfo,
}

/// The artifact's structural metadata.
#[derive(Clone, PartialEq, Debug)]
pub struct CairoPieMetadata {
    pub program: StrippedProgram,
    pub program_segment: SegmentInfo,
    pub execution_segment: SegmentInfo,
    pub ret_fp_segment: SegmentInfo,
    pub ret_pc_segment: SegmentInfo,
    pub builtin_segments: Vec<BuiltinSegment>,
    pub extra_segments: Vec<SegmentInfo>,
}

/// A serialized-execution artifact: metadata plus the recorded memory as
/// address/value pairs in the artifact's own address space.
#[derive(Clone, PartialEq, Debug)]
pub struct CairoPie {
    pub metadata: CairoPieMetadata,
    pub memory: Vec<(Relocatable, MaybeRelocatable)>,
}

/// The recorded usage size of capability `b`: the size of the first
/// recorded segment for `b`, if one exists.
pub open spec fn usage_of(s: Seq<BuiltinSegment>, b: BuiltinName) -> Option<usize>
    decreases s.len(),
{
    if s.len() == 0 {
        None
    } else if s[0].builtin == b {
        Some(s[0].segment.size)
    } else {
        usage_of(s.drop_first(), b)
    }
}

impl CairoPieMetadata {
    /// Looks up the recorded usage size of capability `b`.
    pub fn builtin_usage(&self, b: BuiltinName) -> (r: Option<usize>)
        ensures
            r == usage_of(self.builtin_segments@, b),
    {
        let s = &self.builtin_segments;
        proof {
            assert(s@.subrange(0, s@.len() as int) =~= s@);
        }
        let mut i: usize = 0;
        while i < s.len()
            invariant
                s@ == self.builtin_segments@,
                i <= s@.len(),
                usage_of(s@, b) == usage_of(s@.subrange(i as int, s@.len() as int), b),
            decreases s@.len() - i,
        {
            let ghost pre = s@.subrange(i as int, s@.len() as int);
            if s[i].builtin == b {
                proof {
                    assert(pre.len() > 0);
                    assert(pre[0] == s@[i as int]);
                    assert(usage_of(pre, b) == Some(pre[0].segment.size));
                }
                return Some(s[i].segment.size);
            }
            i = i + 1;
            proof {
                assert(pre.drop_first() =~= s@.subrange(i as int, s@.len() as int));
            }
        }
        proof {
            assert(s@.subrange(i as int, s@.len() as int) =~= Seq::<BuiltinSegment>::empty());
        }
        None
    }
}

/// Why a serialized artifact could not be placed.
#[derive(Clone, Copy, PartialEq, Eq, Structural, Debug)]
pub enum PieLoadError {
    /// A memory write was refused.
    Memory(MemoryError),
    /// Two recorded segments carry the same index.
    DuplicateSegment(isize),
    /// A recorded cell or cell value names a segment the artifact does not
    /// declare.
    UnknownSegment(isize),
    /// A recorded cell lies at or beyond its segment's declared size.
    SizeMismatch(isize),
    /// A recorded cell lies in a return-pointer placeholder segment.
    RetSegmentData(isize),
    /// Rebased address arithmetic overflowed.
    OffsetOverflow,
}

/// The target base address recorded for original segment `idx`.
pub open spec fn map_lookup(m: Seq<(isize, Relocatable)>, idx: isize) -> Option<Relocatable>
    decreases m.len(),
{
    if m.len() == 0 {
        None
    } else if m[0].0 == idx {
        Some(m[0].1)
    } else {
        map_lookup(m.drop_first(), idx)
    }
}

/// No two entries rebase the same original segment.
pub open spec fn keys_distinct(m: Seq<(isize, Relocatable)>) -> bool {
    forall|i: int, j: int|
        #![trigger m[i].0, m[j].0]
        0 <= i < j < m.len() ==> m[i].0 != m[j].0
}

/// A successful lookup comes from some entry.
proof fn lemma_map_lookup_index(m: Seq<(isize, Relocatable)>, idx: isize)
    requires
        map_lookup(m, idx) is Some,
    ensures
        exists|p: int|
            0 <= p < m.len() && #[trigger] m[p].0 == idx && m[p].1 == map_lookup(m, idx).unwrap(),
    decreases m.len(),
{
    if m.len() > 0 && m[0].0 != idx {
        lemma_map_lookup_index(m.drop_first(), idx);
        let p = choose|p: int|
            0 <= p < m.drop_first().len() && #[trigger] m.drop_first()[p].0 == idx
                && m.drop_first()[p].1 == map_lookup(m.drop_first(), idx).unwrap();
        assert(m[p + 1] == m.drop_first()[p]);
    }
}

/// Any present key is found.
proof fn lemma_map_lookup_some_of_entry(m: Seq<(isize, Relocatable)>, p: int)
    requires
        0 <= p < m.len(),
    ensures
        map_lookup(m, m[p].0) is Some,
    decreases m.len(),
{
    if p > 0 && m[0].0 != m[p].0 {
        assert(m.drop_first()[p - 1] == m[p]);
        lemma_map_lookup_some_of_entry(m.drop_first(), p - 1);
    }
}

/// Appending a fresh key keeps the keys distinct.
proof fn lemma_push_keeps_distinct(m: Seq<(isize, Relocatable)>, e: (isize, Relocatable))
    requires
        keys_distinct(m),
        map_lookup(m, e.0) is None,
    ensures
        keys_distinct(m.push(e)),
{
    let m2 = m.push(e);
    assert forall|i: int, j: int|
        #![trigger m2[i].0, m2[j].0]
        0 <= i < j < m2.len() implies m2[i].0 != m2[j].0 by {
        if j == m.len() {
            assert(m2[i] == m[i]);
            if m[i].0 == e.0 {
                lemma_map_lookup_some_of_entry(m, i);
            }
        } else {
            assert(m2[i] == m[i]);
            assert(m2[j] == m[j]);
        }
    }
}

/// Looks up the target base recorded for original segment `idx`.
fn lookup_segment(m: &Vec<(isize, Relocatable)>, idx: isize) -> (r: Option<Relocatable>)
    ensures
        r == map_lookup(m@, idx),
{
    proof {
        assert(m@.subrange(0, m@.len() as int) =~= m@);
    }
    let mut i: usize = 0;
    while i < m.len()
        invariant
            i <= m@.len(),
            map_lookup(m@, idx) == map_lookup(m@.subrange(i as int, m@.len() as int), idx),
        decreases m@.len() - i,
    {
        let ghost pre = m@.subrange(i as int, m@.len() as int);
        if m[i].0 == idx {
            proof {
                assert(pre[0] == m@[i as int]);
            }
            return Some(m[i].1);
        }
        i = i + 1;
        proof {
            assert(pre.drop_first() =~= m@.subrange(i as int, m@.len() as int));
        }
    }
    proof {
        assert(m@.subrange(i as int, m@.len() as int) =~= Seq::<(isize, Relocatable)>::empty());
    }
    None
}

/// The declared size of original segment `idx` among the data segments.
pub open spec fn size_lookup(s: Seq<SegmentInfo>, idx: isize) -> Option<usize>
    decreases s.len(),
{
    if s.len() == 0 {
        None
    } else if s[0].index == idx {
        Some(s[0].size)
    } else {
        size_lookup(s.drop_first(), idx)
    }
}

/// The artifact's data segments, in canonical order: program, execution,
/// the used capabilities' segments, then the extra segments. The two
/// return-pointer placeholder segments hold no data.
pub open spec fn data_segments(meta: CairoPieMetadata) -> Seq<SegmentInfo> {
    seq![meta.program_segment, meta.execution_segment] + meta.builtin_segments@.map_values(
        |b: BuiltinSegment| b.segment,
    ) + meta.extra_segments@
}

impl CairoPieMetadata {
    /// The data segments as a vector, in canonical order.
    pub fn data_segment_vec(&self) -> (r: Vec<SegmentInfo>)
        ensures
            r@ == data_segments(*self),
    {
        let mut r: Vec<SegmentInfo> = Vec::new();
        r.push(self.program_segment);
        r.push(self.execution_segment);
        let mut i: usize = 0;
        while i < self.builtin_segments.len()
            invariant
                i <= self.builtin_segments@.len(),
                r@.len() == 2 + i,
                r@[0] == self.program_segment,
                r@[1] == self.execution_segment,
                forall|k: int|
                    0 <= k < i ==> r@[2 + k] == #[trigger] self.builtin_segments@[k].segment,
            decreases self.builtin_segments@.len() - i,
        {
            r.push(self.builtin_segments[i].segment);
            i = i + 1;
        }
        let ghost nb = self.builtin_segments@.len() as int;
        let mut i: usize = 0;
        while i < self.extra_segments.len()
            invariant
                nb == self.builtin_segments@.len(),
                i <= self.extra_segments@.len(),
                r@.len() == 2 + nb + i,
                r@[0] == self.program_segment,
                r@[1] == self.execution_segment,
                forall|k: int|
                    0 <= k < nb ==> r@[2 + k] == #[trigger] self.builtin_segments@[k].segment,
                forall|k: int| 0 <= k < i ==> r@[2 + nb + k] == #[trigger] self.extra_segments@[k],
            decreases self.extra_segments@.len() - i,
        {
            r.push(self.extra_segments[i]);
            i = i + 1;
        }
        proof {
            assert(r@ =~= data_segments(*self));
        }
        r
    }
}

/// Looks up a declared data-segment size.
fn lookup_size(s: &Vec<SegmentInfo>, idx: isize) -> (r: Option<usize>)
    ensures
        r == size_lookup(s@, idx),
{
    proof {
        assert(s@.subrange(0, s@.len() as int) =~= s@);
    }
    let mut i: usize = 0;
    while i < s.len()
        invariant
            i <= s@.len(),
            size_lookup(s@, idx) == size_lookup(s@.subrange(i as int, s@.len() as int), idx),
        decreases s@.len() - i,
    {
        let ghost pre = s@.subrange(i as int, s@.len() as int);
        if s[i].index == idx {
            proof {
                assert(pre[0] == s@[i as int]);
            }
            return Some(s[i].size);
        }
        i = i + 1;
        proof {
            assert(pre.drop_first() =~= s@.subrange(i as int, s@.len() as int));
        }
    }
    proof {
        assert(s@.subrange(i as int, s@.len() as int) =~= Seq::<SegmentInfo>::empty());
    }
    None
}

/// The rebase map a load builds: program and execution segments go to the
/// supplied addresses, each used capability's segment and each extra
/// segment to a fresh segment (numbered from `n0` on, capabilities first),
/// and the return-pointer placeholder segments to the supplied return
/// frame pointer and return address.
pub open spec fn pie_map_spec(
    meta: CairoPieMetadata,
    pa: Relocatable,
    ea: Relocatable,
    fp: Relocatable,
    pc: Relocatable,
    n0: int,
) -> Seq<(isize, Relocatable)> {
    seq![(meta.program_segment.index, pa), (meta.execution_segment.index, ea)] + Seq::new(
        meta.builtin_segments@.len(),
        |k: int|
            (
                meta.builtin_segments@[k].segment.index,
                Relocatable { segment_index: (n0 + k) as isize, offset: 0 },
            ),
    ) + Seq::new(
        meta.extra_segments@.len(),
        |k: int|
            (
                meta.extra_segments@[k].index,
                Relocatable {
                    segment_index: (n0 + meta.builtin_segments@.len() + k) as isize,
                    offset: 0,
                },
            ),
    ) + seq![(meta.ret_fp_segment.index, fp), (meta.ret_pc_segment.index, pc)]
}

/// An original address, moved by its segment's rebase offset.
pub open spec fn rebase_addr(m: Seq<(isize, Relocatable)>, a: Relocatable) -> Option<Relocatable> {
    match map_lookup(m, a.segment_index) {
        Some(b) => if b.offset + a.offset <= usize::MAX {
            Some(b.plus(a.offset as int))
        } else {
            None
        },
        None => None,
    }
}

/// A cell value with any address it holds rebased; plain values are kept.
pub open spec fn rebase_value(m: Seq<(isize, Relocatable)>, v: MaybeRelocatable) -> Option<
    MaybeRelocatable,
> {
    match v {
        MaybeRelocatable::Int(f) => Some(MaybeRelocatable::Int(f)),
        MaybeRelocatable::Addr(a) => match rebase_addr(m, a) {
            Some(b) => Some(MaybeRelocatable::Addr(b)),
            None => None,
        },
    }
}

/// Whether one recorded cell can be placed: it lies in a declared data
/// segment within that segment's size, its rebased address and value are
/// defined, and the target cell (of a pre-existing segment) accepts the
/// value.
pub open spec fn cell_loadable(
    m0: Memory,
    meta: CairoPieMetadata,
    m: Seq<(isize, Relocatable)>,
    key: Relocatable,
    val: MaybeRelocatable,
) -> bool {
    &&& key.segment_index != meta.ret_fp_segment.index
    &&& key.segment_index != meta.ret_pc_segment.index
    &&& size_lookup(data_segments(meta), key.segment_index) matches Some(sz) && key.offset < sz
    &&& rebase_addr(m, key) is Some
    &&& rebase_value(m, val) is Some
    &&& {
        let t = rebase_addr(m, key).unwrap();
        t.segment_index >= m0.n_segments() || m0.writable(t, rebase_value(m, val).unwrap())
    }
}

/// Whether a whole artifact can be placed on `m0`.
pub open spec fn can_load_pie(
    m0: Memory,
    pie: CairoPie,
    pa: Relocatable,
    ea: Relocatable,
    fp: Relocatable,
    pc: Relocatable,
) -> bool {
    let m = pie_map_spec(pie.metadata, pa, ea, fp, pc, m0.n_segments());
    &&& keys_distinct(m)
    &&& forall|j: int|
        0 <= j < pie.memory@.len() ==> cell_loadable(
            m0,
            pie.metadata,
            m,
            (#[trigger] pie.memory@[j]).0,
            pie.memory@[j].1,
        )
}

/// The recorded memory carries each address at most once.
pub open spec fn memory_keys_distinct(pie: CairoPie) -> bool {
    forall|i: int, j: int|
        #![trigger pie.memory@[i], pie.memory@[j]]
        0 <= i < j < pie.memory@.len() ==> pie.memory@[i].0 != pie.memory@[j].0
}

/// Rebasing is a bijection on the data segments: two distinct original
/// data segments never map to the same new segment.
pub proof fn lemma_rebase_injective_on_segments(
    meta: CairoPieMetadata,
    pa: Relocatable,
    ea: Relocatable,
    fp: Relocatable,
    pc: Relocatable,
    n0: int,
    s1: isize,
    s2: isize,
)
    requires
        pa.segment_index != ea.segment_index,
        0 <= pa.segment_index < n0,
        0 <= ea.segment_index < n0,
        n0 + meta.builtin_segments@.len() + meta.extra_segments@.len() <= 0x8000,
        keys_distinct(pie_map_spec(meta, pa, ea, fp, pc, n0)),
        s1 != s2,
        s1 != meta.ret_fp_segment.index && s1 != meta.ret_pc_segment.index,
        s2 != meta.ret_fp_segment.index && s2 != meta.ret_pc_segment.index,
        map_lookup(pie_map_spec(meta, pa, ea, fp, pc, n0), s1) is Some,
        map_lookup(pie_map_spec(meta, pa, ea, fp, pc, n0), s2) is Some,
    ensures
        map_lookup(pie_map_spec(meta, pa, ea, fp, pc, n0), s1).unwrap().segment_index
            != map_lookup(pie_map_spec(meta, pa, ea, fp, pc, n0), s2).unwrap().segment_index,
{
    let m = pie_map_spec(meta, pa, ea, fp, pc, n0);
    let nb = meta.builtin_segments@.len() as int;
    let ne = meta.extra_segments@.len() as int;
    lemma_map_lookup_index(m, s1);
    lemma_map_lookup_index(m, s2);
    let p1 = choose|p: int|
        0 <= p < m.len() && #[trigger] m[p].0 == s1 && m[p].1 == map_lookup(m, s1).unwrap();
    let p2 = choose|p: int|
        0 <= p < m.len() && #[trigger] m[p].0 == s2 && m[p].1 == map_lookup(m, s2).unwrap();
    assert(m.len() == 4 + nb + ne);
    assert(m[2 + nb + ne].0 == meta.ret_fp_segment.index);
    assert(m[3 + nb + ne].0 == meta.ret_pc_segment.index);
    assert(p1 < 2 + nb + ne);
    assert(p2 < 2 + nb + ne);
    assert(p1 != p2);
    assert(seg_of_data_position(m, pa, ea, n0, nb, p1) == m[p1].1.segment_index);
    assert(seg_of_data_position(m, pa, ea, n0, nb, p2) == m[p2].1.segment_index);
}

/// Places a serialized artifact into memory.
///
/// Every recorded cell is copied to its rebased address with any
/// address-valued content rebased by the same map; the artifact's program
/// and execution segments land at the supplied addresses, its capability
/// and extra segments in fresh segments, and cells pointing into the
/// return-pointer placeholder segments are wired to the supplied return
/// frame pointer and return address. Returns the rebase map.
#[verifier::rlimit(60)]
pub fn load_cairo_pie(
    pie: &CairoPie,
    mem: &mut Memory,
    program_address: Relocatable,
    execution_segment_address: Relocatable,
    ret_fp: Relocatable,
    ret_pc: Relocatable,
) -> (r: Result<Vec<(isize, Relocatable)>, PieLoadError>)
    requires
        0 <= program_address.segment_index < old(mem).n_segments(),
        0 <= execution_segment_address.segment_index < old(mem).n_segments(),
        program_address.segment_index != execution_segment_address.segment_index,
        old(mem).n_segments() + pie.metadata.builtin_segments@.len()
            + pie.metadata.extra_segments@.len() <= 0x8000,
        memory_keys_distinct(*pie),
    ensures
        final(mem).n_temp_segments() == old(mem).n_temp_segments(),
        forall|i: int| final(mem).finalized_size(i) == old(mem).finalized_size(i),
        old(mem).n_segments() <= final(mem).n_segments() <= old(mem).n_segments()
            + pie.metadata.builtin_segments@.len() + pie.metadata.extra_segments@.len(),
        forall|b: Relocatable|
            b.segment_index != program_address.segment_index && b.segment_index
                != execution_segment_address.segment_index && b.segment_index < old(
                mem,
            ).n_segments() ==> final(mem).cell(b) == old(mem).cell(b),
        match r {
            Ok(map) => {
                &&& can_load_pie(
                    *old(mem),
                    *pie,
                    program_address,
                    execution_segment_address,
                    ret_fp,
                    ret_pc,
                )
                &&& map@ == pie_map_spec(
                    pie.metadata,
                    program_address,
                    execution_segment_address,
                    ret_fp,
                    ret_pc,
                    old(mem).n_segments(),
                )
                &&& final(mem).n_segments() == old(mem).n_segments()
                    + pie.metadata.builtin_segments@.len() + pie.metadata.extra_segments@.len()
                &&& forall|j: int|
                    0 <= j < pie.memory@.len() ==> final(mem).cell(
                        rebase_addr(map@, (#[trigger] pie.memory@[j]).0).unwrap(),
                    ) == Some(rebase_value(map@, pie.memory@[j].1).unwrap())
            },
            Err(_) => !can_load_pie(
                *old(mem),
                *pie,
                program_address,
                execution_segment_address,
                ret_fp,
                ret_pc,
            ),
        },
{
    let ghost m0 = *old(mem);
    let pa = program_address;
    let ea = execution_segment_address;
    let ghost mspec = pie_map_spec(pie.metadata, pa, ea, ret_fp, ret_pc, m0.n_segments());
    let ghost nb = pie.metadata.builtin_segments@.len() as int;
    let ghost ne = pie.metadata.extra_segments@.len() as int;

    let mut map: Vec<(isize, Relocatable)> = Vec::new();
    map.push((pie.metadata.program_segment.index, pa));
    proof {
        assert(map@ =~= mspec.subrange(0, 1));
    }
    if lookup_segment(&map, pie.metadata.execution_segment.index).is_some() {
        proof {
            let idx = pie.metadata.execution_segment.index;
            lemma_map_lookup_index(map@, idx);
            let p = choose|p: int|
                0 <= p < map@.len() && #[trigger] map@[p].0 == idx && map@[p].1 == map_lookup(
                    map@,
                    idx,
                ).unwrap();
            assert(mspec[p].0 == idx);
            assert(mspec[1].0 == idx);
            assert(!keys_distinct(mspec));
        }
        return Err(PieLoadError::DuplicateSegment(pie.metadata.execution_segment.index));
    }
    proof {
        lemma_push_keeps_distinct(map@, (pie.metadata.execution_segment.index, ea));
    }
    map.push((pie.metadata.execution_segment.index, ea));
    proof {
        assert(map@ =~= mspec.subrange(0, 2));
    }
    let mut i: usize = 0;
    while i < pie.metadata.builtin_segments.len()
        invariant
            m0 == *old(mem),
            pa == program_address,
            ea == execution_segment_address,
            mspec == pie_map_spec(pie.metadata, pa, ea, ret_fp, ret_pc, m0.n_segments()),
            nb == pie.metadata.builtin_segments@.len(),
            ne == pie.metadata.extra_segments@.len(),
            m0.n_segments() + nb + ne <= 0x8000,
            i <= nb,
            map@ == mspec.subrange(0, 2 + i),
            keys_distinct(map@),
            mem.n_segments() == m0.n_segments() + i,
            mem.n_temp_segments() == m0.n_temp_segments(),
            forall|a: Relocatable| mem.cell(a) == m0.cell(a),
            forall|q: int| mem.finalized_size(q) == m0.finalized_size(q),
        decreases nb - i,
    {
        let idx = pie.metadata.builtin_segments[i].segment.index;
        proof {
            assert(mspec[2 + i] == (
                idx,
                Relocatable { segment_index: (m0.n_segments() + i) as isize, offset: 0 },
            ));
        }
        if lookup_segment(&map, idx).is_some() {
            proof {
                lemma_map_lookup_index(map@, idx);
                let p = choose|p: int|
                    0 <= p < map@.len() && #[trigger] map@[p].0 == idx && map@[p].1 == map_lookup(
                        map@,
                        idx,
                    ).unwrap();
                assert(mspec[p].0 == idx);
                assert(mspec[2 + i].0 == idx);
                assert(!keys_distinct(mspec));
            }
            return Err(PieLoadError::DuplicateSegment(idx));
        }
        let base = mem.add_segment();
        proof {
            lemma_push_keeps_distinct(map@, (idx, base));
        }
        map.push((idx, base));
        proof {
            assert(map@ =~= mspec.subrange(0, 2 + i + 1));
        }
        i = i + 1;
    }
    let mut i: usize = 0;
    while i < pie.metadata.extra_segments.len()
        invariant
            m0 == *old(mem),
            pa == program_address,
            ea == execution_segment_address,
            mspec == pie_map_spec(pie.metadata, pa, ea, ret_fp, ret_pc, m0.n_segments()),
            nb == pie.metadata.builtin_segments@.len(),
            ne == pie.metadata.extra_segments@.len(),
            m0.n_segments() + nb + ne <= 0x8000,
            i <= ne,
            map@ == mspec.subrange(0, 2 + nb + i),
            keys_distinct(map@),
            mem.n_segments() == m0.n_segments() + nb + i,
            mem.n_temp_segments() == m0.n_temp_segments(),
            forall|a: Relocatable| mem.cell(a) == m0.cell(a),
            forall|q: int| mem.finalized_size(q) == m0.finalized_size(q),
        decreases ne - i,
    {
        let idx = pie.metadata.extra_segments[i].index;
        proof {
            assert(mspec[2 + nb + i] == (
                idx,
                Relocatable { segment_index: (m0.n_segments() + nb + i) as isize, offset: 0 },
            ));
        }
        if lookup_segment(&map, idx).is_some() {
            proof {
                lemma_map_lookup_index(map@, idx);
                let p = choose|p: int|
                    0 <= p < map@.len() && #[trigger] map@[p].0 == idx && map@[p].1 == map_lookup(
                        map@,
                        idx,
                    ).unwrap();
                assert(mspec[p].0 == idx);
                assert(mspec[2 + nb + i].0 == idx);
                assert(!keys_distinct(mspec));
            }
            return Err(PieLoadError::DuplicateSegment(idx));
        }
        let base = mem.add_segment();
        proof {
            lemma_push_keeps_distinct(map@, (idx, base));
        }
        map.push((idx, base));
        proof {
            assert(map@ =~= mspec.subrange(0, 2 + nb + i + 1));
        }
        i = i + 1;
    }
    if lookup_segment(&map, pie.metadata.ret_fp_segment.index).is_some() {
        proof {
            let idx = pie.metadata.ret_fp_segment.index;
            lemma_map_lookup_index(map@, idx);
            let p = choose|p: int|
                0 <= p < map@.len() && #[trigger] map@[p].0 == idx && map@[p].1 == map_lookup(
                    map@,
                    idx,
                ).unwrap();
            assert(mspec[p].0 == idx);
            assert(mspec[2 + nb + ne].0 == idx);
            assert(!keys_distinct(mspec));
        }
        return Err(PieLoadError::DuplicateSegment(pie.metadata.ret_fp_segment.index));
    }
    proof {
        lemma_push_keeps_distinct(map@, (pie.metadata.ret_fp_segment.index, ret_fp));
        assert(mspec[2 + nb + ne] == (pie.metadata.ret_fp_segment.index, ret_fp));
    }
    map.push((pie.metadata.ret_fp_segment.index, ret_fp));
    proof {
        assert(map@ =~= mspec.subrange(0, 3 + nb + ne));
    }
    if lookup_segment(&map, pie.metadata.ret_pc_segment.index).is_some() {
        proof {
            let idx = pie.metadata.ret_pc_segment.index;
            lemma_map_lookup_index(map@, idx);
            let p = choose|p: int|
                0 <= p < map@.len() && #[trigger] map@[p].0 == idx && map@[p].1 == map_lookup(
                    map@,
                    idx,
                ).unwrap();
            assert(mspec[p].0 == idx);
            assert(mspec[3 + nb + ne].0 == idx);
            assert(!keys_distinct(mspec));
        }
        return Err(PieLoadError::DuplicateSegment(pie.metadata.ret_pc_segment.index));
    }
    proof {
        lemma_push_keeps_distinct(map@, (pie.metadata.ret_pc_segment.index, ret_pc));
        assert(mspec[3 + nb + ne] == (pie.metadata.ret_pc_segment.index, ret_pc));
    }
    map.push((pie.metadata.ret_pc_segment.index, ret_pc));
    proof {
        assert(map@ =~= mspec);
        assert(keys_distinct(mspec));
    }

    let sizes = pie.metadata.data_segment_vec();
    let ghost m_alloc = *mem;
    let total = pie.memory.len();
    let mut j: usize = 0;
    while j < total
        invariant
            m0 == *old(mem),
            pa == program_address,
            ea == execution_segment_address,
            mspec == pie_map_spec(pie.metadata, pa, ea, ret_fp, ret_pc, m0.n_segments()),
            nb == pie.metadata.builtin_segments@.len(),
            ne == pie.metadata.extra_segments@.len(),
            m0.n_segments() + nb + ne <= 0x8000,
            0 <= pa.segment_index < m0.n_segments(),
            0 <= ea.segment_index < m0.n_segments(),
            pa.segment_index != ea.segment_index,
            memory_keys_distinct(*pie),
            total == pie.memory@.len(),
            j <= total,
            map@ == mspec,
            keys_distinct(mspec),
            sizes@ == data_segments(pie.metadata),
            m_alloc.n_segments() == m0.n_segments() + nb + ne,
            m_alloc.n_temp_segments() == m0.n_temp_segments(),
            forall|a: Relocatable| m_alloc.cell(a) == m0.cell(a),
            forall|q: int| m_alloc.finalized_size(q) == m0.finalized_size(q),
            mem.n_segments() == m_alloc.n_segments(),
            mem.n_temp_segments() == m_alloc.n_temp_segments(),
            forall|q: int| mem.finalized_size(q) == m_alloc.finalized_size(q),
            forall|b: Relocatable|
                mem.cell(b) == m_alloc.cell(b) || exists|i2: int|
                    0 <= i2 < j && rebase_addr(mspec, (#[trigger] pie.memory@[i2]).0) == Some(b),
            forall|b: Relocatable|
                b.segment_index != pa.segment_index && b.segment_index != ea.segment_index
                    && b.segment_index < m0.n_segments() ==> mem.cell(b) == m0.cell(b),
            forall|i2: int|
                0 <= i2 < j ==> cell_loadable(
                    m0,
                    pie.metadata,
                    mspec,
                    (#[trigger] pie.memory@[i2]).0,
                    pie.memory@[i2].1,
                ),
            forall|i2: int|
                0 <= i2 < j ==> mem.cell(
                    rebase_addr(mspec, (#[trigger] pie.memory@[i2]).0).unwrap(),
                ) == Some(rebase_value(mspec, pie.memory@[i2].1).unwrap()),
        decreases total - j,
    {
        let (key, val) = pie.memory[j];
        let ghost ji = j as int;
        if key.segment_index == pie.metadata.ret_fp_segment.index || key.segment_index
            == pie.metadata.ret_pc_segment.index {
            proof {
                assert(!cell_loadable(m0, pie.metadata, mspec, key, val));
            }
            return Err(PieLoadError::RetSegmentData(key.segment_index));
        }
        let sz = match lookup_size(&sizes, key.segment_index) {
            Some(s) => s,
            None => {
                proof {
                    assert(!cell_loadable(m0, pie.metadata, mspec, key, val));
                }
                return Err(PieLoadError::UnknownSegment(key.segment_index));
            },
        };
        if key.offset >= sz {
            proof {
                assert(!cell_loadable(m0, pie.metadata, mspec, key, val));
            }
            return Err(PieLoadError::SizeMismatch(key.segment_index));
        }
        let base = match lookup_segment(&map, key.segment_index) {
            Some(b) => b,
            None => {
                proof {
                    assert(!cell_loadable(m0, pie.metadata, mspec, key, val));
                }
                return Err(PieLoadError::UnknownSegment(key.segment_index));
            },
        };
        let t = match base.add(key.offset) {
            Some(t) => t,
            None => {
                proof {
                    assert(!cell_loadable(m0, pie.metadata, mspec, key, val));
                }
                return Err(PieLoadError::OffsetOverflow);
            },
        };
        proof {
            assert(rebase_addr(mspec, key) == Some(t));
        }
        let rv = match val {
            MaybeRelocatable::Int(f) => MaybeRelocatable::Int(f),
            MaybeRelocatable::Addr(a) => {
                let vb = match lookup_segment(&map, a.segment_index) {
                    Some(b) => b,
                    None => {
                        proof {
                            assert(!cell_loadable(m0, pie.metadata, mspec, key, val));
                        }
                        return Err(PieLoadError::UnknownSegment(a.segment_index));
                    },
                };
                let va = match vb.add(a.offset) {
                    Some(x) => x,
                    None => {
                        proof {
                            assert(!cell_loadable(m0, pie.metadata, mspec, key, val));
                        }
                        return Err(PieLoadError::OffsetOverflow);
                    },
                };
                MaybeRelocatable::Addr(va)
            },
        };
        proof {
            assert(rebase_value(mspec, val) == Some(rv));
            lemma_map_lookup_index(mspec, key.segment_index);
            let p = choose|p: int|
                0 <= p < mspec.len() && #[trigger] mspec[p].0 == key.segment_index && mspec[p].1
                    == map_lookup(mspec, key.segment_index).unwrap();
            assert(mspec[2 + nb + ne].0 == pie.metadata.ret_fp_segment.index);
            assert(mspec[3 + nb + ne].0 == pie.metadata.ret_pc_segment.index);
            assert(p < 2 + nb + ne);
            if p >= 2 {
                assert(mspec[p].1.segment_index == m0.n_segments() + (p - 2));
            }
            assert(t.segment_index == pa.segment_index || t.segment_index == ea.segment_index
                || t.segment_index >= m0.n_segments());
            assert forall|i2: int| 0 <= i2 < ji implies rebase_addr(
                mspec,
                (#[trigger] pie.memory@[i2]).0,
            ) != Some(t) by {
                let key2 = pie.memory@[i2].0;
                assert(key2 != key);
                if key2.segment_index == key.segment_index {
                    assert(key2.offset != key.offset);
                } else {
                    lemma_rebase_injective_on_segments(
                        pie.metadata,
                        pa,
                        ea,
                        ret_fp,
                        ret_pc,
                        m0.n_segments(),
                        key2.segment_index,
                        key.segment_index,
                    );
                }
            }
            assert(mem.cell(t) == m_alloc.cell(t));
        }
        let ghost mem_before = *mem;
        match mem.insert(t, rv) {
            Ok(()) => {
                proof {
                    assert(cell_loadable(m0, pie.metadata, mspec, key, val)) by {
                        if t.segment_index < m0.n_segments() {
                            assert(mem_before.cell(t) == m0.cell(t));
                            assert(m0.writable(t, rv));
                        }
                    }
                }
            },
            Err(e) => {
                proof {
                    assert(!cell_loadable(m0, pie.metadata, mspec, key, val)) by {
                        assert(mem_before.cell(t) == m_alloc.cell(t));
                        if t.segment_index >= m0.n_segments() {
                            assert(t.segment_index < mem_before.n_segments());
                            assert(m_alloc.cell(t) == m0.cell(t));
                            assert(m0.cell(t) is None);
                            assert(mem_before.cell(t) is None);
                            assert(mem_before.finalized_size(t.segment_index as int)
                                == m0.finalized_size(t.segment_index as int));
                            assert(m0.finalized_size(t.segment_index as int) is None);
                            assert(mem_before.writable(t, rv));
                            assert(false);
                        } else {
                            assert(!m0.writable(t, rv));
                        }
                    }
                }
                return Err(PieLoadError::Memory(e));
            },
        }
        proof {
            assert forall|i2: int| 0 <= i2 < ji + 1 implies mem.cell(
                rebase_addr(mspec, (#[trigger] pie.memory@[i2]).0).unwrap(),
            ) == Some(rebase_value(mspec, pie.memory@[i2].1).unwrap()) by {
                if i2 < ji {
                    let t2 = rebase_addr(mspec, pie.memory@[i2].0).unwrap();
                    assert(t2 != t);
                    assert(mem.cell(t2) == mem_before.cell(t2));
                }
            }
            assert forall|b: Relocatable|
                b.segment_index != pa.segment_index && b.segment_index != ea.segment_index
                    && b.segment_index < m0.n_segments() implies mem.cell(b) == m0.cell(b) by {
                assert(b != t);
                assert(mem.cell(b) == mem_before.cell(b));
            }
        }
        j = j + 1;
    }
    Ok(map)
}

/// The target segment of a data position of the rebase map.
pub open spec fn seg_of_data_position(
    m: Seq<(isize, Relocatable)>,
    pa: Relocatable,
    ea: Relocatable,
    n0: int,
    nb: int,
    p: int,
) -> int {
    if p == 0 {
        pa.segment_index as int
    } else if p == 1 {
        ea.segment_index as int
    } else {
        n0 + (p - 2)
    }
}

} // verus!
