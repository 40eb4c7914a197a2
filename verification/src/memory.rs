//! Model of the host machine's segmented memory.
//!
//! Memory is a growable list of segments; each cell holds either a field
//! element or an address, is written at most once, and a segment can be
//! finalized to a fixed size after which no cell at or beyond that size may
//! be written. Temporary segments carry negative indices and no storage:
//! the engine only hands their addresses out.

use vstd::prelude::*;

use crate::felt::Felt;

verus! {

/// An address in segmented memory: a segment index (negative for temporary
/// segments) and an offset within the segment.
#[derive(Clone, Copy, PartialEq, Eq, Structural, Debug)]
pub struct Relocatable {
    pub segment_index: isize,
    pub offset: usize,
}

impl Relocatable {
    /// The same-segment address `k` cells further on (specification level).
    pub open spec fn plus(self, k: int) -> Relocatable {
        Relocatable { segment_index: self.segment_index, offset: (self.offset + k) as usize }
    }

    /// The address `off` cells further into the same segment, unless the
    /// offset arithmetic overflows.
    pub fn add(self, off: usize) -> (r: Option<Relocatable>)
        ensures
            match r {
                Some(b) => self.offset + off <= usize::MAX && b == (Relocatable {
                    segment_index: self.segment_index,
                    offset: (self.offset + off) as usize,
                }),
                None => self.offset + off > usize::MAX,
            },
    {
        match self.offset.checked_add(off) {
            Some(o) => Some(Relocatable { segment_index: self.segment_index, offset: o }),
            None => None,
        }
    }

    /// The address `off` cells back in the same segment, unless that would
    /// fall below the segment base.
    pub fn sub(self, off: usize) -> (r: Option<Relocatable>)
        ensures
            match r {
                Some(b) => self.offset >= off && b == (Relocatable {
                    segment_index: self.segment_index,
                    offset: (self.offset - off) as usize,
                }),
                None => self.offset < off,
            },
    {
        if self.offset >= off {
            Some(Relocatable { segment_index: self.segment_index, offset: self.offset - off })
        } else {
            None
        }
    }

    /// Distance from `other` up to `self`: defined exactly when both lie in
    /// the same segment and `self` is not below `other`.
    pub fn sub_addr(self, other: Relocatable) -> (r: Option<usize>)
        ensures
            match r {
                Some(d) => self.segment_index == other.segment_index && self.offset
                    >= other.offset && d == self.offset - other.offset,
                None => self.segment_index != other.segment_index || self.offset < other.offset,
            },
    {
        if self.segment_index == other.segment_index && self.offset >= other.offset {
            Some(self.offset - other.offset)
        } else {
            None
        }
    }
}

/// A memory cell value: a field element or an address.
#[derive(Clone, Copy, PartialEq, Eq, Structural, Debug)]
pub enum MaybeRelocatable {
    Int(Felt),
    Addr(Relocatable),
}

/// Why a memory operation was refused.
#[derive(Clone, Copy, PartialEq, Eq, Structural, Debug)]
pub enum MemoryError {
    /// The address names a segment that was never allocated.
    UnallocatedSegment(Relocatable),
    /// The address names a temporary segment, which holds no storage here.
    TemporarySegment(Relocatable),
    /// The write falls at or beyond the finalized size of its segment.
    BeyondFinalizedSize(Relocatable),
    /// The cell was already written with a different value.
    InconsistentWrite(Relocatable),
    /// The cell was never written.
    UnknownCell(Relocatable),
    /// The cell holds an address where an integer was needed.
    ExpectedInteger(Relocatable),
    /// The cell holds an integer where an address was needed.
    ExpectedRelocatable(Relocatable),
    /// Offset arithmetic on an address overflowed.
    OffsetOverflow,
}

pub struct Segment {
    pub cells: Vec<Option<MaybeRelocatable>>,
    pub finalized: Option<usize>,
}

/// The segmented memory model.
pub struct Memory {
    pub segments: Vec<Segment>,
    pub n_temp_segments: usize,
}

impl Memory {
    /// Number of allocated (non-temporary) segments.
    pub open spec fn n_segments(self) -> int {
        self.segments@.len() as int
    }

    /// Number of temporary segments handed out.
    pub open spec fn n_temp_segments(self) -> int {
        self.n_temp_segments as int
    }

    /// The content of the cell at `a`: `None` when the cell was never
    /// written or the address lies outside every allocated segment.
    pub open spec fn cell(self, a: Relocatable) -> Option<MaybeRelocatable> {
        if 0 <= a.segment_index < self.segments@.len() {
            let cells = self.segments@[a.segment_index as int].cells@;
            if a.offset < cells.len() {
                cells[a.offset as int]
            } else {
                None
            }
        } else {
            None
        }
    }

    /// The finalized size of segment `i`, if it was finalized.
    pub open spec fn finalized_size(self, i: int) -> Option<usize> {
        if 0 <= i < self.segments@.len() {
            self.segments@[i].finalized
        } else {
            None
        }
    }

    /// Whether a write of `v` at `a` is accepted: the segment is allocated,
    /// the offset lies below any finalized size, and the cell is unwritten
    /// or already holds the same value.
    pub open spec fn writable(self, a: Relocatable, v: MaybeRelocatable) -> bool {
        &&& 0 <= a.segment_index < self.n_segments()
        &&& match self.finalized_size(a.segment_index as int) {
            Some(size) => a.offset < size,
            None => true,
        }
        &&& (self.cell(a) is None || self.cell(a) == Some(v))
    }

    /// The error a refused write reports, by priority.
    pub open spec fn write_error(self, a: Relocatable, v: MaybeRelocatable) -> MemoryError {
        if a.segment_index < 0 {
            MemoryError::TemporarySegment(a)
        } else if a.segment_index >= self.n_segments() {
            MemoryError::UnallocatedSegment(a)
        } else if self.finalized_size(a.segment_index as int) matches Some(size) && a.offset
            >= size {
            MemoryError::BeyondFinalizedSize(a)
        } else {
            MemoryError::InconsistentWrite(a)
        }
    }

    /// The integer value at `a`, when the cell holds a field element.
    pub open spec fn int_at(self, a: Relocatable) -> Option<int> {
        match self.cell(a) {
            Some(MaybeRelocatable::Int(f)) => Some(f@),
            _ => None,
        }
    }

    /// The address at `a`, when the cell holds one.
    pub open spec fn addr_at(self, a: Relocatable) -> Option<Relocatable> {
        match self.cell(a) {
            Some(MaybeRelocatable::Addr(b)) => Some(b),
            _ => None,
        }
    }

    /// Whether a field element denoting `w` can be written at `a`: the cell
    /// is unwritten or already holds a canonical field element denoting `w`.
    pub open spec fn int_writable(self, a: Relocatable, w: int) -> bool {
        &&& 0 <= a.segment_index < self.n_segments()
        &&& match self.finalized_size(a.segment_index as int) {
            Some(size) => a.offset < size,
            None => true,
        }
        &&& match self.cell(a) {
            None => true,
            Some(MaybeRelocatable::Int(f)) => f@ == w && f.wf(),
            Some(MaybeRelocatable::Addr(_)) => false,
        }
    }

    /// Segment count, temporary-segment count and finalized sizes are as in
    /// `m0`.
    pub open spec fn same_shape(self, m0: Memory) -> bool {
        &&& self.n_segments() == m0.n_segments()
        &&& self.n_temp_segments() == m0.n_temp_segments()
        &&& forall|i: int| self.finalized_size(i) == m0.finalized_size(i)
    }

    /// Everything outside the cells `[start, end)` of segment `seg` is as in
    /// `m0`.
    pub open spec fn unchanged_except_range(self, m0: Memory, seg: int, start: int, end: int) -> bool {
        &&& self.same_shape(m0)
        &&& forall|b: Relocatable|
            b.segment_index != seg || b.offset < start || b.offset >= end ==> self.cell(b)
                == m0.cell(b)
    }

    /// Everything but the cell at `a` is as in `m0`.
    pub open spec fn unchanged_except(self, m0: Memory, a: Relocatable) -> bool {
        &&& self.n_segments() == m0.n_segments()
        &&& self.n_temp_segments() == m0.n_temp_segments()
        &&& forall|i: int| self.finalized_size(i) == m0.finalized_size(i)
        &&& forall|b: Relocatable| b != a ==> self.cell(b) == m0.cell(b)
    }

    /// Number of allocated segments.
    pub fn num_segments(&self) -> (r: usize)
        ensures
            r == self.n_segments(),
    {
        self.segments.len()
    }

    /// Number of temporary segments handed out.
    pub fn num_temp_segments(&self) -> (r: usize)
        ensures
            r == self.n_temp_segments(),
    {
        self.n_temp_segments
    }

    /// The finalized size of segment `i`, if it was finalized.
    pub fn get_finalized_size(&self, i: usize) -> (r: Option<usize>)
        ensures
            r == self.finalized_size(i as int),
    {
        if i < self.segments.len() {
            self.segments[i].finalized
        } else {
            None
        }
    }

    pub fn new() -> (r: Memory)
        ensures
            r.n_segments() == 0,
            r.n_temp_segments() == 0,
            forall|a: Relocatable| r.cell(a) is None,
    {
        Memory { segments: Vec::new(), n_temp_segments: 0 }
    }

    /// Allocates a fresh empty segment and returns its base address.
    pub fn add_segment(&mut self) -> (r: Relocatable)
        requires
            old(self).n_segments() < 0x8000,
        ensures
            r.segment_index == old(self).n_segments(),
            r.offset == 0,
            final(self).n_segments() == old(self).n_segments() + 1,
            final(self).n_temp_segments() == old(self).n_temp_segments(),
            forall|a: Relocatable| final(self).cell(a) == old(self).cell(a),
            forall|i: int| i != old(self).n_segments()
                ==> final(self).finalized_size(i) == old(self).finalized_size(i),
            final(self).finalized_size(old(self).n_segments()) is None,
    {
        let index = self.segments.len();
        self.segments.push(Segment { cells: Vec::new(), finalized: None });
        proof {
            assert(forall|a: Relocatable|
                final(self).cell(a) == old(self).cell(a)) by {
                assert forall|a: Relocatable| final(self).cell(a) == old(self).cell(a) by {
                    if a.segment_index == index as int {
                        assert(final(self).segments@[a.segment_index as int].cells@.len() == 0);
                    }
                }
            }
        }
        Relocatable { segment_index: index as isize, offset: 0 }
    }

    /// Hands out the next temporary-segment base address; temporary segments
    /// carry no storage in this model.
    pub fn add_temporary_segment(&mut self) -> (r: Relocatable)
        requires
            old(self).n_temp_segments() < 0x8000,
        ensures
            r.segment_index == -(old(self).n_temp_segments() + 1),
            r.offset == 0,
            final(self).n_temp_segments() == old(self).n_temp_segments() + 1,
            final(self).n_segments() == old(self).n_segments(),
            forall|a: Relocatable| final(self).cell(a) == old(self).cell(a),
            forall|i: int| final(self).finalized_size(i) == old(self).finalized_size(i),
    {
        self.n_temp_segments = self.n_temp_segments + 1;
        Relocatable { segment_index: -(self.n_temp_segments as isize), offset: 0 }
    }

    /// Writes `v` at `a`. A cell may be rewritten only with the value it
    /// already holds; on refusal the memory is untouched.
    pub fn insert(&mut self, a: Relocatable, v: MaybeRelocatable) -> (r: Result<
        (),
        MemoryError,
    >)
        ensures
            match r {
                Ok(()) => old(self).writable(a, v) && final(self).cell(a) == Some(v)
                    && final(self).unchanged_except(*old(self), a),
                Err(e) => !old(self).writable(a, v) && *final(self) == *old(self)
                    && e == old(self).write_error(a, v),
            },
    {
        if a.segment_index < 0 {
            return Err(MemoryError::TemporarySegment(a));
        }
        let seg_index = a.segment_index as usize;
        if seg_index >= self.segments.len() {
            return Err(MemoryError::UnallocatedSegment(a));
        }
        let seg = &self.segments[seg_index];
        match seg.finalized {
            Some(size) => {
                if a.offset >= size {
                    return Err(MemoryError::BeyondFinalizedSize(a));
                }
            },
            None => {},
        }
        if a.offset < seg.cells.len() {
            match seg.cells[a.offset] {
                Some(existing) => {
                    if existing == v {
                        return Ok(());
                    } else {
                        return Err(MemoryError::InconsistentWrite(a));
                    }
                },
                None => {},
            }
        }
        let mut seg = self.segments.remove(seg_index);
        let ghost orig = seg.cells@;
        let ghost orig_finalized = seg.finalized;
        while seg.cells.len() <= a.offset
            invariant
                orig.len() <= seg.cells@.len(),
                seg.cells@.len() <= if orig.len() > a.offset + 1 {
                    orig.len() as int
                } else {
                    a.offset + 1
                },
                seg.finalized == orig_finalized,
                forall|j: int|
                    0 <= j < seg.cells@.len() ==> seg.cells@[j] == (if j < orig.len() {
                        orig[j]
                    } else {
                        None::<MaybeRelocatable>
                    }),
            decreases a.offset + 1 - seg.cells@.len(),
        {
            seg.cells.push(None);
        }
        seg.cells.set(a.offset, Some(v));
        self.segments.insert(seg_index, seg);
        proof {
            let m0 = *old(self);
            let si = a.segment_index as int;
            assert(final(self).segments@ =~= m0.segments@.update(
                si,
                final(self).segments@[si],
            ));
            assert forall|b: Relocatable| b != a implies final(self).cell(b) == m0.cell(b) by {
                if b.segment_index == a.segment_index {
                    assert(b.offset != a.offset);
                }
            }
            assert(forall|i: int| final(self).finalized_size(i) == m0.finalized_size(i));
        }
        Ok(())
    }

    /// The value at `a`, if the cell was written.
    pub fn get(&self, a: Relocatable) -> (r: Option<MaybeRelocatable>)
        ensures
            r == self.cell(a),
    {
        if a.segment_index < 0 {
            return None;
        }
        let seg_index = a.segment_index as usize;
        if seg_index >= self.segments.len() {
            return None;
        }
        let seg = &self.segments[seg_index];
        if a.offset < seg.cells.len() {
            seg.cells[a.offset]
        } else {
            None
        }
    }

    /// The address held at `a`; an unwritten cell or an integer cell is an
    /// error, as the host's memory reads report them.
    pub fn get_relocatable(&self, a: Relocatable) -> (r: Result<Relocatable, MemoryError>)
        ensures
            match r {
                Ok(b) => self.cell(a) == Some(MaybeRelocatable::Addr(b)),
                Err(e) => match self.cell(a) {
                    None => e == MemoryError::UnknownCell(a),
                    Some(v) => v is Int && e == MemoryError::ExpectedRelocatable(a),
                },
            },
    {
        match self.get(a) {
            None => Err(MemoryError::UnknownCell(a)),
            Some(MaybeRelocatable::Int(_)) => Err(MemoryError::ExpectedRelocatable(a)),
            Some(MaybeRelocatable::Addr(b)) => Ok(b),
        }
    }

    /// The field element held at `a`; an unwritten cell or an address cell
    /// is an error.
    pub fn get_integer(&self, a: Relocatable) -> (r: Result<Felt, MemoryError>)
        ensures
            match r {
                Ok(f) => self.cell(a) == Some(MaybeRelocatable::Int(f)),
                Err(e) => match self.cell(a) {
                    None => e == MemoryError::UnknownCell(a),
                    Some(v) => v is Addr && e == MemoryError::ExpectedInteger(a),
                },
            },
    {
        match self.get(a) {
            None => Err(MemoryError::UnknownCell(a)),
            Some(MaybeRelocatable::Addr(_)) => Err(MemoryError::ExpectedInteger(a)),
            Some(MaybeRelocatable::Int(f)) => Ok(f),
        }
    }

    /// Fixes the size of segment `i`; later writes at or beyond `size` are
    /// refused.
    pub fn finalize(&mut self, i: usize, size: usize)
        requires
            i < old(self).n_segments(),
        ensures
            final(self).n_segments() == old(self).n_segments(),
            final(self).n_temp_segments() == old(self).n_temp_segments(),
            forall|a: Relocatable| final(self).cell(a) == old(self).cell(a),
            final(self).finalized_size(i as int) == Some(size),
            forall|j: int| j != i
                ==> final(self).finalized_size(j) == old(self).finalized_size(j),
    {
        let seg = &mut self.segments[i];
        seg.finalized = Some(size);
    }
}

} // verus!
