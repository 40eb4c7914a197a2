//! Program descriptors and the program loader.
//!
//! A program is loaded as a fixed-layout header — payload length, schema
//! version, entry point, capability count, then the capability names — and
//! its code words, all written into one memory region; the caller finalizes
//! the backing segment to the returned size.

use vstd::prelude::*;

use crate::builtins::{builtin_code, BuiltinName};
use crate::felt::{lemma_felt_eq_value, Felt};
use crate::memory::{MaybeRelocatable, Memory, MemoryError, Relocatable};

verus! {

/// The integers a sequence of field elements denotes.
pub open spec fn felt_vals(fs: Seq<Felt>) -> Seq<int> {
    fs.map_values(|f: Felt| f@)
}

/// The integers a sequence of capability names denotes.
pub open spec fn builtin_codes(bs: Seq<BuiltinName>) -> Seq<int> {
    bs.map_values(|b: BuiltinName| builtin_code(b))
}

/// A program stripped to what loading and identity need: ordered code
/// words, the ordered declared-capability list, and the entry-point offset.
#[derive(Clone, PartialEq, Debug)]
pub struct StrippedProgram {
    pub data: Vec<Felt>,
    pub builtins: Vec<BuiltinName>,
    pub main: usize,
}

/// Number of header words before the capability list.
pub open spec fn header_fields() -> int {
    4
}

impl StrippedProgram {
    /// Sizes small enough for address arithmetic, code words canonical.
    pub open spec fn wf(self) -> bool {
        &&& self.data@.len() <= 0x7fff0000
        &&& self.builtins@.len() <= 0x20
        &&& forall|i: int| 0 <= i < self.data@.len() ==> self.data@[i].wf()
    }

    /// The words the loader writes from the header address on: the header
    /// (payload length, schema version, entry point, capability count), the
    /// capability names, then the code words. From its second word on this
    /// sequence is also the payload of the identity hash, whose first word
    /// is that payload's length.
    pub open spec fn load_words(self, version: int) -> Seq<int> {
        seq![
            (3 + self.builtins@.len() + self.data@.len()) as int,
            version,
            self.main as int,
            self.builtins@.len() as int,
        ] + builtin_codes(self.builtins@) + felt_vals(self.data@)
    }
}

/// Where a program was placed: the address of its first code word and the
/// total number of words written, header included.
#[derive(Clone, Copy, PartialEq, Eq, Structural, Debug)]
pub struct LoadedProgram {
    pub code_address: Relocatable,
    pub size: usize,
}

/// Whether the integer words `words` can be written from `base` on: every
/// target cell accepts its word and the offsets stay in range.
pub open spec fn can_write_ints(m: Memory, base: Relocatable, words: Seq<int>) -> bool {
    &&& words.len() > 0 ==> base.offset + words.len() - 1 <= usize::MAX
    &&& forall|k: int| 0 <= k < words.len() ==> m.int_writable(base.plus(k), words[k])
}

/// Whether `load_program` succeeds on this memory, base and program.
pub open spec fn can_load(m: Memory, base: Relocatable, p: StrippedProgram, version: int) -> bool {
    &&& can_write_ints(m, base, p.load_words(version))
    &&& base.offset + header_fields() + p.builtins@.len() <= usize::MAX
}

/// Builds the words the loader writes for `program`, as field elements in
/// order.
pub fn load_word_vec(program: &StrippedProgram, version: u64) -> (r: Vec<Felt>)
    requires
        program.wf(),
    ensures
        r@.len() == program.load_words(version as int).len(),
        forall|k: int| 0 <= k < r@.len() ==> #[trigger] r@[k].wf(),
        forall|k: int|
            0 <= k < r@.len() ==> r@[k]@ == program.load_words(version as int)[k],
{
    let ghost lw = program.load_words(version as int);
    let n = program.builtins.len();
    let len = program.data.len();

    let mut words: Vec<Felt> = Vec::new();
    words.push(Felt::from_usize(3 + n + len));
    words.push(Felt::from_u64(version));
    words.push(Felt::from_usize(program.main));
    words.push(Felt::from_usize(n));
    let mut i: usize = 0;
    while i < n
        invariant
            n == program.builtins@.len(),
            i <= n,
            words@.len() == 4 + i,
            forall|k: int| 0 <= k < words@.len() ==> #[trigger] words@[k].wf(),
            forall|k: int| 0 <= k < words@.len() ==> words@[k]@ == lw[k],
            lw == program.load_words(version as int),
            program.wf(),
        decreases n - i,
    {
        words.push(program.builtins[i].encode());
        i = i + 1;
    }
    let mut i: usize = 0;
    while i < len
        invariant
            n == program.builtins@.len(),
            len == program.data@.len(),
            i <= len,
            words@.len() == 4 + n + i,
            forall|k: int| 0 <= k < words@.len() ==> #[trigger] words@[k].wf(),
            forall|k: int| 0 <= k < words@.len() ==> words@[k]@ == lw[k],
            lw == program.load_words(version as int),
            program.wf(),
        decreases len - i,
    {
        words.push(program.data[i]);
        i = i + 1;
    }
    words
}

/// Writes the program header and code words from `base` on and returns the
/// code address and the total word count. On failure, only cells of the
/// target range may have been written.
pub fn load_program(
    mem: &mut Memory,
    base: Relocatable,
    program: &StrippedProgram,
    version: u64,
) -> (r: Result<LoadedProgram, MemoryError>)
    requires
        program.wf(),
    ensures
        match r {
            Ok(lp) => {
                &&& can_load(*old(mem), base, *program, version as int)
                &&& lp.size == program.load_words(version as int).len()
                &&& lp.code_address == base.plus(
                    header_fields() + program.builtins@.len() as int,
                )
                &&& forall|k: int|
                    0 <= k < program.load_words(version as int).len() ==> final(mem).int_at(
                        base.plus(k),
                    ) == Some(program.load_words(version as int)[k])
                &&& final(mem).unchanged_except_range(
                    *old(mem),
                    base.segment_index as int,
                    base.offset as int,
                    base.offset + program.load_words(version as int).len(),
                )
            },
            Err(_) => {
                &&& !can_load(*old(mem), base, *program, version as int)
                &&& final(mem).unchanged_except_range(
                    *old(mem),
                    base.segment_index as int,
                    base.offset as int,
                    base.offset + program.load_words(version as int).len(),
                )
            },
        },
{
    let ghost lw = program.load_words(version as int);
    let n = program.builtins.len();
    let words = load_word_vec(program, version);
    let total = words.len();
    let mut k: usize = 0;
    while k < total
        invariant
            total == lw.len(),
            words@.len() == total,
            forall|j: int| 0 <= j < total ==> #[trigger] words@[j].wf(),
            forall|j: int| 0 <= j < total ==> words@[j]@ == lw[j],
            lw == program.load_words(version as int),
            k <= total,
            k > 0 ==> base.offset + k - 1 <= usize::MAX,
            mem.unchanged_except_range(
                *old(mem),
                base.segment_index as int,
                base.offset as int,
                base.offset + k,
            ),
            forall|j: int| 0 <= j < k ==> mem.int_at(base.plus(j)) == Some(lw[j]),
            forall|j: int| 0 <= j < k ==> old(mem).int_writable(base.plus(j), lw[j]),
        decreases total - k,
    {
        let a = match base.add(k) {
            Some(a) => a,
            None => {
                proof {
                    assert(!can_write_ints(*old(mem), base, lw));
                }
                return Err(MemoryError::OffsetOverflow);
            },
        };
        let ghost mem_before = *mem;
        match mem.insert(a, MaybeRelocatable::Int(words[k])) {
            Ok(()) => {
                proof {
                    assert(mem_before.cell(a) == old(mem).cell(a));
                    assert(old(mem).int_writable(base.plus(k as int), lw[k as int]));
                    assert forall|b: Relocatable|
                        b.segment_index != base.segment_index as int || b.offset < base.offset
                            || b.offset >= base.offset + (k + 1) implies mem.cell(b) == old(
                        mem,
                    ).cell(b) by {
                        assert(b != a);
                        assert(mem.cell(b) == mem_before.cell(b));
                    }
                }
            },
            Err(e) => {
                proof {
                    assert(mem_before.cell(a) == old(mem).cell(a));
                    if old(mem).int_writable(base.plus(k as int), lw[k as int]) {
                        let w = lw[k as int];
                        match old(mem).cell(a) {
                            Some(MaybeRelocatable::Int(f)) => {
                                lemma_felt_eq_value(f, words@[k as int]);
                                assert(mem_before.writable(a, MaybeRelocatable::Int(words@[k as int])));
                            },
                            _ => {
                                assert(mem_before.writable(a, MaybeRelocatable::Int(words@[k as int])));
                            },
                        }
                        assert(false);
                    }
                    assert(!can_write_ints(*old(mem), base, lw));
                }
                return Err(e);
            },
        }
        k = k + 1;
    }
    let code_address = match base.add(4 + n) {
        Some(a) => a,
        None => {
            return Err(MemoryError::OffsetOverflow);
        },
    };
    Ok(LoadedProgram { code_address, size: total })
}

} // verus!
