//! Fact topologies: the page-size and nested-structure layout of each
//! task's public output, captured once per task and appended, in call
//! order, to the run-wide list.

use vstd::prelude::*;

use crate::memory::Relocatable;
use crate::types::TaskSpec;

verus! {

/// The structural layout of one task's output: the ordered page sizes
/// (first the "header" page, possibly of size zero) and a flat encoding of
/// the recursive page grouping.
#[derive(Clone, PartialEq, Debug)]
pub struct FactTopology {
    pub tree_structure: Vec<usize>,
    pub page_sizes: Vec<usize>,
}

/// One page of the output segment's page tracking.
#[derive(Clone, Copy, PartialEq, Eq, Structural, Debug)]
pub struct PageEntry {
    pub id: usize,
    pub start: usize,
    pub size: usize,
}

/// The page-tracking state of the output capability.
#[derive(Clone, PartialEq, Debug)]
pub struct OutputBuiltinState {
    /// Segment index the output pointer writes into.
    pub base: usize,
    pub base_offset: usize,
    /// Pages the running task declared, beyond the header page.
    pub pages: Vec<PageEntry>,
    /// The flat tree-structure attribute, when the task set one.
    pub tree_structure: Option<Vec<usize>>,
}

/// The output capability's state holder.
#[derive(Clone, PartialEq, Debug)]
pub struct OutputBuiltin {
    pub state: OutputBuiltinState,
}

impl OutputBuiltin {
    /// Replaces the tracked state, returning the previous one.
    pub fn replace_state(&mut self, new_state: OutputBuiltinState) -> (r: OutputBuiltinState)
        ensures
            r == old(self).state,
            final(self).state == new_state,
    {
        let mut taken = new_state;
        core::mem::swap(&mut self.state, &mut taken);
        taken
    }

    /// A fresh state whose pages are recorded against the segment `base`.
    pub fn fresh_state(base: usize, base_offset: usize) -> (r: OutputBuiltinState)
        ensures
            r.base == base,
            r.base_offset == base_offset,
            r.pages@ == Seq::<PageEntry>::empty(),
            r.tree_structure is None,
    {
        OutputBuiltinState { base, base_offset, pages: Vec::new(), tree_structure: None }
    }
}

/// Why a fact topology could not be captured.
#[derive(Clone, Copy, PartialEq, Eq, Structural, Debug)]
pub enum FactTopologyError {
    /// A page id lies outside `1..=n`.
    InvalidPageId(usize),
    /// Two pages carry the same id.
    DuplicatePage(usize),
    /// No page carries this id.
    MissingPage(usize),
    /// The page sizes exceed the output segment's size.
    PageSizesExceedOutput,
    /// Pages were declared but no tree structure was set.
    TreeStructureMissing,
    /// A fresh-code task must hand the saved output state back.
    MissingOutputData,
    /// An artifact-backed task has no saved output state to hand back.
    UnexpectedOutputData,
    /// The task is an unresolved path reference.
    UnresolvedTask,
}

/// The size of the first page with id `k`, if any.
pub open spec fn page_size_of(pages: Seq<PageEntry>, k: int) -> Option<usize>
    decreases pages.len(),
{
    if pages.len() == 0 {
        None
    } else if pages[0].id == k {
        Some(pages[0].size)
    } else {
        page_size_of(pages.drop_first(), k)
    }
}

/// Sum of a sequence of sizes.
pub open spec fn sum_of(s: Seq<usize>) -> int
    decreases s.len(),
{
    if s.len() == 0 {
        0
    } else {
        s[0] + sum_of(s.drop_first())
    }
}

pub proof fn lemma_sum_of_nonneg(s: Seq<usize>)
    ensures
        sum_of(s) >= 0,
    decreases s.len(),
{
    if s.len() > 0 {
        lemma_sum_of_nonneg(s.drop_first());
    }
}

pub proof fn lemma_sum_of_push(s: Seq<usize>, v: usize)
    ensures
        sum_of(s.push(v)) == sum_of(s) + v,
    decreases s.len(),
{
    let p = s.push(v);
    assert(p.len() == s.len() + 1);
    assert(sum_of(p) == p[0] + sum_of(p.drop_first()));
    if s.len() == 0 {
        assert(p[0] == v);
        assert(p.drop_first() =~= Seq::<usize>::empty());
        assert(sum_of(p.drop_first()) == 0);
    } else {
        assert(p[0] == s[0]);
        assert(p.drop_first() =~= s.drop_first().push(v));
        lemma_sum_of_push(s.drop_first(), v);
        assert(sum_of(s) == s[0] + sum_of(s.drop_first()));
    }
}

/// A prefix never sums to more than the whole sequence.
pub proof fn lemma_sum_of_prefix(s: Seq<usize>, j: int)
    requires
        0 <= j <= s.len(),
    ensures
        sum_of(s.subrange(0, j)) <= sum_of(s),
    decreases j,
{
    if j == 0 {
        assert(s.subrange(0, 0) =~= Seq::<usize>::empty());
        lemma_sum_of_nonneg(s);
    } else {
        assert(s.subrange(0, j).drop_first() =~= s.drop_first().subrange(0, j - 1));
        lemma_sum_of_prefix(s.drop_first(), j - 1);
        lemma_sum_of_nonneg(s.drop_first().subrange(0, j - 1));
    }
}

/// The pages declare ids `1..=n` exactly once each.
pub open spec fn pages_valid(pages: Seq<PageEntry>) -> bool {
    &&& forall|j: int| 0 <= j < pages.len() ==> 1 <= #[trigger] pages[j].id <= pages.len()
    &&& forall|j1: int, j2: int|
        #![trigger pages[j1].id, pages[j2].id]
        0 <= j1 < j2 < pages.len() ==> pages[j1].id != pages[j2].id
    &&& forall|k: int| 1 <= k <= pages.len() ==> #[trigger] page_size_of(pages, k) is Some
}

/// A page id no entry carries is not found.
proof fn lemma_page_size_of_absent(pages: Seq<PageEntry>, k: int)
    requires
        forall|j: int| 0 <= j < pages.len() ==> #[trigger] pages[j].id != k,
    ensures
        page_size_of(pages, k) is None,
    decreases pages.len(),
{
    if pages.len() > 0 {
        assert(forall|j: int|
            0 <= j < pages.drop_first().len() ==> #[trigger] pages.drop_first()[j].id != k);
        lemma_page_size_of_absent(pages.drop_first(), k);
    }
}

/// With distinct page ids, finding an entry fixes the looked-up size.
proof fn lemma_page_size_of_found(pages: Seq<PageEntry>, j: int)
    requires
        0 <= j < pages.len(),
        forall|j1: int, j2: int|
            #![trigger pages[j1].id, pages[j2].id]
            0 <= j1 < j2 < pages.len() ==> pages[j1].id != pages[j2].id,
    ensures
        page_size_of(pages, pages[j].id as int) == Some(pages[j].size),
    decreases pages.len(),
{
    if j > 0 {
        assert(pages[0].id != pages[j].id);
        assert(pages.drop_first()[j - 1] == pages[j]);
        lemma_page_size_of_found(pages.drop_first(), j - 1);
    }
}

/// The sizes of pages `1..=n`, by page id; what the declared pages take of
/// the output in total.
pub open spec fn looked_up_sizes(pages: Seq<PageEntry>) -> Seq<usize> {
    Seq::new(pages.len(), |u: int| page_size_of(pages, u + 1).unwrap_or(0))
}

/// Whether the fresh-code page state yields a topology: valid pages whose
/// sizes fit the output, and a tree structure whenever pages exist.
pub open spec fn program_topology_ok(state: OutputBuiltinState, output_size: int) -> bool {
    &&& pages_valid(state.pages@)
    &&& sum_of(looked_up_sizes(state.pages@)) <= output_size
    &&& (state.tree_structure is Some || state.pages@.len() == 0)
}

/// Copies a vector of sizes.
fn copy_usize_vec(v: &Vec<usize>) -> (r: Vec<usize>)
    ensures
        r@ == v@,
{
    let mut r: Vec<usize> = Vec::new();
    let mut i: usize = 0;
    while i < v.len()
        invariant
            i <= v@.len(),
            r@ == v@.subrange(0, i as int),
        decreases v@.len() - i,
    {
        r.push(v[i]);
        i = i + 1;
    }
    proof {
        assert(r@ =~= v@);
    }
    r
}

/// Computes the topology of a fresh-code task from the output capability's
/// page-tracking state.
///
/// The page sizes are `[output_size - total, size of page 1, ..., size of
/// page n]`; the tree structure is the state's attribute, or `[1, 0]` when
/// the task declared no pages.
pub fn program_fact_topology(output_size: usize, state: &OutputBuiltinState) -> (r: Result<
    FactTopology,
    FactTopologyError,
>)
    ensures
        match r {
            Ok(ft) => {
                &&& program_topology_ok(*state, output_size as int)
                &&& ft.page_sizes@.len() == state.pages@.len() + 1
                &&& ft.page_sizes@[0] == output_size - sum_of(looked_up_sizes(state.pages@))
                &&& forall|k: int|
                    1 <= k < ft.page_sizes@.len() ==> Some(#[trigger] ft.page_sizes@[k])
                        == page_size_of(state.pages@, k)
                &&& sum_of(ft.page_sizes@) == output_size
                &&& match state.tree_structure {
                    Some(t) => ft.tree_structure@ == t@,
                    None => ft.tree_structure@ == seq![1usize, 0usize],
                }
            },
            Err(_) => !program_topology_ok(*state, output_size as int),
        },
{
    let n = state.pages.len();
    let mut sizes: Vec<Option<usize>> = Vec::new();
    sizes.push(None);
    let mut t: usize = 0;
    while t < n
        invariant
            t <= n,
            sizes@.len() == t + 1,
            forall|u: int| 0 <= u <= t ==> sizes@[u] is None,
        decreases n - t,
    {
        sizes.push(None);
        t = t + 1;
    }
    let mut j: usize = 0;
    while j < n
        invariant
            n == state.pages@.len(),
            j <= n,
            sizes@.len() == n + 1,
            forall|u: int|
                1 <= u <= n ==> match #[trigger] sizes@[u] {
                    Some(s) => exists|j2: int|
                        0 <= j2 < j && #[trigger] state.pages@[j2].id == u
                            && state.pages@[j2].size == s,
                    None => forall|j2: int| 0 <= j2 < j ==> #[trigger] state.pages@[j2].id != u,
                },
            sizes@[0] is None,
            forall|j2: int| 0 <= j2 < j ==> 1 <= #[trigger] state.pages@[j2].id <= n,
            forall|j1: int, j2: int|
                #![trigger state.pages@[j1].id, state.pages@[j2].id]
                0 <= j1 < j2 < j ==> state.pages@[j1].id != state.pages@[j2].id,
        decreases n - j,
    {
        let p = state.pages[j];
        if p.id < 1 || p.id > n {
            return Err(FactTopologyError::InvalidPageId(p.id));
        }
        match sizes[p.id] {
            Some(_) => {
                proof {
                    assert(!pages_valid(state.pages@));
                }
                return Err(FactTopologyError::DuplicatePage(p.id));
            },
            None => {},
        }
        sizes.set(p.id, Some(p.size));
        j = j + 1;
    }
    proof {
        assert forall|u: int|
            #![trigger sizes@[u]]
            1 <= u <= n && sizes@[u] is Some implies page_size_of(state.pages@, u) == sizes@[u] by {
            let s = sizes@[u].unwrap();
            let j2 = choose|j2: int|
                0 <= j2 < n && #[trigger] state.pages@[j2].id == u && state.pages@[j2].size == s;
            lemma_page_size_of_found(state.pages@, j2);
        }
    }

    let mut page_sizes: Vec<usize> = Vec::new();
    page_sizes.push(0);
    let mut total: usize = 0;
    let mut idx: usize = 0;
    while idx < n
        invariant
            n == state.pages@.len(),
            idx <= n,
            sizes@.len() == n + 1,
            page_sizes@.len() == idx + 1,
            forall|u: int|
                1 <= u <= n ==> match #[trigger] sizes@[u] {
                    Some(s) => page_size_of(state.pages@, u) == Some(s),
                    None => forall|j2: int|
                        0 <= j2 < n ==> #[trigger] state.pages@[j2].id != u,
                },
            forall|u: int|
                1 <= u <= idx ==> Some(#[trigger] page_sizes@[u]) == page_size_of(
                    state.pages@,
                    u,
                ),
            page_sizes@[0] == 0,
            total == sum_of(looked_up_sizes(state.pages@).subrange(0, idx as int)),
            forall|j2: int| 0 <= j2 < n ==> 1 <= #[trigger] state.pages@[j2].id <= n,
            forall|j1: int, j2: int|
                #![trigger state.pages@[j1].id, state.pages@[j2].id]
                0 <= j1 < j2 < n ==> state.pages@[j1].id != state.pages@[j2].id,
        decreases n - idx,
    {
        let k = idx + 1;
        let sz = match sizes[k] {
            Some(s) => s,
            None => {
                proof {
                    lemma_page_size_of_absent(state.pages@, k as int);
                    assert(!pages_valid(state.pages@));
                }
                return Err(FactTopologyError::MissingPage(k));
            },
        };
        let ghost lus = looked_up_sizes(state.pages@);
        proof {
            assert(lus.subrange(0, k as int) =~= lus.subrange(0, idx as int).push(
                lus[idx as int],
            ));
            lemma_sum_of_push(lus.subrange(0, idx as int), lus[idx as int]);
            assert(lus[idx as int] == sz);
        }
        total = match total.checked_add(sz) {
            Some(v) => v,
            None => {
                proof {
                    lemma_sum_of_prefix(lus, k as int);
                    assert(!program_topology_ok(*state, output_size as int));
                }
                return Err(FactTopologyError::PageSizesExceedOutput);
            },
        };
        page_sizes.push(sz);
        idx = idx + 1;
    }
    proof {
        assert(looked_up_sizes(state.pages@).subrange(0, n as int) =~= looked_up_sizes(
            state.pages@,
        ));
    }
    if total > output_size {
        proof {
            assert(!program_topology_ok(*state, output_size as int));
        }
        return Err(FactTopologyError::PageSizesExceedOutput);
    }
    let header_size = output_size - total;
    let ghost before_set = page_sizes@;
    page_sizes.set(0, header_size);

    let tree_structure = match &state.tree_structure {
        Some(ts) => copy_usize_vec(ts),
        None => {
            if n > 0 {
                proof {
                    assert(!program_topology_ok(*state, output_size as int));
                }
                return Err(FactTopologyError::TreeStructureMissing);
            }
            let mut v: Vec<usize> = Vec::new();
            v.push(1);
            v.push(0);
            proof {
                assert(v@ =~= seq![1usize, 0usize]);
            }
            v
        },
    };
    proof {
        assert forall|k2: int|
            1 <= k2 <= state.pages@.len() implies #[trigger] page_size_of(state.pages@, k2)
            is Some by {
            assert(Some(before_set[k2]) == page_size_of(state.pages@, k2));
        }
        assert(pages_valid(state.pages@));
        let ps = page_sizes@;
        assert(ps.drop_first() =~= before_set.drop_first());
        assert(sum_of(ps) == ps[0] + sum_of(ps.drop_first()));
        assert(before_set.subrange(1, (n + 1) as int) =~= before_set.drop_first());
        assert forall|u: int|
            1 <= u < (n + 1) implies before_set.drop_first()[u - 1] == before_set[u] by {}
        assert(before_set.drop_first() =~= looked_up_sizes(state.pages@)) by {
            assert forall|u: int| 0 <= u < n implies before_set.drop_first()[u]
                == looked_up_sizes(state.pages@)[u] by {
                assert(Some(before_set[u + 1]) == page_size_of(state.pages@, u + 1));
            }
        }
    }
    Ok(FactTopology { tree_structure, page_sizes })
}

/// Captures the fact topology of one executed task.
///
/// A fresh-code task consults the output capability's page-tracking state
/// and hands the saved pre-task state back to the capability; a task from
/// a serialized artifact has a single output page of the whole output size
/// and no internal structure.
pub fn get_task_fact_topology(
    output_size: usize,
    task: &TaskSpec,
    output_builtin: &mut OutputBuiltin,
    output_runner_data: Option<OutputBuiltinState>,
) -> (r: Result<FactTopology, FactTopologyError>)
    ensures
        match r {
            Ok(ft) => match task {
                TaskSpec::RunProgram(_) => {
                    &&& output_runner_data is Some
                    &&& program_topology_ok(old(output_builtin).state, output_size as int)
                    &&& final(output_builtin).state == output_runner_data.unwrap()
                    &&& sum_of(ft.page_sizes@) == output_size
                    &&& ft.page_sizes@.len() == old(output_builtin).state.pages@.len() + 1
                    &&& forall|k: int|
                        1 <= k < ft.page_sizes@.len() ==> Some(#[trigger] ft.page_sizes@[k])
                            == page_size_of(old(output_builtin).state.pages@, k)
                    &&& match old(output_builtin).state.tree_structure {
                        Some(t) => ft.tree_structure@ == t@,
                        None => ft.tree_structure@ == seq![1usize, 0usize],
                    }
                },
                TaskSpec::CairoPieTask(_) => {
                    &&& output_runner_data is None
                    &&& ft.page_sizes@ == seq![output_size]
                    &&& ft.tree_structure@ == seq![1usize, 0usize]
                    &&& sum_of(ft.page_sizes@) == output_size
                    &&& *final(output_builtin) == *old(output_builtin)
                },
                TaskSpec::CairoPiePath(_) => false,
            },
            Err(_) => match task {
                TaskSpec::RunProgram(_) => {
                    &&& (output_runner_data is None || !program_topology_ok(
                        old(output_builtin).state,
                        output_size as int,
                    ))
                    &&& match output_runner_data {
                        Some(s) => final(output_builtin).state == s,
                        None => *final(output_builtin) == *old(output_builtin),
                    }
                },
                TaskSpec::CairoPieTask(_) => output_runner_data is Some
                    && *final(output_builtin) == *old(output_builtin),
                TaskSpec::CairoPiePath(_) => *final(output_builtin) == *old(output_builtin),
            },
        },
{
    match task {
        TaskSpec::RunProgram(_) => {
            let saved = match output_runner_data {
                Some(s) => s,
                None => {
                    return Err(FactTopologyError::MissingOutputData);
                },
            };
            let current = output_builtin.replace_state(saved);
            match program_fact_topology(output_size, &current) {
                Ok(ft) => Ok(ft),
                Err(e) => Err(e),
            }
        },
        TaskSpec::CairoPieTask(_) => {
            match output_runner_data {
                Some(_) => {
                    return Err(FactTopologyError::UnexpectedOutputData);
                },
                None => {},
            }
            let mut page_sizes: Vec<usize> = Vec::new();
            page_sizes.push(output_size);
            let mut tree_structure: Vec<usize> = Vec::new();
            tree_structure.push(1);
            tree_structure.push(0);
            proof {
                assert(page_sizes@ =~= seq![output_size]);
                assert(tree_structure@ =~= seq![1usize, 0usize]);
                assert(page_sizes@.drop_first() =~= Seq::<usize>::empty());
                assert(sum_of(page_sizes@) == page_sizes@[0] + sum_of(page_sizes@.drop_first()));
                assert(sum_of(page_sizes@.drop_first()) == 0);
            }
            Ok(FactTopology { tree_structure, page_sizes })
        },
        TaskSpec::CairoPiePath(_) => Err(FactTopologyError::UnresolvedTask),
    }
}

/// Saves the output capability's state and starts a fresh one before a
/// fresh-code task runs, so the nested program's pages are recorded
/// separately; a task replayed from a serialized artifact declares no
/// pages, so nothing is saved.
pub fn prepare_output_runner(
    task: &TaskSpec,
    output_builtin: &mut OutputBuiltin,
    output_ptr: Relocatable,
) -> (r: Result<Option<OutputBuiltinState>, FactTopologyError>)
    requires
        output_ptr.segment_index >= 0,
    ensures
        match r {
            Ok(saved) => match task {
                TaskSpec::RunProgram(_) => {
                    &&& saved == Some(old(output_builtin).state)
                    &&& final(output_builtin).state.base == output_ptr.segment_index
                    &&& final(output_builtin).state.base_offset == 0
                    &&& final(output_builtin).state.pages@ == Seq::<PageEntry>::empty()
                    &&& final(output_builtin).state.tree_structure is None
                },
                TaskSpec::CairoPieTask(_) => saved is None && *final(output_builtin) == *old(
                    output_builtin,
                ),
                TaskSpec::CairoPiePath(_) => false,
            },
            Err(_) => *task is CairoPiePath && *final(output_builtin) == *old(output_builtin),
        },
{
    match task {
        TaskSpec::RunProgram(_) => {
            let fresh = OutputBuiltin::fresh_state(output_ptr.segment_index as usize, 0);
            let saved = output_builtin.replace_state(fresh);
            Ok(Some(saved))
        },
        TaskSpec::CairoPieTask(_) => Ok(None),
        TaskSpec::CairoPiePath(_) => Err(FactTopologyError::UnresolvedTask),
    }
}

/// Appends one task's topology to the run-wide list; call order is kept.
pub fn append_fact_topology(topologies: &mut Vec<FactTopology>, ft: FactTopology)
    ensures
        final(topologies)@ == old(topologies)@.push(ft),
{
    topologies.push(ft);
}

} // verus!
