//! Laws of the accessor's caching policy, proved from the method contracts.

use vstd::prelude::*;

use crate::ctx::{
    cache_entries, global_post, imported_func_post, memory_post, sigindex_post, table_post,
    CacheSlot, CtxType, GlobalCache, MemoryCache,
};
use crate::ir::{val_at, AbsVal, CtxState, Instr, DESC_BASE, DESC_BOUNDS};
use crate::module_info::ModuleInfo;
use crate::types::MemoryType;

verus! {

/// A context snapshot matches the module's metadata: each array of the
/// execution context has exactly the length the module declares.
pub open spec fn state_wf(s: CtxState, info: ModuleInfo) -> bool {
    &&& s.local_memories@.len() == info.memories@.len()
    &&& s.imported_memories@.len() == info.imported_memories@.len()
    &&& s.local_tables@.len() == info.tables
    &&& s.imported_tables@.len() == info.imported_tables
    &&& s.local_globals@.len() == info.globals@.len()
    &&& s.imported_globals@.len() == info.imported_globals@.len()
    &&& s.imported_funcs@.len() == info.imported_functions
    &&& s.sigindices@.len() == info.signatures
}

/// The base address the context holds, in snapshot `s`, for the memory the
/// unified `index` names.
pub open spec fn mem_base_in(s: CtxState, info: ModuleInfo, index: int) -> u64 {
    if info.mem_is_import(index) {
        s.imported_memories@[index].base
    } else {
        s.local_memories@[index - info.imported_memories@.len()].base
    }
}

/// The bound the context holds, in snapshot `s`, for the memory the unified
/// `index` names.
pub open spec fn mem_bound_in(s: CtxState, info: ModuleInfo, index: int) -> u64 {
    if info.mem_is_import(index) {
        s.imported_memories@[index].bound
    } else {
        s.local_memories@[index - info.imported_memories@.len()].bound
    }
}

/// Two accesses to the same memory within one function body, with the runtime
/// free to mutate the context (a growth event) between any two instructions:
/// each returned operand reads the base or bound the context holds at the
/// instant its own load executes. For a relocatable memory the second access's
/// loads stand at or after the second call's code, so they observe any growth
/// that happened since the first access; for a fixed memory the second access
/// returns exactly the first access's operands, whose loads executed at first
/// access, and emits nothing new.
pub proof fn lemma_memory_growth_between_accesses<'a>(
    s0: CtxType<'a>,
    s1: CtxType<'a>,
    s2: CtxType<'a>,
    index: usize,
    r1: (usize, usize),
    r2: (usize, usize),
    states: Seq<CtxState>,
)
    requires
        s0.wf(),
        (index as int) < s0.info.mem_count(),
        memory_post(s0, s1, index, r1),
        memory_post(s1, s2, index, r2),
        states.len() == s2.emitted().len(),
        forall|j: int| 0 <= j < states.len() ==> #[trigger] state_wf(states[j], *s0.info),
    ensures
        val_at(s2.emitted(), states, r2.0 as int) == (AbsVal::Num {
            bits: mem_base_in(states[r2.0 as int], *s0.info, index as int),
        }),
        val_at(s2.emitted(), states, r2.1 as int) == (AbsVal::Num {
            bits: mem_bound_in(states[r2.1 as int], *s0.info, index as int),
        }),
        s0.info.mem_style(index as int) == MemoryType::Dynamic ==> r2.0 as int
            >= s1.emitted().len() && r2.1 as int >= s1.emitted().len(),
        s0.info.mem_style(index as int) != MemoryType::Dynamic ==> r2 == r1 && s2.emitted()
            == s1.emitted(),
{
    let info = *s0.info;
    let fld = info.mem_field(index as int);
    let sub = info.mem_sub(index as int);
    assert(val_at(s2.emitted(), states, r2.0 as int) == crate::ir::load_sem(
        states[r2.0 as int],
        (AbsVal::DescFieldAddr { field: fld, index: sub, offset: DESC_BASE }),
    ));
    assert(state_wf(states[r2.0 as int], info));
    assert(state_wf(states[r2.1 as int], info));
}

/// Idempotence for memories: a second call with the same index re-derives
/// nothing. A fixed memory returns the identical cached operands and emits no
/// instruction; a relocatable one emits exactly two loads through the very
/// field pointers the first call used, so both calls' operands read through
/// the identical cached storage.
pub proof fn lemma_memory_idempotent<'a>(
    s0: CtxType<'a>,
    s1: CtxType<'a>,
    s2: CtxType<'a>,
    index: usize,
    r1: (usize, usize),
    r2: (usize, usize),
)
    requires
        s0.wf(),
        (index as int) < s0.info.mem_count(),
        memory_post(s0, s1, index, r1),
        memory_post(s1, s2, index, r2),
    ensures
        cache_entries(s2.cached_memories) == cache_entries(s1.cached_memories),
        s0.info.mem_style(index as int) != MemoryType::Dynamic ==> r2 == r1 && s2.emitted()
            == s1.emitted(),
        s0.info.mem_style(index as int) == MemoryType::Dynamic
            ==> match cache_entries(s1.cached_memories)[index] {
            CacheSlot::Memory(MemoryCache::Dynamic { ptr_to_base_ptr, ptr_to_bounds }) => {
                &&& s2.emitted() == s1.emitted() + seq![
                    (Instr::Load { ptr: ptr_to_base_ptr }),
                    (Instr::Load { ptr: ptr_to_bounds }),
                ]
                &&& s2.emitted()[r1.0 as int] == (Instr::Load { ptr: ptr_to_base_ptr })
                &&& s2.emitted()[r2.0 as int] == (Instr::Load { ptr: ptr_to_base_ptr })
                &&& s2.emitted()[r1.1 as int] == (Instr::Load { ptr: ptr_to_bounds })
                &&& s2.emitted()[r2.1 as int] == (Instr::Load { ptr: ptr_to_bounds })
            },
            _ => false,
        },
{
    let info = *s0.info;
    let pre0 = cache_entries(s0.cached_memories);
    if info.mem_style(index as int) == MemoryType::Dynamic {
        if !pre0.contains_key(index) {
            let n = s0.emitted().len() as int;
            assert(s1.emitted()[r1.0 as int] == (Instr::Load { ptr: (n + 4) as usize }));
            assert(s1.emitted()[r1.1 as int] == (Instr::Load { ptr: (n + 5) as usize }));
        }
    }
}

/// Idempotence for tables: a second call with the same index re-derives
/// nothing and emits exactly two loads through the very field pointers the
/// first call used.
pub proof fn lemma_table_idempotent<'a>(
    s0: CtxType<'a>,
    s1: CtxType<'a>,
    s2: CtxType<'a>,
    index: usize,
    r1: (usize, usize),
    r2: (usize, usize),
)
    requires
        s0.wf(),
        (index as int) < s0.info.table_count(),
        table_post(s0, s1, index, r1),
        table_post(s1, s2, index, r2),
    ensures
        cache_entries(s2.cached_tables) == cache_entries(s1.cached_tables),
        match cache_entries(s1.cached_tables)[index] {
            CacheSlot::Table(tc) => {
                &&& s2.emitted() == s1.emitted() + seq![
                    (Instr::Load { ptr: tc.ptr_to_base_ptr }),
                    (Instr::Load { ptr: tc.ptr_to_bounds }),
                ]
                &&& s2.emitted()[r1.0 as int] == (Instr::Load { ptr: tc.ptr_to_base_ptr })
                &&& s2.emitted()[r2.0 as int] == (Instr::Load { ptr: tc.ptr_to_base_ptr })
                &&& s2.emitted()[r1.1 as int] == (Instr::Load { ptr: tc.ptr_to_bounds })
                &&& s2.emitted()[r2.1 as int] == (Instr::Load { ptr: tc.ptr_to_bounds })
            },
            _ => false,
        },
{
    let pre0 = cache_entries(s0.cached_tables);
    if !pre0.contains_key(index) {
        let n = s0.emitted().len() as int;
        assert(s1.emitted()[r1.0 as int] == (Instr::Load { ptr: (n + 4) as usize }));
        assert(s1.emitted()[r1.1 as int] == (Instr::Load { ptr: (n + 5) as usize }));
    }
}

/// Idempotence for signature identifiers: a second call with the same index
/// returns the identical cached operand and emits nothing.
pub proof fn lemma_sigindex_idempotent<'a>(
    s0: CtxType<'a>,
    s1: CtxType<'a>,
    s2: CtxType<'a>,
    index: usize,
    r1: usize,
    r2: usize,
)
    requires
        sigindex_post(s0, s1, index, r1),
        sigindex_post(s1, s2, index, r2),
    ensures
        r2 == r1,
        s2.emitted() == s1.emitted(),
        cache_entries(s2.cached_sigindices) == cache_entries(s1.cached_sigindices),
{
}

/// Idempotence for globals: a second call with the same index returns the
/// identical cached operand (pointer or value) and emits nothing.
pub proof fn lemma_global_idempotent<'a>(
    s0: CtxType<'a>,
    s1: CtxType<'a>,
    s2: CtxType<'a>,
    index: usize,
    r1: GlobalCache,
    r2: GlobalCache,
)
    requires
        global_post(s0, s1, index, r1),
        global_post(s1, s2, index, r2),
    ensures
        r2 == r1,
        s2.emitted() == s1.emitted(),
        cache_entries(s2.cached_globals) == cache_entries(s1.cached_globals),
{
}

/// Idempotence for imported functions: a second call with the same index
/// returns the identical cached operand pair and emits nothing.
pub proof fn lemma_imported_func_idempotent<'a>(
    s0: CtxType<'a>,
    s1: CtxType<'a>,
    s2: CtxType<'a>,
    index: usize,
    r1: (usize, usize),
    r2: (usize, usize),
)
    requires
        imported_func_post(s0, s1, index, r1),
        imported_func_post(s1, s2, index, r2),
    ensures
        r2 == r1,
        s2.emitted() == s1.emitted(),
        cache_entries(s2.cached_imported_functions) == cache_entries(
            s1.cached_imported_functions,
        ),
{
}

/// Index 0 of a local-only index space and index 0 of an import-only index
/// space select disjoint context fields, for each entity kind that has both
/// numbering spaces.
pub proof fn lemma_index_spaces_disjoint(local_only: ModuleInfo, import_only: ModuleInfo)
    requires
        local_only.imported_memories@.len() == 0,
        local_only.memories@.len() > 0,
        import_only.imported_memories@.len() > 0,
        local_only.imported_tables == 0,
        local_only.tables > 0,
        import_only.imported_tables > 0,
        local_only.imported_globals@.len() == 0,
        local_only.globals@.len() > 0,
        import_only.imported_globals@.len() > 0,
    ensures
        local_only.mem_field(0) == crate::ir::FIELD_LOCAL_MEMORIES,
        import_only.mem_field(0) == crate::ir::FIELD_IMPORTED_MEMORIES,
        local_only.mem_field(0) != import_only.mem_field(0),
        local_only.table_field(0) == crate::ir::FIELD_LOCAL_TABLES,
        import_only.table_field(0) == crate::ir::FIELD_IMPORTED_TABLES,
        local_only.table_field(0) != import_only.table_field(0),
        local_only.global_field(0) == crate::ir::FIELD_LOCAL_GLOBALS,
        import_only.global_field(0) == crate::ir::FIELD_IMPORTED_GLOBALS,
        local_only.global_field(0) != import_only.global_field(0),
{
}

} // verus!
