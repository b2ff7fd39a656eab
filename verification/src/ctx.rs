//! The execution-context accessor.
//!
//! One [`CtxType`] is built per function being compiled, bound to that
//! function's context-pointer parameter. Each accessor method resolves a
//! unified entity index to its numbering space, materializes the native
//! access path through the execution context on first use, and memoizes it:
//! repeated references within the same function body reuse the cached path
//! instead of re-deriving it. The contracts state, over [`crate::ir::val_at`],
//! which runtime values the returned operands denote and at which point of
//! the emitted code they are read; in particular they distinguish values
//! re-loaded on every access (relocatable memories, tables, mutable globals)
//! from values captured once (fixed memories, immutable globals).

use vstd::prelude::*;

use crate::intrinsics::{type_to_llvm_ptr, Intrinsics};
use crate::ir::{
    is_addr, is_load_at, lemma_is_addr_prefix, lemma_is_load_prefix, load_sem, val_at, AbsVal,
    CtxState, FuncBuilder, Instr, DESC_BASE, DESC_BOUNDS, FIELD_IMPORTED_FUNCS,
    FIELD_IMPORTED_GLOBALS, FIELD_IMPORTED_MEMORIES, FIELD_IMPORTED_TABLES, FIELD_LOCAL_GLOBALS,
    FIELD_LOCAL_MEMORIES, FIELD_LOCAL_TABLES, FIELD_SIGINDICES, FUNC_CTX, FUNC_PTR,
};
use crate::module_info::{GlobalDesc, ModuleInfo};
use crate::types::{ptr_ty_of, MemoryType, PtrTy, StructTy};

verus! {

/// Cached access path of one memory, tagged by its physical discipline.
#[derive(Clone, Copy, PartialEq, Eq, Structural, Debug)]
pub enum MemoryCache {
    /// The memory moves around: the cache keeps pointers to the descriptor's
    /// base and bound fields, and every access re-loads through both, because
    /// a growth event may relocate the base between any two accesses.
    Dynamic { ptr_to_base_ptr: usize, ptr_to_bounds: usize },
    /// The memory is always in the same place: the cache keeps the base and
    /// bound values loaded at first access and reuses them as immediate
    /// operands. Both are captured once by design: growth never moves such a
    /// base, and a bound read earlier in the same function body is reused
    /// even if a growth call stands between two accesses — code that needs
    /// the live page count queries the size entry point instead.
    Static { base_ptr: usize, bounds: usize },
}

/// Cached access path of one table: tables always use the double-indirection
/// discipline, there is no fixed variant.
#[derive(Clone, Copy, PartialEq, Eq, Structural, Debug)]
pub struct TableCache {
    pub ptr_to_base_ptr: usize,
    pub ptr_to_bounds: usize,
}

/// How generated code references one global: through a typed storage pointer
/// (mutable globals, read and written on every reference) or as a value
/// loaded once (immutable globals, whose storage cannot change for the
/// module instance's lifetime).
#[derive(Clone, Copy, PartialEq, Eq, Structural, Debug)]
pub enum GlobalCache {
    Mut { ptr_to_value: usize },
    Const { value: usize },
}

/// Cached operands of one imported function: its code pointer and its own
/// context pointer, both loaded once from the function's descriptor.
#[derive(Clone, Copy, PartialEq, Eq, Structural, Debug)]
pub struct ImportedFuncCache {
    pub func_ptr: usize,
    pub ctx_ptr: usize,
}

/// One memoized entry: the access path materialized for one index of one
/// entity kind.
#[derive(Clone, Copy, PartialEq, Eq, Structural, Debug)]
pub enum CacheSlot {
    Memory(MemoryCache),
    Table(TableCache),
    Sig(usize),
    Global(GlobalCache),
    ImportedFunc(ImportedFuncCache),
}

/// Memoization table of one accessor: unified index to materialized access
/// path. Owned by exactly one in-flight function compilation, so it needs no
/// synchronization. Backed by hashbrown's hash map, which Verus does not read;
/// its behaviour enters the proofs only through the contracts below.
#[verifier::external_body]
pub struct CacheMap {
    map: hashbrown::HashMap<usize, CacheSlot>,
}

/// What a cache holds: its key-to-slot mapping.
pub uninterp spec fn cache_entries(m: CacheMap) -> Map<usize, CacheSlot>;

/// Relies on hashbrown::HashMap::new: a freshly created map contains nothing.
#[verifier::external_body]
fn cache_map_new() -> (m: CacheMap)
    ensures
        forall|k: usize| !cache_entries(m).contains_key(k),
{
    CacheMap { map: hashbrown::HashMap::new() }
}

/// Relies on hashbrown::HashMap::get: returns the value the key maps to, or
/// `None` when the key is absent.
#[verifier::external_body]
fn cache_map_get(m: &CacheMap, k: usize) -> (r: Option<CacheSlot>)
    ensures
        match r {
            Some(v) => cache_entries(*m).contains_key(k) && cache_entries(*m)[k] == v,
            None => !cache_entries(*m).contains_key(k),
        },
{
    m.map.get(&k).copied()
}

/// Relies on hashbrown::HashMap::insert: afterwards the key maps to the given
/// value and every other key maps to what it mapped to before.
#[verifier::external_body]
fn cache_map_insert(m: &mut CacheMap, k: usize, v: CacheSlot)
    ensures
        cache_entries(*final(m)) == cache_entries(*old(m)).insert(k, v),
{
    m.map.insert(k, v);
}

/// A memory cache entry is faithful to the emitted code: it names the
/// descriptor-field addresses (relocatable) or the loaded base/bound values
/// (fixed) of exactly the memory its index resolves to.
pub open spec fn mem_slot_wf(code: Seq<Instr>, info: ModuleInfo, k: usize, slot: CacheSlot) -> bool {
    &&& (k as int) < info.mem_count()
    &&& match slot {
        CacheSlot::Memory(MemoryCache::Dynamic { ptr_to_base_ptr, ptr_to_bounds }) => {
            &&& info.mem_style(k as int) == MemoryType::Dynamic
            &&& is_addr(
                code,
                ptr_to_base_ptr as int,
                (AbsVal::DescFieldAddr {
                    field: info.mem_field(k as int),
                    index: info.mem_sub(k as int),
                    offset: DESC_BASE,
                }),
            )
            &&& is_addr(
                code,
                ptr_to_bounds as int,
                (AbsVal::DescFieldAddr {
                    field: info.mem_field(k as int),
                    index: info.mem_sub(k as int),
                    offset: DESC_BOUNDS,
                }),
            )
        },
        CacheSlot::Memory(MemoryCache::Static { base_ptr, bounds }) => {
            &&& info.mem_style(k as int) != MemoryType::Dynamic
            &&& is_load_at(
                code,
                base_ptr as int,
                (AbsVal::DescFieldAddr {
                    field: info.mem_field(k as int),
                    index: info.mem_sub(k as int),
                    offset: DESC_BASE,
                }),
            )
            &&& is_load_at(
                code,
                bounds as int,
                (AbsVal::DescFieldAddr {
                    field: info.mem_field(k as int),
                    index: info.mem_sub(k as int),
                    offset: DESC_BOUNDS,
                }),
            )
        },
        _ => false,
    }
}

/// Every memoized memory entry is faithful to the emitted code.
pub open spec fn mem_cache_wf(
    entries: Map<usize, CacheSlot>,
    code: Seq<Instr>,
    info: ModuleInfo,
) -> bool {
    forall|k: usize| #[trigger]
        entries.contains_key(k) ==> mem_slot_wf(code, info, k, entries[k])
}

/// Memory cache entries stay faithful when instructions are appended.
pub proof fn lemma_mem_cache_prefix(
    entries: Map<usize, CacheSlot>,
    code1: Seq<Instr>,
    code2: Seq<Instr>,
    info: ModuleInfo,
)
    requires
        mem_cache_wf(entries, code1, info),
        code1.len() <= code2.len(),
        code2.take(code1.len() as int) == code1,
    ensures
        mem_cache_wf(entries, code2, info),
{
    assert forall|k: usize| #[trigger]
        entries.contains_key(k) implies mem_slot_wf(code2, info, k, entries[k]) by {
        assert(mem_slot_wf(code1, info, k, entries[k]));
        let fld = info.mem_field(k as int);
        let sub = info.mem_sub(k as int);
        match entries[k] {
            CacheSlot::Memory(MemoryCache::Dynamic { ptr_to_base_ptr, ptr_to_bounds }) => {
                lemma_is_addr_prefix(
                    code1,
                    code2,
                    ptr_to_base_ptr as int,
                    (AbsVal::DescFieldAddr { field: fld, index: sub, offset: DESC_BASE }),
                );
                lemma_is_addr_prefix(
                    code1,
                    code2,
                    ptr_to_bounds as int,
                    (AbsVal::DescFieldAddr { field: fld, index: sub, offset: DESC_BOUNDS }),
                );
            },
            CacheSlot::Memory(MemoryCache::Static { base_ptr, bounds }) => {
                lemma_is_load_prefix(
                    code1,
                    code2,
                    base_ptr as int,
                    (AbsVal::DescFieldAddr { field: fld, index: sub, offset: DESC_BASE }),
                );
                lemma_is_load_prefix(
                    code1,
                    code2,
                    bounds as int,
                    (AbsVal::DescFieldAddr { field: fld, index: sub, offset: DESC_BOUNDS }),
                );
            },
            _ => {},
        }
    }
}

/// A table cache entry is faithful to the emitted code: it names the
/// descriptor-field addresses of exactly the table its index resolves to.
pub open spec fn table_slot_wf(
    code: Seq<Instr>,
    info: ModuleInfo,
    k: usize,
    slot: CacheSlot,
) -> bool {
    &&& (k as int) < info.table_count()
    &&& match slot {
        CacheSlot::Table(tc) => {
            &&& is_addr(
                code,
                tc.ptr_to_base_ptr as int,
                (AbsVal::DescFieldAddr {
                    field: info.table_field(k as int),
                    index: info.table_sub(k as int),
                    offset: DESC_BASE,
                }),
            )
            &&& is_addr(
                code,
                tc.ptr_to_bounds as int,
                (AbsVal::DescFieldAddr {
                    field: info.table_field(k as int),
                    index: info.table_sub(k as int),
                    offset: DESC_BOUNDS,
                }),
            )
        },
        _ => false,
    }
}

/// Every memoized table entry is faithful to the emitted code.
pub open spec fn table_cache_wf(
    entries: Map<usize, CacheSlot>,
    code: Seq<Instr>,
    info: ModuleInfo,
) -> bool {
    forall|k: usize| #[trigger]
        entries.contains_key(k) ==> table_slot_wf(code, info, k, entries[k])
}

/// Table cache entries stay faithful when instructions are appended.
pub proof fn lemma_table_cache_prefix(
    entries: Map<usize, CacheSlot>,
    code1: Seq<Instr>,
    code2: Seq<Instr>,
    info: ModuleInfo,
)
    requires
        table_cache_wf(entries, code1, info),
        code1.len() <= code2.len(),
        code2.take(code1.len() as int) == code1,
    ensures
        table_cache_wf(entries, code2, info),
{
    assert forall|k: usize| #[trigger]
        entries.contains_key(k) implies table_slot_wf(code2, info, k, entries[k]) by {
        assert(table_slot_wf(code1, info, k, entries[k]));
        let fld = info.table_field(k as int);
        let sub = info.table_sub(k as int);
        match entries[k] {
            CacheSlot::Table(tc) => {
                lemma_is_addr_prefix(
                    code1,
                    code2,
                    tc.ptr_to_base_ptr as int,
                    (AbsVal::DescFieldAddr { field: fld, index: sub, offset: DESC_BASE }),
                );
                lemma_is_addr_prefix(
                    code1,
                    code2,
                    tc.ptr_to_bounds as int,
                    (AbsVal::DescFieldAddr { field: fld, index: sub, offset: DESC_BOUNDS }),
                );
            },
            _ => {},
        }
    }
}

/// A signature cache entry is faithful: it names the load of exactly the
/// signature identifier its index selects.
pub open spec fn sig_slot_wf(code: Seq<Instr>, info: ModuleInfo, k: usize, slot: CacheSlot) -> bool {
    &&& k < info.signatures
    &&& match slot {
        CacheSlot::Sig(id) => is_load_at(
            code,
            id as int,
            (AbsVal::ElemAddr { field: FIELD_SIGINDICES, index: k }),
        ),
        _ => false,
    }
}

/// Every memoized signature entry is faithful to the emitted code.
pub open spec fn sig_cache_wf(
    entries: Map<usize, CacheSlot>,
    code: Seq<Instr>,
    info: ModuleInfo,
) -> bool {
    forall|k: usize| #[trigger]
        entries.contains_key(k) ==> sig_slot_wf(code, info, k, entries[k])
}

/// Signature cache entries stay faithful when instructions are appended.
pub proof fn lemma_sig_cache_prefix(
    entries: Map<usize, CacheSlot>,
    code1: Seq<Instr>,
    code2: Seq<Instr>,
    info: ModuleInfo,
)
    requires
        sig_cache_wf(entries, code1, info),
        code1.len() <= code2.len(),
        code2.take(code1.len() as int) == code1,
    ensures
        sig_cache_wf(entries, code2, info),
{
    assert forall|k: usize| #[trigger]
        entries.contains_key(k) implies sig_slot_wf(code2, info, k, entries[k]) by {
        assert(sig_slot_wf(code1, info, k, entries[k]));
        match entries[k] {
            CacheSlot::Sig(id) => {
                lemma_is_load_prefix(
                    code1,
                    code2,
                    id as int,
                    (AbsVal::ElemAddr { field: FIELD_SIGINDICES, index: k }),
                );
            },
            _ => {},
        }
    }
}

/// A global cache entry is faithful: a mutable global caches the typed
/// storage-pointer operand, an immutable one caches the value loaded once,
/// and the pointer's pointee type matches the declared value type's width.
pub open spec fn global_slot_wf(
    code: Seq<Instr>,
    info: ModuleInfo,
    k: usize,
    slot: CacheSlot,
) -> bool {
    &&& (k as int) < info.global_count()
    &&& match slot {
        CacheSlot::Global(GlobalCache::Mut { ptr_to_value }) => {
            &&& info.global_desc(k as int).mutable
            &&& is_addr(
                code,
                ptr_to_value as int,
                (AbsVal::TypedSlotAddr {
                    field: info.global_field(k as int),
                    index: info.global_sub(k as int),
                    ty: ptr_ty_of(info.global_desc(k as int).ty),
                }),
            )
        },
        CacheSlot::Global(GlobalCache::Const { value }) => {
            &&& !info.global_desc(k as int).mutable
            &&& is_load_at(
                code,
                value as int,
                (AbsVal::TypedSlotAddr {
                    field: info.global_field(k as int),
                    index: info.global_sub(k as int),
                    ty: ptr_ty_of(info.global_desc(k as int).ty),
                }),
            )
        },
        _ => false,
    }
}

/// Every memoized global entry is faithful to the emitted code.
pub open spec fn global_cache_wf(
    entries: Map<usize, CacheSlot>,
    code: Seq<Instr>,
    info: ModuleInfo,
) -> bool {
    forall|k: usize| #[trigger]
        entries.contains_key(k) ==> global_slot_wf(code, info, k, entries[k])
}

/// Global cache entries stay faithful when instructions are appended.
pub proof fn lemma_global_cache_prefix(
    entries: Map<usize, CacheSlot>,
    code1: Seq<Instr>,
    code2: Seq<Instr>,
    info: ModuleInfo,
)
    requires
        global_cache_wf(entries, code1, info),
        code1.len() <= code2.len(),
        code2.take(code1.len() as int) == code1,
    ensures
        global_cache_wf(entries, code2, info),
{
    assert forall|k: usize| #[trigger]
        entries.contains_key(k) implies global_slot_wf(code2, info, k, entries[k]) by {
        assert(global_slot_wf(code1, info, k, entries[k]));
        let a = AbsVal::TypedSlotAddr {
            field: info.global_field(k as int),
            index: info.global_sub(k as int),
            ty: ptr_ty_of(info.global_desc(k as int).ty),
        };
        match entries[k] {
            CacheSlot::Global(GlobalCache::Mut { ptr_to_value }) => {
                lemma_is_addr_prefix(code1, code2, ptr_to_value as int, a);
            },
            CacheSlot::Global(GlobalCache::Const { value }) => {
                lemma_is_load_prefix(code1, code2, value as int, a);
            },
            _ => {},
        }
    }
}

/// An imported-function cache entry is faithful: it names the loads of the
/// descriptor's code pointer and callee context pointer.
pub open spec fn func_slot_wf(
    code: Seq<Instr>,
    info: ModuleInfo,
    k: usize,
    slot: CacheSlot,
) -> bool {
    &&& k < info.imported_functions
    &&& match slot {
        CacheSlot::ImportedFunc(fc) => {
            &&& is_load_at(
                code,
                fc.func_ptr as int,
                (AbsVal::DescFieldAddr { field: FIELD_IMPORTED_FUNCS, index: k, offset: FUNC_PTR }),
            )
            &&& is_load_at(
                code,
                fc.ctx_ptr as int,
                (AbsVal::DescFieldAddr { field: FIELD_IMPORTED_FUNCS, index: k, offset: FUNC_CTX }),
            )
        },
        _ => false,
    }
}

/// Every memoized imported-function entry is faithful to the emitted code.
pub open spec fn func_cache_wf(
    entries: Map<usize, CacheSlot>,
    code: Seq<Instr>,
    info: ModuleInfo,
) -> bool {
    forall|k: usize| #[trigger]
        entries.contains_key(k) ==> func_slot_wf(code, info, k, entries[k])
}

/// Imported-function cache entries stay faithful when instructions are
/// appended.
pub proof fn lemma_func_cache_prefix(
    entries: Map<usize, CacheSlot>,
    code1: Seq<Instr>,
    code2: Seq<Instr>,
    info: ModuleInfo,
)
    requires
        func_cache_wf(entries, code1, info),
        code1.len() <= code2.len(),
        code2.take(code1.len() as int) == code1,
    ensures
        func_cache_wf(entries, code2, info),
{
    assert forall|k: usize| #[trigger]
        entries.contains_key(k) implies func_slot_wf(code2, info, k, entries[k]) by {
        assert(func_slot_wf(code1, info, k, entries[k]));
        match entries[k] {
            CacheSlot::ImportedFunc(fc) => {
                lemma_is_load_prefix(
                    code1,
                    code2,
                    fc.func_ptr as int,
                    (AbsVal::DescFieldAddr {
                        field: FIELD_IMPORTED_FUNCS,
                        index: k,
                        offset: FUNC_PTR,
                    }),
                );
                lemma_is_load_prefix(
                    code1,
                    code2,
                    fc.ctx_ptr as int,
                    (AbsVal::DescFieldAddr {
                        field: FIELD_IMPORTED_FUNCS,
                        index: k,
                        offset: FUNC_CTX,
                    }),
                );
            },
            _ => {},
        }
    }
}

/// The derivation path shared by memory and table accesses: address of the
/// context field, load of the array pointer, address of the element, load of
/// the descriptor pointer, and addresses of its base and bound fields. `n` is
/// the position of the path's first instruction.
pub open spec fn deref_path(field: usize, sub: usize, n: int) -> Seq<Instr> {
    seq![
        Instr::GepField { base: 0, field },
        Instr::Load { ptr: n as usize },
        Instr::GepIndex { base: (n + 1) as usize, index: sub },
        Instr::Load { ptr: (n + 2) as usize },
        Instr::GepField { base: (n + 3) as usize, field: DESC_BASE },
        Instr::GepField { base: (n + 3) as usize, field: DESC_BOUNDS },
    ]
}

/// A first memory or table access emits the derivation path followed by the
/// loads of both descriptor fields.
pub open spec fn mem_path(field: usize, sub: usize, n: int) -> Seq<Instr> {
    deref_path(field, sub, n) + seq![
        Instr::Load { ptr: (n + 4) as usize },
        Instr::Load { ptr: (n + 5) as usize },
    ]
}

/// The derivation path of a signature-identifier access: address of the
/// context's signature-array field, load of the array pointer, address of the
/// element, and the load of the identifier itself.
pub open spec fn sig_path(sub: usize, n: int) -> Seq<Instr> {
    seq![
        Instr::GepField { base: 0, field: FIELD_SIGINDICES },
        Instr::Load { ptr: n as usize },
        Instr::GepIndex { base: (n + 1) as usize, index: sub },
        Instr::Load { ptr: (n + 2) as usize },
    ]
}

/// The derivation path of a global access: address of the context's slot
/// array field, load of the array pointer, address of the element, load of
/// the slot pointer, and the pointer-width round trip that synthesizes the
/// correctly-typed view of the generic 64-bit slot.
pub open spec fn global_path(field: usize, sub: usize, ty: PtrTy, n: int) -> Seq<Instr> {
    seq![
        Instr::GepField { base: 0, field },
        Instr::Load { ptr: n as usize },
        Instr::GepIndex { base: (n + 1) as usize, index: sub },
        Instr::Load { ptr: (n + 2) as usize },
        Instr::PtrToInt { ptr: (n + 3) as usize },
        Instr::IntToPtr { val: (n + 4) as usize, ty },
    ]
}

/// The derivation path of an imported-function access: address of the
/// context's imported-function field, load of the array pointer, address of
/// the element, load of the descriptor pointer, addresses of its code-pointer
/// and context-pointer fields, and the loads of both.
pub open spec fn func_path(sub: usize, n: int) -> Seq<Instr> {
    seq![
        Instr::GepField { base: 0, field: FIELD_IMPORTED_FUNCS },
        Instr::Load { ptr: n as usize },
        Instr::GepIndex { base: (n + 1) as usize, index: sub },
        Instr::Load { ptr: (n + 2) as usize },
        Instr::GepField { base: (n + 3) as usize, field: FUNC_PTR },
        Instr::GepField { base: (n + 3) as usize, field: FUNC_CTX },
        Instr::Load { ptr: (n + 4) as usize },
        Instr::Load { ptr: (n + 5) as usize },
    ]
}

/// The execution-context accessor of one function being compiled: its context
/// parameter, the body under construction, and the per-entity memoization
/// caches, which start empty and are discarded with the accessor.
pub struct CtxType<'a> {
    pub ctx_ty: StructTy,
    pub ctx_ptr_ty: PtrTy,
    pub ctx_ptr_value: usize,
    pub builder: FuncBuilder,
    pub intrinsics: &'a Intrinsics,
    pub info: &'a ModuleInfo,
    pub cached_memories: CacheMap,
    pub cached_tables: CacheMap,
    pub cached_sigindices: CacheMap,
    pub cached_globals: CacheMap,
    pub cached_imported_functions: CacheMap,
}

/// The parts of an accessor no method ever changes: the module metadata, the
/// intrinsic handles and the context-pointer operand.
pub open spec fn same_context<'a>(pre: CtxType<'a>, post: CtxType<'a>) -> bool {
    &&& post.info == pre.info
    &&& post.intrinsics == pre.intrinsics
    &&& post.ctx_ty == pre.ctx_ty
    &&& post.ctx_ptr_ty == pre.ctx_ptr_ty
    &&& post.ctx_ptr_value == pre.ctx_ptr_value
}

impl<'a> CtxType<'a> {
    /// The instructions emitted so far into the function's body.
    pub open spec fn emitted(self) -> Seq<Instr> {
        self.builder.code@
    }

    /// Every cache entry is faithful to the emitted code.
    pub open spec fn caches_wf(self) -> bool {
        &&& mem_cache_wf(cache_entries(self.cached_memories), self.emitted(), *self.info)
        &&& table_cache_wf(cache_entries(self.cached_tables), self.emitted(), *self.info)
        &&& sig_cache_wf(cache_entries(self.cached_sigindices), self.emitted(), *self.info)
        &&& global_cache_wf(cache_entries(self.cached_globals), self.emitted(), *self.info)
        &&& func_cache_wf(
            cache_entries(self.cached_imported_functions),
            self.emitted(),
            *self.info,
        )
    }

    /// Accessor well-formedness: the handle table is the declared one, the
    /// context parameter stands at position 0, and every memoized entry is
    /// faithful to the emitted code.
    pub open spec fn wf(self) -> bool {
        &&& self.intrinsics.wf()
        &&& self.ctx_ty == StructTy::Ctx
        &&& self.ctx_ptr_ty == PtrTy::Ctx
        &&& self.ctx_ptr_value == 0
        &&& self.emitted().len() >= 1
        &&& self.emitted()[0] == Instr::CtxParam
        &&& self.caches_wf()
    }

    /// The raw context-pointer operand of the current function.
    pub fn basic(&self) -> (r: usize)
        requires
            self.wf(),
        ensures
            r == 0,
            is_addr(self.emitted(), r as int, AbsVal::CtxAddr),
    {
        proof {
            assert forall|states: Seq<CtxState>|
                states.len() == self.emitted().len() implies #[trigger] val_at(
                self.emitted(),
                states,
                0,
            ) == AbsVal::CtxAddr by {}
        }
        self.ctx_ptr_value
    }

    /// Returns operands for the live base address and bound of the memory the
    /// unified `index` names, materializing and memoizing its access path on
    /// first use.
    ///
    /// For a relocatable memory both returned operands are loads emitted at
    /// this call, through the memoized field pointers: the values read are
    /// the ones the context holds when *this* access executes. For a fixed
    /// memory the returned operands are the loads emitted at the first access
    /// of this index: the values are the ones read then, and nothing is
    /// re-emitted. The bound is in the memory's addressing unit (bytes).
    pub fn memory(&mut self, index: usize) -> (r: (usize, usize))
        requires
            old(self).wf(),
            (index as int) < old(self).info.mem_count(),
        ensures
            final(self).wf(),
            memory_post(*old(self), *final(self), index, r),
    {
        let ghost pre = *self;
        let cached = cache_map_get(&self.cached_memories, index);
        match cached {
            Some(CacheSlot::Memory(MemoryCache::Dynamic { ptr_to_base_ptr, ptr_to_bounds })) => {
                proof {
                    assert(mem_slot_wf(
                        pre.emitted(),
                        *pre.info,
                        index,
                        cache_entries(pre.cached_memories)[index],
                    ));
                }
                let base = self.builder.push(Instr::Load { ptr: ptr_to_base_ptr });
                let bounds = self.builder.push(Instr::Load { ptr: ptr_to_bounds });
                proof {
                    let c1 = pre.emitted();
                    let c2 = self.emitted();
                    let fld = pre.info.mem_field(index as int);
                    let sub = pre.info.mem_sub(index as int);
                    let a_base = AbsVal::DescFieldAddr { field: fld, index: sub, offset: DESC_BASE };
                    let a_bounds = AbsVal::DescFieldAddr {
                        field: fld,
                        index: sub,
                        offset: DESC_BOUNDS,
                    };
                    assert(c2 =~= c1 + seq![
                        (Instr::Load { ptr: ptr_to_base_ptr }),
                        (Instr::Load { ptr: ptr_to_bounds }),
                    ]);
                    assert(c2.take(c1.len() as int) =~= c1);
                    lemma_mem_cache_prefix(cache_entries(self.cached_memories), c1, c2, *self.info);
                    lemma_table_cache_prefix(cache_entries(self.cached_tables), c1, c2, *self.info);
                    lemma_sig_cache_prefix(cache_entries(self.cached_sigindices), c1, c2, *self.info);
                    lemma_global_cache_prefix(cache_entries(self.cached_globals), c1, c2, *self.info);
                    lemma_func_cache_prefix(
                        cache_entries(self.cached_imported_functions),
                        c1,
                        c2,
                        *self.info,
                    );
                    lemma_is_addr_prefix(c1, c2, ptr_to_base_ptr as int, a_base);
                    lemma_is_addr_prefix(c1, c2, ptr_to_bounds as int, a_bounds);
                    assert forall|states: Seq<CtxState>|
                        #![trigger val_at(c2, states, base as int)]
                        #![trigger val_at(c2, states, bounds as int)]
                        states.len() == c2.len() implies (val_at(c2, states, base as int)
                        == load_sem(states[base as int], a_base) && val_at(c2, states, bounds as int)
                        == load_sem(states[bounds as int], a_bounds)) by {
                        assert(val_at(c2, states, ptr_to_base_ptr as int) == a_base);
                        assert(val_at(c2, states, ptr_to_bounds as int) == a_bounds);
                    }
                    assert(is_load_at(c2, base as int, a_base));
                    assert(is_load_at(c2, bounds as int, a_bounds));
                }
                (base, bounds)
            },
            Some(CacheSlot::Memory(MemoryCache::Static { base_ptr, bounds })) => {
                proof {
                    assert(mem_slot_wf(
                        pre.emitted(),
                        *pre.info,
                        index,
                        cache_entries(pre.cached_memories)[index],
                    ));
                }
                (base_ptr, bounds)
            },
            Some(_) => {
                proof {
                    assert(mem_slot_wf(
                        pre.emitted(),
                        *pre.info,
                        index,
                        cache_entries(pre.cached_memories)[index],
                    ));
                    assert(false);
                }
                (0, 0)
            },
            None => {
                let imported = self.info.imported_memories.len();
                let (field, sub, style): (usize, usize, MemoryType) = if index < imported {
                    (FIELD_IMPORTED_MEMORIES, index, self.info.imported_memories[index])
                } else {
                    (
                        FIELD_LOCAL_MEMORIES,
                        index - imported,
                        self.info.memories[index - imported],
                    )
                };
                let p_field = self.builder.push(Instr::GepField {
                    base: self.ctx_ptr_value,
                    field,
                });
                let arr = self.builder.push(Instr::Load { ptr: p_field });
                let elem = self.builder.push(Instr::GepIndex { base: arr, index: sub });
                let desc = self.builder.push(Instr::Load { ptr: elem });
                let p2b = self.builder.push(Instr::GepField { base: desc, field: DESC_BASE });
                let p2bd = self.builder.push(Instr::GepField { base: desc, field: DESC_BOUNDS });
                let base = self.builder.push(Instr::Load { ptr: p2b });
                let bounds = self.builder.push(Instr::Load { ptr: p2bd });
                let is_dynamic = match style {
                    MemoryType::Dynamic => true,
                    _ => false,
                };
                let mc = if is_dynamic {
                    MemoryCache::Dynamic { ptr_to_base_ptr: p2b, ptr_to_bounds: p2bd }
                } else {
                    MemoryCache::Static { base_ptr: base, bounds }
                };
                cache_map_insert(&mut self.cached_memories, index, CacheSlot::Memory(mc));
                proof {
                    let c1 = pre.emitted();
                    let c2 = self.emitted();
                    let n = c1.len() as int;
                    let fld = pre.info.mem_field(index as int);
                    let sub_s = pre.info.mem_sub(index as int);
                    let a_base = AbsVal::DescFieldAddr {
                        field: fld,
                        index: sub_s,
                        offset: DESC_BASE,
                    };
                    let a_bounds = AbsVal::DescFieldAddr {
                        field: fld,
                        index: sub_s,
                        offset: DESC_BOUNDS,
                    };
                    assert(fld == field && sub_s == sub);
                    assert(c2 =~= c1 + mem_path(fld, sub_s, n));
                    assert(c2.take(n) =~= c1);
                    assert forall|states: Seq<CtxState>|
                        #![trigger val_at(c2, states, n + 4)]
                        #![trigger val_at(c2, states, n + 5)]
                        #![trigger val_at(c2, states, n + 6)]
                        #![trigger val_at(c2, states, n + 7)]
                        states.len() == c2.len() implies (val_at(c2, states, n + 4) == a_base
                        && val_at(c2, states, n + 5) == a_bounds && val_at(c2, states, n + 6)
                        == load_sem(states[n + 6], a_base) && val_at(c2, states, n + 7) == load_sem(
                        states[n + 7],
                        a_bounds,
                    )) by {
                        assert(c2[0] == Instr::CtxParam);
                        assert(val_at(c2, states, 0) == AbsVal::CtxAddr);
                        assert(val_at(c2, states, n) == (AbsVal::FieldAddr { field: fld }));
                        assert(val_at(c2, states, n + 1) == (AbsVal::ArrayAddr { field: fld }));
                        assert(val_at(c2, states, n + 2) == (AbsVal::ElemAddr {
                            field: fld,
                            index: sub_s,
                        }));
                        assert(val_at(c2, states, n + 3) == (AbsVal::DescAddr {
                            field: fld,
                            index: sub_s,
                        }));
                        assert(val_at(c2, states, n + 4) == a_base);
                        assert(val_at(c2, states, n + 5) == a_bounds);
                        assert(val_at(c2, states, n + 6) == load_sem(states[n + 6], a_base));
                        assert(val_at(c2, states, n + 7) == load_sem(states[n + 7], a_bounds));
                    }
                    assert(is_addr(c2, n + 4, a_base));
                    assert(is_addr(c2, n + 5, a_bounds));
                    assert(is_load_at(c2, n + 6, a_base));
                    assert(is_load_at(c2, n + 7, a_bounds));
                    lemma_mem_cache_prefix(cache_entries(pre.cached_memories), c1, c2, *pre.info);
                    lemma_table_cache_prefix(cache_entries(self.cached_tables), c1, c2, *pre.info);
                    lemma_sig_cache_prefix(cache_entries(self.cached_sigindices), c1, c2, *pre.info);
                    lemma_global_cache_prefix(cache_entries(self.cached_globals), c1, c2, *pre.info);
                    lemma_func_cache_prefix(
                        cache_entries(self.cached_imported_functions),
                        c1,
                        c2,
                        *pre.info,
                    );
                    assert(mem_slot_wf(c2, *pre.info, index, CacheSlot::Memory(mc)));
                    assert forall|k: usize| #[trigger]
                        cache_entries(self.cached_memories).contains_key(k) implies mem_slot_wf(
                        c2,
                        *pre.info,
                        k,
                        cache_entries(self.cached_memories)[k],
                    ) by {
                        if k != index {
                            assert(cache_entries(pre.cached_memories).contains_key(k));
                            assert(cache_entries(self.cached_memories)[k] == cache_entries(
                                pre.cached_memories,
                            )[k]);
                        }
                    }
                }
                (base, bounds)
            },
        }
    }

    /// Returns operands for the live base address and bound of the table the
    /// unified `index` names. Tables always use the double-indirection
    /// discipline: the memoized entry holds the descriptor's field pointers,
    /// and every call emits fresh loads through them, so the values read are
    /// the ones the context holds when this access executes.
    pub fn table(&mut self, index: usize) -> (r: (usize, usize))
        requires
            old(self).wf(),
            (index as int) < old(self).info.table_count(),
        ensures
            final(self).wf(),
            table_post(*old(self), *final(self), index, r),
    {
        let ghost pre = *self;
        let cached = cache_map_get(&self.cached_tables, index);
        let (p2b, p2bd): (usize, usize) = match cached {
            Some(CacheSlot::Table(tc)) => {
                proof {
                    assert(table_slot_wf(
                        pre.emitted(),
                        *pre.info,
                        index,
                        cache_entries(pre.cached_tables)[index],
                    ));
                }
                (tc.ptr_to_base_ptr, tc.ptr_to_bounds)
            },
            Some(_) => {
                proof {
                    assert(table_slot_wf(
                        pre.emitted(),
                        *pre.info,
                        index,
                        cache_entries(pre.cached_tables)[index],
                    ));
                    assert(false);
                }
                (0, 0)
            },
            None => {
                let imported = self.info.imported_tables;
                let (field, sub): (usize, usize) = if index < imported {
                    (FIELD_IMPORTED_TABLES, index)
                } else {
                    (FIELD_LOCAL_TABLES, index - imported)
                };
                let p_field = self.builder.push(Instr::GepField {
                    base: self.ctx_ptr_value,
                    field,
                });
                let arr = self.builder.push(Instr::Load { ptr: p_field });
                let elem = self.builder.push(Instr::GepIndex { base: arr, index: sub });
                let desc = self.builder.push(Instr::Load { ptr: elem });
                let p2b = self.builder.push(Instr::GepField { base: desc, field: DESC_BASE });
                let p2bd = self.builder.push(Instr::GepField { base: desc, field: DESC_BOUNDS });
                cache_map_insert(
                    &mut self.cached_tables,
                    index,
                    CacheSlot::Table(TableCache { ptr_to_base_ptr: p2b, ptr_to_bounds: p2bd }),
                );
                proof {
                    let c1 = pre.emitted();
                    let c2 = self.emitted();
                    let n = c1.len() as int;
                    let fld = pre.info.table_field(index as int);
                    let sub_s = pre.info.table_sub(index as int);
                    let a_base = AbsVal::DescFieldAddr {
                        field: fld,
                        index: sub_s,
                        offset: DESC_BASE,
                    };
                    let a_bounds = AbsVal::DescFieldAddr {
                        field: fld,
                        index: sub_s,
                        offset: DESC_BOUNDS,
                    };
                    assert(c2 =~= c1 + deref_path(fld, sub_s, n));
                    assert(c2.take(n) =~= c1);
                    assert forall|states: Seq<CtxState>|
                        #![trigger val_at(c2, states, n + 4)]
                        #![trigger val_at(c2, states, n + 5)]
                        states.len() == c2.len() implies (val_at(c2, states, n + 4) == a_base
                        && val_at(c2, states, n + 5) == a_bounds) by {
                        assert(c2[0] == Instr::CtxParam);
                        assert(val_at(c2, states, 0) == AbsVal::CtxAddr);
                        assert(val_at(c2, states, n) == (AbsVal::FieldAddr { field: fld }));
                        assert(val_at(c2, states, n + 1) == (AbsVal::ArrayAddr { field: fld }));
                        assert(val_at(c2, states, n + 2) == (AbsVal::ElemAddr {
                            field: fld,
                            index: sub_s,
                        }));
                        assert(val_at(c2, states, n + 3) == (AbsVal::DescAddr {
                            field: fld,
                            index: sub_s,
                        }));
                        assert(val_at(c2, states, n + 4) == a_base);
                        assert(val_at(c2, states, n + 5) == a_bounds);
                    }
                    assert(is_addr(c2, n + 4, a_base));
                    assert(is_addr(c2, n + 5, a_bounds));
                    lemma_mem_cache_prefix(cache_entries(self.cached_memories), c1, c2, *pre.info);
                    lemma_table_cache_prefix(cache_entries(pre.cached_tables), c1, c2, *pre.info);
                    lemma_sig_cache_prefix(cache_entries(self.cached_sigindices), c1, c2, *pre.info);
                    lemma_global_cache_prefix(cache_entries(self.cached_globals), c1, c2, *pre.info);
                    lemma_func_cache_prefix(
                        cache_entries(self.cached_imported_functions),
                        c1,
                        c2,
                        *pre.info,
                    );
                    assert forall|k: usize| #[trigger]
                        cache_entries(self.cached_tables).contains_key(k) implies table_slot_wf(
                        c2,
                        *pre.info,
                        k,
                        cache_entries(self.cached_tables)[k],
                    ) by {
                        if k != index {
                            assert(cache_entries(pre.cached_tables).contains_key(k));
                            assert(cache_entries(self.cached_tables)[k] == cache_entries(
                                pre.cached_tables,
                            )[k]);
                        }
                    }
                }
                (p2b, p2bd)
            },
        };
        let ghost mid = *self;
        let base = self.builder.push(Instr::Load { ptr: p2b });
        let bounds = self.builder.push(Instr::Load { ptr: p2bd });
        proof {
            let c1 = mid.emitted();
            let c2 = self.emitted();
            let fld = pre.info.table_field(index as int);
            let sub = pre.info.table_sub(index as int);
            let a_base = AbsVal::DescFieldAddr { field: fld, index: sub, offset: DESC_BASE };
            let a_bounds = AbsVal::DescFieldAddr { field: fld, index: sub, offset: DESC_BOUNDS };
            assert(c2 =~= c1 + seq![(Instr::Load { ptr: p2b }), (Instr::Load { ptr: p2bd })]);
            assert(c2.take(c1.len() as int) =~= c1);
            if !cache_entries(pre.cached_tables).contains_key(index) {
                assert(c2 =~= pre.emitted() + mem_path(fld, sub, pre.emitted().len() as int));
            }
            lemma_mem_cache_prefix(cache_entries(self.cached_memories), c1, c2, *pre.info);
            lemma_table_cache_prefix(cache_entries(self.cached_tables), c1, c2, *pre.info);
            lemma_sig_cache_prefix(cache_entries(self.cached_sigindices), c1, c2, *pre.info);
            lemma_global_cache_prefix(cache_entries(self.cached_globals), c1, c2, *pre.info);
            lemma_func_cache_prefix(
                cache_entries(self.cached_imported_functions),
                c1,
                c2,
                *pre.info,
            );
            lemma_is_addr_prefix(c1, c2, p2b as int, a_base);
            lemma_is_addr_prefix(c1, c2, p2bd as int, a_bounds);
            assert forall|states: Seq<CtxState>|
                #![trigger val_at(c2, states, base as int)]
                #![trigger val_at(c2, states, bounds as int)]
                states.len() == c2.len() implies (val_at(c2, states, base as int) == load_sem(
                states[base as int],
                a_base,
            ) && val_at(c2, states, bounds as int) == load_sem(states[bounds as int], a_bounds)) by {
                assert(val_at(c2, states, p2b as int) == a_base);
                assert(val_at(c2, states, p2bd as int) == a_bounds);
            }
            assert(is_load_at(c2, base as int, a_base));
            assert(is_load_at(c2, bounds as int, a_bounds));
        }
        (base, bounds)
    }

    /// Returns the operand holding the runtime signature identifier of the
    /// module-wide signature `index`, loading it through the context's
    /// signature array once per distinct index and reusing the loaded value
    /// afterwards; used to type-check indirect call targets.
    pub fn dynamic_sigindex(&mut self, index: usize) -> (r: usize)
        requires
            old(self).wf(),
            index < old(self).info.signatures,
        ensures
            final(self).wf(),
            sigindex_post(*old(self), *final(self), index, r),
    {
        let ghost pre = *self;
        let cached = cache_map_get(&self.cached_sigindices, index);
        match cached {
            Some(CacheSlot::Sig(id)) => {
                proof {
                    assert(sig_slot_wf(
                        pre.emitted(),
                        *pre.info,
                        index,
                        cache_entries(pre.cached_sigindices)[index],
                    ));
                }
                id
            },
            Some(_) => {
                proof {
                    assert(sig_slot_wf(
                        pre.emitted(),
                        *pre.info,
                        index,
                        cache_entries(pre.cached_sigindices)[index],
                    ));
                    assert(false);
                }
                0
            },
            None => {
                let p_field = self.builder.push(Instr::GepField {
                    base: self.ctx_ptr_value,
                    field: FIELD_SIGINDICES,
                });
                let arr = self.builder.push(Instr::Load { ptr: p_field });
                let elem = self.builder.push(Instr::GepIndex { base: arr, index });
                let id = self.builder.push(Instr::Load { ptr: elem });
                cache_map_insert(&mut self.cached_sigindices, index, CacheSlot::Sig(id));
                proof {
                    let c1 = pre.emitted();
                    let c2 = self.emitted();
                    let n = c1.len() as int;
                    let a = AbsVal::ElemAddr { field: FIELD_SIGINDICES, index };
                    assert(c2 =~= c1 + sig_path(index, n));
                    assert(c2.take(n) =~= c1);
                    assert forall|states: Seq<CtxState>|
                        states.len() == c2.len() implies #[trigger] val_at(c2, states, n + 3)
                        == load_sem(states[n + 3], a) by {
                        assert(c2[0] == Instr::CtxParam);
                        assert(val_at(c2, states, 0) == AbsVal::CtxAddr);
                        assert(val_at(c2, states, n) == (AbsVal::FieldAddr {
                            field: FIELD_SIGINDICES,
                        }));
                        assert(val_at(c2, states, n + 1) == (AbsVal::ArrayAddr {
                            field: FIELD_SIGINDICES,
                        }));
                        assert(val_at(c2, states, n + 2) == a);
                        assert(val_at(c2, states, n + 3) == load_sem(states[n + 3], a));
                    }
                    assert(is_load_at(c2, n + 3, a));
                    lemma_mem_cache_prefix(cache_entries(self.cached_memories), c1, c2, *pre.info);
                    lemma_table_cache_prefix(cache_entries(self.cached_tables), c1, c2, *pre.info);
                    lemma_sig_cache_prefix(cache_entries(pre.cached_sigindices), c1, c2, *pre.info);
                    lemma_global_cache_prefix(cache_entries(self.cached_globals), c1, c2, *pre.info);
                    lemma_func_cache_prefix(
                        cache_entries(self.cached_imported_functions),
                        c1,
                        c2,
                        *pre.info,
                    );
                    assert forall|k: usize| #[trigger]
                        cache_entries(self.cached_sigindices).contains_key(k) implies sig_slot_wf(
                        c2,
                        *pre.info,
                        k,
                        cache_entries(self.cached_sigindices)[k],
                    ) by {
                        if k != index {
                            assert(cache_entries(pre.cached_sigindices).contains_key(k));
                            assert(cache_entries(self.cached_sigindices)[k] == cache_entries(
                                pre.cached_sigindices,
                            )[k]);
                        }
                    }
                }
                id
            },
        }
    }

    /// Resolves the global the unified `index` names and returns how generated
    /// code must reference it: a mutable global yields the typed storage
    /// pointer (loads and stores go through it on every reference), an
    /// immutable one yields the operand of a value loaded once, valid for the
    /// module instance's lifetime. The pointer's pointee type matches the
    /// global's declared value type's width exactly.
    pub fn global_cache(&mut self, index: usize) -> (r: GlobalCache)
        requires
            old(self).wf(),
            (index as int) < old(self).info.global_count(),
        ensures
            final(self).wf(),
            global_post(*old(self), *final(self), index, r),
    {
        let ghost pre = *self;
        let cached = cache_map_get(&self.cached_globals, index);
        match cached {
            Some(CacheSlot::Global(g)) => {
                proof {
                    assert(global_slot_wf(
                        pre.emitted(),
                        *pre.info,
                        index,
                        cache_entries(pre.cached_globals)[index],
                    ));
                }
                g
            },
            Some(_) => {
                proof {
                    assert(global_slot_wf(
                        pre.emitted(),
                        *pre.info,
                        index,
                        cache_entries(pre.cached_globals)[index],
                    ));
                    assert(false);
                }
                GlobalCache::Const { value: 0 }
            },
            None => {
                let imported = self.info.imported_globals.len();
                let (field, sub, desc): (usize, usize, GlobalDesc) = if index < imported {
                    (FIELD_IMPORTED_GLOBALS, index, self.info.imported_globals[index])
                } else {
                    (
                        FIELD_LOCAL_GLOBALS,
                        index - imported,
                        self.info.globals[index - imported],
                    )
                };
                let llvm_ptr_ty = type_to_llvm_ptr(self.intrinsics, desc.ty);
                let p_field = self.builder.push(Instr::GepField {
                    base: self.ctx_ptr_value,
                    field,
                });
                let arr = self.builder.push(Instr::Load { ptr: p_field });
                let elem = self.builder.push(Instr::GepIndex { base: arr, index: sub });
                let slot_ptr = self.builder.push(Instr::Load { ptr: elem });
                let as_int = self.builder.push(Instr::PtrToInt { ptr: slot_ptr });
                let typed = self.builder.push(Instr::IntToPtr { val: as_int, ty: llvm_ptr_ty });
                proof {
                    let c1 = pre.emitted();
                    let c2 = self.emitted();
                    let n = c1.len() as int;
                    let fld = pre.info.global_field(index as int);
                    let sub_s = pre.info.global_sub(index as int);
                    let pty = ptr_ty_of(pre.info.global_desc(index as int).ty);
                    let a = AbsVal::TypedSlotAddr { field: fld, index: sub_s, ty: pty };
                    assert(c2 =~= c1 + global_path(fld, sub_s, pty, n));
                    assert(c2.take(n) =~= c1);
                    assert forall|states: Seq<CtxState>|
                        states.len() == c2.len() implies #[trigger] val_at(c2, states, n + 5)
                        == a by {
                        assert(c2[0] == Instr::CtxParam);
                        assert(val_at(c2, states, 0) == AbsVal::CtxAddr);
                        assert(val_at(c2, states, n) == (AbsVal::FieldAddr { field: fld }));
                        assert(val_at(c2, states, n + 1) == (AbsVal::ArrayAddr { field: fld }));
                        assert(val_at(c2, states, n + 2) == (AbsVal::ElemAddr {
                            field: fld,
                            index: sub_s,
                        }));
                        assert(val_at(c2, states, n + 3) == (AbsVal::DescAddr {
                            field: fld,
                            index: sub_s,
                        }));
                        assert(val_at(c2, states, n + 4) == (AbsVal::SlotInt {
                            field: fld,
                            index: sub_s,
                        }));
                        assert(val_at(c2, states, n + 5) == a);
                    }
                    assert(is_addr(c2, n + 5, a));
                }
                let r: GlobalCache = if desc.mutable {
                    GlobalCache::Mut { ptr_to_value: typed }
                } else {
                    let ghost mid = *self;
                    let value = self.builder.push(Instr::Load { ptr: typed });
                    proof {
                        let c1 = mid.emitted();
                        let c2 = self.emitted();
                        let fld = pre.info.global_field(index as int);
                        let sub_s = pre.info.global_sub(index as int);
                        let pty = ptr_ty_of(pre.info.global_desc(index as int).ty);
                        let a = AbsVal::TypedSlotAddr { field: fld, index: sub_s, ty: pty };
                        assert(c2 =~= c1 + seq![(Instr::Load { ptr: typed })]);
                        assert(c2.take(c1.len() as int) =~= c1);
                        lemma_is_addr_prefix(c1, c2, typed as int, a);
                        assert forall|states: Seq<CtxState>|
                            states.len() == c2.len() implies #[trigger] val_at(
                            c2,
                            states,
                            value as int,
                        ) == load_sem(states[value as int], a) by {
                            assert(val_at(c2, states, typed as int) == a);
                        }
                        assert(is_load_at(c2, value as int, a));
                    }
                    GlobalCache::Const { value }
                };
                cache_map_insert(&mut self.cached_globals, index, CacheSlot::Global(r));
                proof {
                    let c1 = pre.emitted();
                    let c2 = self.emitted();
                    assert(c2.take(c1.len() as int) =~= c1);
                    lemma_mem_cache_prefix(cache_entries(self.cached_memories), c1, c2, *pre.info);
                    lemma_table_cache_prefix(cache_entries(self.cached_tables), c1, c2, *pre.info);
                    lemma_sig_cache_prefix(cache_entries(self.cached_sigindices), c1, c2, *pre.info);
                    lemma_global_cache_prefix(cache_entries(pre.cached_globals), c1, c2, *pre.info);
                    lemma_func_cache_prefix(
                        cache_entries(self.cached_imported_functions),
                        c1,
                        c2,
                        *pre.info,
                    );
                    assert(global_slot_wf(c2, *pre.info, index, CacheSlot::Global(r)));
                    assert forall|k: usize| #[trigger]
                        cache_entries(self.cached_globals).contains_key(k) implies global_slot_wf(
                        c2,
                        *pre.info,
                        k,
                        cache_entries(self.cached_globals)[k],
                    ) by {
                        if k != index {
                            assert(cache_entries(pre.cached_globals).contains_key(k));
                            assert(cache_entries(self.cached_globals)[k] == cache_entries(
                                pre.cached_globals,
                            )[k]);
                        }
                    }
                }
                r
            },
        }
    }

    /// Returns the operands needed for a direct call into the imported
    /// function `index`: its code pointer and its own context pointer, both
    /// loaded once from the context's imported-function descriptor array and
    /// reused on every later reference. The callee runs with its own context,
    /// never the caller's.
    pub fn imported_func(&mut self, index: usize) -> (r: (usize, usize))
        requires
            old(self).wf(),
            index < old(self).info.imported_functions,
        ensures
            final(self).wf(),
            imported_func_post(*old(self), *final(self), index, r),
    {
        let ghost pre = *self;
        let cached = cache_map_get(&self.cached_imported_functions, index);
        match cached {
            Some(CacheSlot::ImportedFunc(fc)) => {
                proof {
                    assert(func_slot_wf(
                        pre.emitted(),
                        *pre.info,
                        index,
                        cache_entries(pre.cached_imported_functions)[index],
                    ));
                }
                (fc.func_ptr, fc.ctx_ptr)
            },
            Some(_) => {
                proof {
                    assert(func_slot_wf(
                        pre.emitted(),
                        *pre.info,
                        index,
                        cache_entries(pre.cached_imported_functions)[index],
                    ));
                    assert(false);
                }
                (0, 0)
            },
            None => {
                let p_field = self.builder.push(Instr::GepField {
                    base: self.ctx_ptr_value,
                    field: FIELD_IMPORTED_FUNCS,
                });
                let arr = self.builder.push(Instr::Load { ptr: p_field });
                let elem = self.builder.push(Instr::GepIndex { base: arr, index });
                let desc = self.builder.push(Instr::Load { ptr: elem });
                let p_func = self.builder.push(Instr::GepField { base: desc, field: FUNC_PTR });
                let p_ctx = self.builder.push(Instr::GepField { base: desc, field: FUNC_CTX });
                let func_ptr = self.builder.push(Instr::Load { ptr: p_func });
                let ctx_ptr = self.builder.push(Instr::Load { ptr: p_ctx });
                cache_map_insert(
                    &mut self.cached_imported_functions,
                    index,
                    CacheSlot::ImportedFunc(ImportedFuncCache { func_ptr, ctx_ptr }),
                );
                proof {
                    let c1 = pre.emitted();
                    let c2 = self.emitted();
                    let n = c1.len() as int;
                    let a_func = AbsVal::DescFieldAddr {
                        field: FIELD_IMPORTED_FUNCS,
                        index,
                        offset: FUNC_PTR,
                    };
                    let a_ctx = AbsVal::DescFieldAddr {
                        field: FIELD_IMPORTED_FUNCS,
                        index,
                        offset: FUNC_CTX,
                    };
                    assert(c2 =~= c1 + func_path(index, n));
                    assert(c2.take(n) =~= c1);
                    assert forall|states: Seq<CtxState>|
                        #![trigger val_at(c2, states, n + 6)]
                        #![trigger val_at(c2, states, n + 7)]
                        states.len() == c2.len() implies (val_at(c2, states, n + 6) == load_sem(
                        states[n + 6],
                        a_func,
                    ) && val_at(c2, states, n + 7) == load_sem(states[n + 7], a_ctx)) by {
                        assert(c2[0] == Instr::CtxParam);
                        assert(val_at(c2, states, 0) == AbsVal::CtxAddr);
                        assert(val_at(c2, states, n) == (AbsVal::FieldAddr {
                            field: FIELD_IMPORTED_FUNCS,
                        }));
                        assert(val_at(c2, states, n + 1) == (AbsVal::ArrayAddr {
                            field: FIELD_IMPORTED_FUNCS,
                        }));
                        assert(val_at(c2, states, n + 2) == (AbsVal::ElemAddr {
                            field: FIELD_IMPORTED_FUNCS,
                            index,
                        }));
                        assert(val_at(c2, states, n + 3) == (AbsVal::DescAddr {
                            field: FIELD_IMPORTED_FUNCS,
                            index,
                        }));
                        assert(val_at(c2, states, n + 4) == a_func);
                        assert(val_at(c2, states, n + 5) == a_ctx);
                        assert(val_at(c2, states, n + 6) == load_sem(states[n + 6], a_func));
                        assert(val_at(c2, states, n + 7) == load_sem(states[n + 7], a_ctx));
                    }
                    assert(is_load_at(c2, n + 6, a_func));
                    assert(is_load_at(c2, n + 7, a_ctx));
                    lemma_mem_cache_prefix(cache_entries(self.cached_memories), c1, c2, *pre.info);
                    lemma_table_cache_prefix(cache_entries(self.cached_tables), c1, c2, *pre.info);
                    lemma_sig_cache_prefix(cache_entries(self.cached_sigindices), c1, c2, *pre.info);
                    lemma_global_cache_prefix(cache_entries(self.cached_globals), c1, c2, *pre.info);
                    lemma_func_cache_prefix(
                        cache_entries(pre.cached_imported_functions),
                        c1,
                        c2,
                        *pre.info,
                    );
                    assert forall|k: usize| #[trigger]
                        cache_entries(self.cached_imported_functions).contains_key(
                        k,
                    ) implies func_slot_wf(
                        c2,
                        *pre.info,
                        k,
                        cache_entries(self.cached_imported_functions)[k],
                    ) by {
                        if k != index {
                            assert(cache_entries(pre.cached_imported_functions).contains_key(k));
                            assert(cache_entries(self.cached_imported_functions)[k]
                                == cache_entries(pre.cached_imported_functions)[k]);
                        }
                    }
                }
                (func_ptr, ctx_ptr)
            },
        }
    }

    /// Emits a call to the unconditional trap entry point: execution of the
    /// generated code terminates abnormally there, and code emitted after it
    /// is unreachable.
    pub fn build_trap(&mut self)
        requires
            old(self).wf(),
        ensures
            final(self).wf(),
            same_context(*old(self), *final(self)),
            final(self).emitted() == old(self).emitted() + seq![
                (Instr::Call { sym: old(self).intrinsics.trap }),
            ],
            cache_entries(final(self).cached_memories) == cache_entries(old(self).cached_memories),
            cache_entries(final(self).cached_tables) == cache_entries(old(self).cached_tables),
            cache_entries(final(self).cached_sigindices) == cache_entries(
                old(self).cached_sigindices,
            ),
            cache_entries(final(self).cached_globals) == cache_entries(old(self).cached_globals),
            cache_entries(final(self).cached_imported_functions) == cache_entries(
                old(self).cached_imported_functions,
            ),
    {
        let ghost pre = *self;
        let sym = self.intrinsics.trap;
        self.builder.push(Instr::Call { sym });
        proof {
            let c1 = pre.emitted();
            let c2 = self.emitted();
            assert(c2 =~= c1 + seq![(Instr::Call { sym })]);
            assert(c2.take(c1.len() as int) =~= c1);
            lemma_mem_cache_prefix(cache_entries(self.cached_memories), c1, c2, *pre.info);
            lemma_table_cache_prefix(cache_entries(self.cached_tables), c1, c2, *pre.info);
            lemma_sig_cache_prefix(cache_entries(self.cached_sigindices), c1, c2, *pre.info);
            lemma_global_cache_prefix(cache_entries(self.cached_globals), c1, c2, *pre.info);
            lemma_func_cache_prefix(
                cache_entries(self.cached_imported_functions),
                c1,
                c2,
                *pre.info,
            );
        }
    }
}

/// Full account of one [`CtxType::memory`] call: how the emitted code grew,
/// what the cache now holds, and what the returned operands denote.
pub open spec fn memory_post<'a>(
    pre: CtxType<'a>,
    post: CtxType<'a>,
    index: usize,
    r: (usize, usize),
) -> bool {
    let info = *pre.info;
    let fld = info.mem_field(index as int);
    let sub = info.mem_sub(index as int);
    let pre_entries = cache_entries(pre.cached_memories);
    let n = pre.emitted().len() as int;
    &&& same_context(pre, post)
    &&& cache_entries(post.cached_tables) == cache_entries(pre.cached_tables)
    &&& cache_entries(post.cached_sigindices) == cache_entries(pre.cached_sigindices)
    &&& cache_entries(post.cached_globals) == cache_entries(pre.cached_globals)
    &&& cache_entries(post.cached_imported_functions) == cache_entries(
        pre.cached_imported_functions,
    )
    &&& is_load_at(
        post.emitted(),
        r.0 as int,
        (AbsVal::DescFieldAddr { field: fld, index: sub, offset: DESC_BASE }),
    )
    &&& is_load_at(
        post.emitted(),
        r.1 as int,
        (AbsVal::DescFieldAddr { field: fld, index: sub, offset: DESC_BOUNDS }),
    )
    &&& (info.mem_style(index as int) == MemoryType::Dynamic ==> r.0 as int >= n && r.1 as int
        >= n)
    &&& if pre_entries.contains_key(index) {
        &&& cache_entries(post.cached_memories) == pre_entries
        &&& match pre_entries[index] {
            CacheSlot::Memory(MemoryCache::Dynamic { ptr_to_base_ptr, ptr_to_bounds }) => {
                &&& post.emitted() == pre.emitted() + seq![
                    (Instr::Load { ptr: ptr_to_base_ptr }),
                    (Instr::Load { ptr: ptr_to_bounds }),
                ]
                &&& r.0 as int == n && r.1 as int == n + 1
            },
            CacheSlot::Memory(MemoryCache::Static { base_ptr, bounds }) => {
                &&& post.emitted() == pre.emitted()
                &&& r.0 == base_ptr && r.1 == bounds
            },
            _ => false,
        }
    } else {
        &&& post.emitted() == pre.emitted() + mem_path(fld, sub, n)
        &&& r.0 as int == n + 6 && r.1 as int == n + 7
        &&& cache_entries(post.cached_memories) == pre_entries.insert(
            index,
            CacheSlot::Memory(
                if info.mem_style(index as int) == MemoryType::Dynamic {
                    (MemoryCache::Dynamic {
                        ptr_to_base_ptr: (n + 4) as usize,
                        ptr_to_bounds: (n + 5) as usize,
                    })
                } else {
                    (MemoryCache::Static { base_ptr: (n + 6) as usize, bounds: (n + 7) as usize })
                },
            ),
        )
    }
}

/// Full account of one [`CtxType::table`] call: the memoized entry holds the
/// descriptor's field pointers, and both returned operands are loads emitted
/// at this call, so every access reads the live base and bound.
pub open spec fn table_post<'a>(
    pre: CtxType<'a>,
    post: CtxType<'a>,
    index: usize,
    r: (usize, usize),
) -> bool {
    let info = *pre.info;
    let fld = info.table_field(index as int);
    let sub = info.table_sub(index as int);
    let pre_entries = cache_entries(pre.cached_tables);
    let n = pre.emitted().len() as int;
    &&& same_context(pre, post)
    &&& cache_entries(post.cached_memories) == cache_entries(pre.cached_memories)
    &&& cache_entries(post.cached_sigindices) == cache_entries(pre.cached_sigindices)
    &&& cache_entries(post.cached_globals) == cache_entries(pre.cached_globals)
    &&& cache_entries(post.cached_imported_functions) == cache_entries(
        pre.cached_imported_functions,
    )
    &&& is_load_at(
        post.emitted(),
        r.0 as int,
        (AbsVal::DescFieldAddr { field: fld, index: sub, offset: DESC_BASE }),
    )
    &&& is_load_at(
        post.emitted(),
        r.1 as int,
        (AbsVal::DescFieldAddr { field: fld, index: sub, offset: DESC_BOUNDS }),
    )
    &&& r.0 as int >= n && r.1 as int >= n
    &&& if pre_entries.contains_key(index) {
        &&& cache_entries(post.cached_tables) == pre_entries
        &&& match pre_entries[index] {
            CacheSlot::Table(tc) => {
                &&& post.emitted() == pre.emitted() + seq![
                    (Instr::Load { ptr: tc.ptr_to_base_ptr }),
                    (Instr::Load { ptr: tc.ptr_to_bounds }),
                ]
                &&& r.0 as int == n && r.1 as int == n + 1
            },
            _ => false,
        }
    } else {
        &&& post.emitted() == pre.emitted() + mem_path(fld, sub, n)
        &&& r.0 as int == n + 6 && r.1 as int == n + 7
        &&& cache_entries(post.cached_tables) == pre_entries.insert(
            index,
            CacheSlot::Table(
                (TableCache {
                    ptr_to_base_ptr: (n + 4) as usize,
                    ptr_to_bounds: (n + 5) as usize,
                }),
            ),
        )
    }
}

/// Full account of one [`CtxType::dynamic_sigindex`] call: the identifier is
/// loaded once per distinct index and the cached operand is returned
/// unchanged afterwards.
pub open spec fn sigindex_post<'a>(
    pre: CtxType<'a>,
    post: CtxType<'a>,
    index: usize,
    r: usize,
) -> bool {
    let pre_entries = cache_entries(pre.cached_sigindices);
    let n = pre.emitted().len() as int;
    &&& same_context(pre, post)
    &&& cache_entries(post.cached_memories) == cache_entries(pre.cached_memories)
    &&& cache_entries(post.cached_tables) == cache_entries(pre.cached_tables)
    &&& cache_entries(post.cached_globals) == cache_entries(pre.cached_globals)
    &&& cache_entries(post.cached_imported_functions) == cache_entries(
        pre.cached_imported_functions,
    )
    &&& is_load_at(
        post.emitted(),
        r as int,
        (AbsVal::ElemAddr { field: FIELD_SIGINDICES, index }),
    )
    &&& if pre_entries.contains_key(index) {
        &&& cache_entries(post.cached_sigindices) == pre_entries
        &&& post.emitted() == pre.emitted()
        &&& pre_entries[index] == CacheSlot::Sig(r)
    } else {
        &&& post.emitted() == pre.emitted() + sig_path(index, n)
        &&& r as int == n + 3
        &&& cache_entries(post.cached_sigindices) == pre_entries.insert(index, CacheSlot::Sig(r))
    }
}

/// Full account of one [`CtxType::global_cache`] call: a mutable global
/// yields a storage pointer typed to its declared width, an immutable one
/// yields a value loaded once; either is memoized and returned unchanged on
/// every later call.
pub open spec fn global_post<'a>(
    pre: CtxType<'a>,
    post: CtxType<'a>,
    index: usize,
    r: GlobalCache,
) -> bool {
    let info = *pre.info;
    let fld = info.global_field(index as int);
    let sub = info.global_sub(index as int);
    let pty = ptr_ty_of(info.global_desc(index as int).ty);
    let pre_entries = cache_entries(pre.cached_globals);
    let n = pre.emitted().len() as int;
    &&& same_context(pre, post)
    &&& cache_entries(post.cached_memories) == cache_entries(pre.cached_memories)
    &&& cache_entries(post.cached_tables) == cache_entries(pre.cached_tables)
    &&& cache_entries(post.cached_sigindices) == cache_entries(pre.cached_sigindices)
    &&& cache_entries(post.cached_imported_functions) == cache_entries(
        pre.cached_imported_functions,
    )
    &&& match r {
        GlobalCache::Mut { ptr_to_value } => {
            &&& info.global_desc(index as int).mutable
            &&& is_addr(
                post.emitted(),
                ptr_to_value as int,
                (AbsVal::TypedSlotAddr { field: fld, index: sub, ty: pty }),
            )
        },
        GlobalCache::Const { value } => {
            &&& !info.global_desc(index as int).mutable
            &&& is_load_at(
                post.emitted(),
                value as int,
                (AbsVal::TypedSlotAddr { field: fld, index: sub, ty: pty }),
            )
        },
    }
    &&& if pre_entries.contains_key(index) {
        &&& cache_entries(post.cached_globals) == pre_entries
        &&& post.emitted() == pre.emitted()
        &&& pre_entries[index] == CacheSlot::Global(r)
    } else {
        &&& cache_entries(post.cached_globals) == pre_entries.insert(
            index,
            CacheSlot::Global(r),
        )
        &&& if info.global_desc(index as int).mutable {
            &&& post.emitted() == pre.emitted() + global_path(fld, sub, pty, n)
            &&& r == (GlobalCache::Mut { ptr_to_value: (n + 5) as usize })
        } else {
            &&& post.emitted() == pre.emitted() + global_path(fld, sub, pty, n) + seq![
                (Instr::Load { ptr: (n + 5) as usize }),
            ]
            &&& r == (GlobalCache::Const { value: (n + 6) as usize })
        }
    }
}

/// Full account of one [`CtxType::imported_func`] call: the code pointer and
/// callee context pointer are loaded once from the descriptor and the cached
/// operands are returned unchanged afterwards.
pub open spec fn imported_func_post<'a>(
    pre: CtxType<'a>,
    post: CtxType<'a>,
    index: usize,
    r: (usize, usize),
) -> bool {
    let pre_entries = cache_entries(pre.cached_imported_functions);
    let n = pre.emitted().len() as int;
    &&& same_context(pre, post)
    &&& cache_entries(post.cached_memories) == cache_entries(pre.cached_memories)
    &&& cache_entries(post.cached_tables) == cache_entries(pre.cached_tables)
    &&& cache_entries(post.cached_sigindices) == cache_entries(pre.cached_sigindices)
    &&& cache_entries(post.cached_globals) == cache_entries(pre.cached_globals)
    &&& is_load_at(
        post.emitted(),
        r.0 as int,
        (AbsVal::DescFieldAddr { field: FIELD_IMPORTED_FUNCS, index, offset: FUNC_PTR }),
    )
    &&& is_load_at(
        post.emitted(),
        r.1 as int,
        (AbsVal::DescFieldAddr { field: FIELD_IMPORTED_FUNCS, index, offset: FUNC_CTX }),
    )
    &&& if pre_entries.contains_key(index) {
        &&& cache_entries(post.cached_imported_functions) == pre_entries
        &&& post.emitted() == pre.emitted()
        &&& pre_entries[index] == CacheSlot::ImportedFunc(
            (ImportedFuncCache { func_ptr: r.0, ctx_ptr: r.1 }),
        )
    } else {
        &&& post.emitted() == pre.emitted() + func_path(index, n)
        &&& r.0 as int == n + 6 && r.1 as int == n + 7
        &&& cache_entries(post.cached_imported_functions) == pre_entries.insert(
            index,
            CacheSlot::ImportedFunc((ImportedFuncCache { func_ptr: r.0, ctx_ptr: r.1 })),
        )
    }
}

impl Intrinsics {
    /// Builds the accessor for one function being compiled, bound to that
    /// function's context-pointer parameter (position 0 of the fresh body).
    /// All caches start empty.
    pub fn ctx<'a>(&'a self, info: &'a ModuleInfo) -> (c: CtxType<'a>)
        requires
            self.wf(),
        ensures
            c.wf(),
            c.info == info,
            c.intrinsics == self,
            c.emitted() =~= seq![Instr::CtxParam],
            cache_entries(c.cached_memories) == Map::<usize, CacheSlot>::empty(),
            cache_entries(c.cached_tables) == Map::<usize, CacheSlot>::empty(),
            cache_entries(c.cached_sigindices) == Map::<usize, CacheSlot>::empty(),
            cache_entries(c.cached_globals) == Map::<usize, CacheSlot>::empty(),
            cache_entries(c.cached_imported_functions) == Map::<usize, CacheSlot>::empty(),
    {
        let c = CtxType {
            ctx_ty: self.ctx_ty,
            ctx_ptr_ty: self.ctx_ptr_ty,
            ctx_ptr_value: 0,
            builder: FuncBuilder::new_function(),
            intrinsics: self,
            info,
            cached_memories: cache_map_new(),
            cached_tables: cache_map_new(),
            cached_sigindices: cache_map_new(),
            cached_globals: cache_map_new(),
            cached_imported_functions: cache_map_new(),
        };
        proof {
            assert(cache_entries(c.cached_memories) =~= Map::<usize, CacheSlot>::empty());
            assert(cache_entries(c.cached_tables) =~= Map::<usize, CacheSlot>::empty());
            assert(cache_entries(c.cached_sigindices) =~= Map::<usize, CacheSlot>::empty());
            assert(cache_entries(c.cached_globals) =~= Map::<usize, CacheSlot>::empty());
            assert(cache_entries(c.cached_imported_functions) =~= Map::<
                usize,
                CacheSlot,
            >::empty());
        }
        c
    }
}

} // verus!
