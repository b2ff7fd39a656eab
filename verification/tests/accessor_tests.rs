//! Behaviour of the execution-context accessor: caching policy, disciplines,
//! field selection, and the runtime meaning of the emitted code.

use llvm_backend::ctx::GlobalCache;
use llvm_backend::intrinsics::{CompilationUnit, Intrinsics};
use llvm_backend::ir::{eval_code, AbsVal, CtxState, FuncDesc, Instr, MemDesc};
use llvm_backend::module_info::{local_or_import, GlobalDesc, LocalOrImport, ModuleInfo};
use llvm_backend::types::{MemoryType, PtrTy, WasmTy};

fn empty_info() -> ModuleInfo {
    ModuleInfo {
        memories: vec![],
        imported_memories: vec![],
        tables: 0,
        imported_tables: 0,
        globals: vec![],
        imported_globals: vec![],
        imported_functions: 0,
        signatures: 0,
    }
}

fn empty_state() -> CtxState {
    CtxState {
        local_memories: vec![],
        local_tables: vec![],
        local_globals: vec![],
        imported_memories: vec![],
        imported_tables: vec![],
        imported_globals: vec![],
        imported_funcs: vec![],
        sigindices: vec![],
    }
}

fn declared() -> Intrinsics {
    let mut unit = CompilationUnit::new();
    Intrinsics::declare(&mut unit)
}

/// The evaluator refuses ill-formed operand references and out-of-range
/// reads instead of producing a value.
#[test]
fn evaluator_rejects_ill_formed_code() {
    let code = vec![
        Instr::CtxParam,
        Instr::GepField { base: 0, field: 9 }, // no such context field
        Instr::Load { ptr: 3 },                // forward reference
        Instr::GepField { base: 0, field: 7 },
        Instr::Load { ptr: 3 },
        Instr::GepIndex { base: 4, index: 2 },
        Instr::Load { ptr: 5 },                // signature array holds 1 entry
    ];
    let mut states: Vec<CtxState> = Vec::new();
    for _ in 0..code.len() {
        states.push(CtxState {
            sigindices: vec![7],
            ..empty_state()
        });
    }
    let vals = eval_code(&code, &states);
    assert_eq!(vals[1], AbsVal::Bot);
    assert_eq!(vals[2], AbsVal::Bot);
    assert_eq!(vals[6], AbsVal::Bot);
}

#[test]
fn resolution_imports_come_first() {
    assert_eq!(local_or_import(0, 2), LocalOrImport::Import(0));
    assert_eq!(local_or_import(1, 2), LocalOrImport::Import(1));
    assert_eq!(local_or_import(2, 2), LocalOrImport::Local(0));
    assert_eq!(local_or_import(5, 2), LocalOrImport::Local(3));
    assert_eq!(local_or_import(0, 0), LocalOrImport::Local(0));
}

#[test]
fn basic_returns_context_parameter() {
    let intrinsics = declared();
    let info = empty_info();
    let ctx = intrinsics.ctx(&info);
    assert_eq!(ctx.basic(), 0);
    assert_eq!(ctx.builder.code, vec![Instr::CtxParam]);
}

#[test]
fn build_trap_emits_one_call_to_the_trap_symbol() {
    let intrinsics = declared();
    let info = empty_info();
    let mut ctx = intrinsics.ctx(&info);
    ctx.build_trap();
    assert_eq!(ctx.builder.code, vec![Instr::CtxParam, Instr::Call { sym: 25 }]);
}

/// The end-to-end scenario: one local relocatable memory, one imported fixed
/// memory; the compiled body accesses the local memory, then the imported
/// one, then the local one again. Exactly one derivation path per memory is
/// emitted, the second local access reuses the cached field pointers through
/// two fresh loads, the imported access contributes exactly one base/bound
/// load pair, and no instruction of the imported access touches the local
/// memory's array-pointer field.
#[test]
fn scenario_local_twice_imported_once() {
    let intrinsics = declared();
    let mut info = empty_info();
    info.memories = vec![MemoryType::Dynamic];
    info.imported_memories = vec![MemoryType::Static];
    let mut ctx = intrinsics.ctx(&info);
    let first_local = ctx.memory(1);
    let imported = ctx.memory(0);
    let second_local = ctx.memory(1);
    assert_eq!(first_local, (7, 8));
    assert_eq!(imported, (15, 16));
    assert_eq!(second_local, (17, 18));
    let expected = vec![
        Instr::CtxParam,
        // first local access: full derivation path, fields re-loaded
        Instr::GepField { base: 0, field: 0 },
        Instr::Load { ptr: 1 },
        Instr::GepIndex { base: 2, index: 0 },
        Instr::Load { ptr: 3 },
        Instr::GepField { base: 4, field: 0 },
        Instr::GepField { base: 4, field: 1 },
        Instr::Load { ptr: 5 },
        Instr::Load { ptr: 6 },
        // imported access: full derivation path through field 3, one load pair
        Instr::GepField { base: 0, field: 3 },
        Instr::Load { ptr: 9 },
        Instr::GepIndex { base: 10, index: 0 },
        Instr::Load { ptr: 11 },
        Instr::GepField { base: 12, field: 0 },
        Instr::GepField { base: 12, field: 1 },
        Instr::Load { ptr: 13 },
        Instr::Load { ptr: 14 },
        // second local access: only two loads through the cached pointers
        Instr::Load { ptr: 5 },
        Instr::Load { ptr: 6 },
    ];
    assert_eq!(ctx.builder.code, expected);
}

/// Simulates a growth event between two in-body accesses: the relocatable
/// memory's second access observes the new base and bound, while the fixed
/// memory's operands keep the values read at first access.
#[test]
fn growth_between_accesses_relocatable_sees_new_base_fixed_keeps_old() {
    let intrinsics = declared();
    let mut info = empty_info();
    info.memories = vec![MemoryType::Dynamic];
    info.imported_memories = vec![MemoryType::Static];
    let mut ctx = intrinsics.ctx(&info);
    let (dyn_base1, dyn_bound1) = ctx.memory(1);
    let (fix_base, fix_bound) = ctx.memory(0);
    let (dyn_base2, dyn_bound2) = ctx.memory(1);
    let code = &ctx.builder.code;

    let before = CtxState {
        local_memories: vec![MemDesc { base: 0x1000, bound: 64 }],
        imported_memories: vec![MemDesc { base: 0x7000, bound: 512 }],
        ..empty_state()
    };
    // the growth event: the relocatable memory moved and grew; the fixed
    // memory grew in place (only its bound changed)
    let after = CtxState {
        local_memories: vec![MemDesc { base: 0x2000, bound: 128 }],
        imported_memories: vec![MemDesc { base: 0x7000, bound: 1024 }],
        ..empty_state()
    };
    // instructions up to the second local access run before the growth
    let mut states: Vec<CtxState> = Vec::new();
    for i in 0..code.len() {
        states.push(if i < dyn_base2 { before.clone() } else { after.clone() });
    }
    let vals = eval_code(code, &states);

    // first access of the relocatable memory: the values before growth
    assert_eq!(vals[dyn_base1], AbsVal::Num { bits: 0x1000 });
    assert_eq!(vals[dyn_bound1], AbsVal::Num { bits: 64 });
    // second access: fresh loads observe the relocated base and new bound
    assert_eq!(vals[dyn_base2], AbsVal::Num { bits: 0x2000 });
    assert_eq!(vals[dyn_bound2], AbsVal::Num { bits: 128 });
    // the fixed memory's operands were captured at first access and stay
    // stable, including the bound read before the growth
    assert_eq!(vals[fix_base], AbsVal::Num { bits: 0x7000 });
    assert_eq!(vals[fix_bound], AbsVal::Num { bits: 512 });
}

/// Idempotence: a repeated access reuses the identical cached storage.
#[test]
fn repeated_accesses_reuse_cached_storage() {
    let intrinsics = declared();
    let mut info = empty_info();
    info.memories = vec![MemoryType::Static];
    info.imported_memories = vec![MemoryType::Dynamic];
    info.tables = 1;
    info.globals = vec![GlobalDesc { mutable: true, ty: WasmTy::I32 }];
    info.imported_functions = 1;
    info.signatures = 2;
    let mut ctx = intrinsics.ctx(&info);

    // fixed memory: identical operands, nothing re-emitted
    let fix1 = ctx.memory(1);
    let len_after_first = ctx.builder.code.len();
    let fix2 = ctx.memory(1);
    assert_eq!(fix1, fix2);
    assert_eq!(ctx.builder.code.len(), len_after_first);

    // relocatable memory: fresh loads, but through the same field pointers
    let (dyn_b1, dyn_bd1) = ctx.memory(0);
    let (dyn_b2, dyn_bd2) = ctx.memory(0);
    assert_ne!((dyn_b1, dyn_bd1), (dyn_b2, dyn_bd2));
    assert_eq!(ctx.builder.code[dyn_b1], ctx.builder.code[dyn_b2]);
    assert_eq!(ctx.builder.code[dyn_bd1], ctx.builder.code[dyn_bd2]);

    // table: same double-indirection reuse
    let (tb1, tbd1) = ctx.table(0);
    let (tb2, tbd2) = ctx.table(0);
    assert_eq!(ctx.builder.code[tb1], ctx.builder.code[tb2]);
    assert_eq!(ctx.builder.code[tbd1], ctx.builder.code[tbd2]);

    // signature identifier, global, imported function: identical operands,
    // nothing re-emitted
    let s1 = ctx.dynamic_sigindex(1);
    let len_after_sig = ctx.builder.code.len();
    let s2 = ctx.dynamic_sigindex(1);
    assert_eq!(s1, s2);
    assert_eq!(ctx.builder.code.len(), len_after_sig);

    let g1 = ctx.global_cache(0);
    let g2 = ctx.global_cache(0);
    assert_eq!(g1, g2);

    let f1 = ctx.imported_func(0);
    let f2 = ctx.imported_func(0);
    assert_eq!(f1, f2);
}

/// A mutable global yields a storage pointer typed to its declared width; an
/// immutable one yields a value, not a pointer, loaded once.
#[test]
fn global_mutable_pointer_immutable_value() {
    let intrinsics = declared();
    let mut info = empty_info();
    info.globals = vec![GlobalDesc { mutable: true, ty: WasmTy::I32 }];
    info.imported_globals = vec![GlobalDesc { mutable: false, ty: WasmTy::I64 }];
    let mut ctx = intrinsics.ctx(&info);

    // index 1 resolves to the local mutable global
    let mutable = ctx.global_cache(1);
    let ptr = match mutable {
        GlobalCache::Mut { ptr_to_value } => ptr_to_value,
        GlobalCache::Const { .. } => panic!("mutable global must yield a storage pointer"),
    };

    // index 0 resolves to the imported immutable global
    let immutable = ctx.global_cache(0);
    let value = match immutable {
        GlobalCache::Const { value } => value,
        GlobalCache::Mut { .. } => panic!("immutable global must yield a value"),
    };

    let state = CtxState {
        local_globals: vec![0xAABB_CCDD_1122_3344],
        imported_globals: vec![0x99],
        ..empty_state()
    };
    let code = &ctx.builder.code;
    let mut states: Vec<CtxState> = Vec::new();
    for _ in 0..code.len() {
        states.push(state.clone());
    }
    let vals = eval_code(code, &states);

    // the pointer's pointee width matches the declared i32 exactly
    assert_eq!(
        vals[ptr],
        AbsVal::TypedSlotAddr { field: 2, index: 0, ty: PtrTy::I32 }
    );
    // the immutable global's operand is its value
    assert_eq!(vals[value], AbsVal::Num { bits: 0x99 });
}

/// A typed load through a mutable global's pointer addresses only the slot's
/// low bytes: an i32 view of a 64-bit slot reads the low 32 bits.
#[test]
fn typed_global_pointer_reads_declared_width() {
    let intrinsics = declared();
    let mut info = empty_info();
    info.globals = vec![GlobalDesc { mutable: true, ty: WasmTy::I32 }];
    let mut ctx = intrinsics.ctx(&info);
    let ptr = match ctx.global_cache(0) {
        GlobalCache::Mut { ptr_to_value } => ptr_to_value,
        GlobalCache::Const { .. } => panic!("mutable global must yield a storage pointer"),
    };
    // the instruction-selection driver reads the global: a load through the
    // typed pointer
    let read = ctx.builder.push(Instr::Load { ptr });
    let state = CtxState {
        local_globals: vec![0xAABB_CCDD_1122_3344],
        ..empty_state()
    };
    let mut states: Vec<CtxState> = Vec::new();
    for _ in 0..ctx.builder.code.len() {
        states.push(state.clone());
    }
    let vals = eval_code(&ctx.builder.code, &states);
    assert_eq!(vals[read], AbsVal::Num { bits: 0x1122_3344 });
}

/// Index 0 of a local-only space and index 0 of an import-only space select
/// disjoint context fields, for every entity kind.
#[test]
fn local_only_and_import_only_select_disjoint_fields() {
    let intrinsics = declared();

    let mut local_info = empty_info();
    local_info.memories = vec![MemoryType::Dynamic];
    local_info.tables = 1;
    local_info.globals = vec![GlobalDesc { mutable: true, ty: WasmTy::I64 }];
    let mut local_ctx = intrinsics.ctx(&local_info);
    local_ctx.memory(0);
    local_ctx.table(0);
    local_ctx.global_cache(0);

    let mut import_info = empty_info();
    import_info.imported_memories = vec![MemoryType::Dynamic];
    import_info.imported_tables = 1;
    import_info.imported_globals = vec![GlobalDesc { mutable: true, ty: WasmTy::I64 }];
    let mut import_ctx = intrinsics.ctx(&import_info);
    import_ctx.memory(0);
    import_ctx.table(0);
    import_ctx.global_cache(0);

    // the first instruction of each derivation path names the context field
    let field_of = |code: &Vec<Instr>, at: usize| match code[at] {
        Instr::GepField { base: 0, field } => field,
        _ => panic!("expected a context-field address at the path start"),
    };
    // memory paths start at 1, table paths at 9, global paths at 17
    assert_eq!(field_of(&local_ctx.builder.code, 1), 0);
    assert_eq!(field_of(&import_ctx.builder.code, 1), 3);
    assert_eq!(field_of(&local_ctx.builder.code, 9), 1);
    assert_eq!(field_of(&import_ctx.builder.code, 9), 4);
    assert_eq!(field_of(&local_ctx.builder.code, 17), 2);
    assert_eq!(field_of(&import_ctx.builder.code, 17), 5);
}

/// Tables always re-load base and bound through the cached field pointers:
/// a second access observes a runtime mutation of the table descriptor.
#[test]
fn table_accesses_always_read_live_values() {
    let intrinsics = declared();
    let mut info = empty_info();
    info.tables = 1;
    let mut ctx = intrinsics.ctx(&info);
    let (b1, bd1) = ctx.table(0);
    let (b2, bd2) = ctx.table(0);
    let code = &ctx.builder.code;
    let before = CtxState {
        local_tables: vec![MemDesc { base: 0x500, bound: 10 }],
        ..empty_state()
    };
    let after = CtxState {
        local_tables: vec![MemDesc { base: 0x900, bound: 20 }],
        ..empty_state()
    };
    let mut states: Vec<CtxState> = Vec::new();
    for i in 0..code.len() {
        states.push(if i < b2 { before.clone() } else { after.clone() });
    }
    let vals = eval_code(code, &states);
    assert_eq!(vals[b1], AbsVal::Num { bits: 0x500 });
    assert_eq!(vals[bd1], AbsVal::Num { bits: 10 });
    assert_eq!(vals[b2], AbsVal::Num { bits: 0x900 });
    assert_eq!(vals[bd2], AbsVal::Num { bits: 20 });
}

/// A signature identifier is loaded through the context's signature array
/// and memoized; the operand holds the identifier the runtime assigned.
#[test]
fn sigindex_loads_runtime_identifier_once() {
    let intrinsics = declared();
    let mut info = empty_info();
    info.signatures = 3;
    let mut ctx = intrinsics.ctx(&info);
    let id = ctx.dynamic_sigindex(2);
    assert_eq!(
        ctx.builder.code,
        vec![
            Instr::CtxParam,
            Instr::GepField { base: 0, field: 7 },
            Instr::Load { ptr: 1 },
            Instr::GepIndex { base: 2, index: 2 },
            Instr::Load { ptr: 3 },
        ]
    );
    let state = CtxState {
        sigindices: vec![11, 22, 33],
        ..empty_state()
    };
    let mut states: Vec<CtxState> = Vec::new();
    for _ in 0..ctx.builder.code.len() {
        states.push(state.clone());
    }
    let vals = eval_code(&ctx.builder.code, &states);
    assert_eq!(vals[id], AbsVal::Num { bits: 33 });
}

/// An imported function's operands are its code pointer and its own context
/// pointer, loaded from the descriptor the index selects.
#[test]
fn imported_func_returns_code_and_callee_context_pointers() {
    let intrinsics = declared();
    let mut info = empty_info();
    info.imported_functions = 2;
    let mut ctx = intrinsics.ctx(&info);
    let (func_ptr, callee_ctx) = ctx.imported_func(1);
    let state = CtxState {
        imported_funcs: vec![
            FuncDesc { func_ptr: 0x111, ctx_ptr: 0x222 },
            FuncDesc { func_ptr: 0x333, ctx_ptr: 0x444 },
        ],
        ..empty_state()
    };
    let mut states: Vec<CtxState> = Vec::new();
    for _ in 0..ctx.builder.code.len() {
        states.push(state.clone());
    }
    let vals = eval_code(&ctx.builder.code, &states);
    assert_eq!(vals[func_ptr], AbsVal::Num { bits: 0x333 });
    assert_eq!(vals[callee_ctx], AbsVal::Num { bits: 0x444 });
}
