//! The intrinsic declaration table registers exactly the documented symbols.

use llvm_backend::intrinsics::{CompilationUnit, Intrinsics};
use llvm_backend::types::{ConstVal, FnSig, PtrTy, ScalarTy, StructTy};

const EXPECTED: [(&str, FnSig); 38] = [
    ("llvm.ctlz.i32", FnSig::RetI32TakeI32I1),
    ("llvm.ctlz.i64", FnSig::RetI64TakeI64I1),
    ("llvm.cttz.i32", FnSig::RetI32TakeI32I1),
    ("llvm.cttz.i64", FnSig::RetI64TakeI64I1),
    ("llvm.ctpop.i32", FnSig::RetI32TakeI32),
    ("llvm.ctpop.i64", FnSig::RetI64TakeI64),
    ("llvm.sqrt.f32", FnSig::RetF32TakeF32),
    ("llvm.sqrt.f64", FnSig::RetF64TakeF64),
    ("llvm.minnum.f32", FnSig::RetF32TakeF32F32),
    ("llvm.minnum.f64", FnSig::RetF64TakeF64F64),
    ("llvm.maxnum.f32", FnSig::RetF32TakeF32F32),
    ("llvm.maxnum.f64", FnSig::RetF64TakeF64F64),
    ("llvm.ceil.f32", FnSig::RetF32TakeF32),
    ("llvm.ceil.f64", FnSig::RetF64TakeF64),
    ("llvm.floor.f32", FnSig::RetF32TakeF32),
    ("llvm.floor.f64", FnSig::RetF64TakeF64),
    ("llvm.trunc.f32", FnSig::RetF32TakeF32),
    ("llvm.trunc.f64", FnSig::RetF64TakeF64),
    ("llvm.nearbyint.f32", FnSig::RetF32TakeF32),
    ("llvm.nearbyint.f64", FnSig::RetF64TakeF64),
    ("llvm.fabs.f32", FnSig::RetF32TakeF32),
    ("llvm.fabs.f64", FnSig::RetF64TakeF64),
    ("llvm.copysign.f32", FnSig::RetF32TakeF32F32),
    ("llvm.copysign.f64", FnSig::RetF64TakeF64F64),
    ("llvm.expect.i1", FnSig::RetI1TakeI1I1),
    ("llvm.trap", FnSig::RetVoid),
    ("vm.memory.grow.dynamic.local", FnSig::RetI32TakeCtxI32I32),
    ("vm.memory.grow.static.local", FnSig::RetI32TakeCtxI32I32),
    ("vm.memory.grow.shared.local", FnSig::RetI32TakeCtxI32I32),
    ("vm.memory.grow.dynamic.import", FnSig::RetI32TakeCtxI32I32),
    ("vm.memory.grow.static.import", FnSig::RetI32TakeCtxI32I32),
    ("vm.memory.grow.shared.import", FnSig::RetI32TakeCtxI32I32),
    ("vm.memory.size.dynamic.local", FnSig::RetI32TakeCtxI32),
    ("vm.memory.size.static.local", FnSig::RetI32TakeCtxI32),
    ("vm.memory.size.shared.local", FnSig::RetI32TakeCtxI32),
    ("vm.memory.size.dynamic.import", FnSig::RetI32TakeCtxI32),
    ("vm.memory.size.static.import", FnSig::RetI32TakeCtxI32),
    ("vm.memory.size.shared.import", FnSig::RetI32TakeCtxI32),
];

#[test]
fn manifest_registers_exact_symbols() {
    let mut unit = CompilationUnit::new();
    let _intrinsics = Intrinsics::declare(&mut unit);
    assert_eq!(unit.symbols.len(), 38);
    for (i, (name, sig)) in EXPECTED.iter().enumerate() {
        assert_eq!(unit.symbols[i].name, *name);
        assert_eq!(unit.symbols[i].sig, *sig);
    }
}

#[test]
fn manifest_families_have_documented_sizes() {
    let mut unit = CompilationUnit::new();
    let _intrinsics = Intrinsics::declare(&mut unit);
    let vm = unit
        .symbols
        .iter()
        .filter(|s| s.name.starts_with("vm.memory."))
        .count();
    let control = unit
        .symbols
        .iter()
        .filter(|s| s.name == "llvm.expect.i1" || s.name == "llvm.trap")
        .count();
    let numeric = unit.symbols.len() - vm - control;
    assert_eq!(vm, 12);
    assert_eq!(control, 2);
    assert_eq!(numeric, 24);
    let grow = unit
        .symbols
        .iter()
        .filter(|s| s.name.starts_with("vm.memory.grow."))
        .count();
    let size = unit
        .symbols
        .iter()
        .filter(|s| s.name.starts_with("vm.memory.size."))
        .count();
    assert_eq!(grow, 6);
    assert_eq!(size, 6);
}

#[test]
fn declared_names_are_all_distinct() {
    let mut unit = CompilationUnit::new();
    let _intrinsics = Intrinsics::declare(&mut unit);
    for i in 0..unit.symbols.len() {
        for j in 0..i {
            assert_ne!(unit.symbols[i].name, unit.symbols[j].name);
        }
    }
}

#[test]
fn handle_table_matches_declaration_order() {
    let mut unit = CompilationUnit::new();
    let intrinsics = Intrinsics::declare(&mut unit);
    assert_eq!(intrinsics.ctlz_i32, 0);
    assert_eq!(intrinsics.ctpop_i64, 5);
    assert_eq!(intrinsics.copysign_f64, 23);
    assert_eq!(intrinsics.expect_i1, 24);
    assert_eq!(intrinsics.trap, 25);
    assert_eq!(intrinsics.memory_grow_dynamic_local, 26);
    assert_eq!(intrinsics.memory_size_shared_import, 37);
    assert_eq!(unit.symbols[intrinsics.trap].name, "llvm.trap");
    assert_eq!(
        unit.symbols[intrinsics.memory_grow_shared_import].name,
        "vm.memory.grow.shared.import"
    );
}

#[test]
fn type_handles_and_zero_constants() {
    let mut unit = CompilationUnit::new();
    let intrinsics = Intrinsics::declare(&mut unit);
    assert_eq!(intrinsics.void_ty, ScalarTy::Void);
    assert_eq!(intrinsics.i1_ty, ScalarTy::I1);
    assert_eq!(intrinsics.i64_ty, ScalarTy::I64);
    assert_eq!(intrinsics.f32_ptr_ty, PtrTy::F32);
    assert_eq!(intrinsics.i8_ptr_ty, PtrTy::I8);
    assert_eq!(intrinsics.ctx_ptr_ty, PtrTy::Ctx);
    assert_eq!(intrinsics.anyfunc_ty, StructTy::AnyFunc);
    assert_eq!(
        intrinsics.i32_zero,
        ConstVal {
            ty: ScalarTy::I32,
            bits: 0
        }
    );
    assert_eq!(
        intrinsics.f64_zero,
        ConstVal {
            ty: ScalarTy::F64,
            bits: 0
        }
    );
}
