//! The intrinsic declaration table.
//!
//! Opening a compilation unit declares, once, every external symbol the
//! generated code may call: the numeric primitives (`llvm.<op>.<width>`), the
//! branch-likelihood hint and the trap, and the twelve runtime entry points
//! for memory growth and size queries (`vm.memory.<operation>.<discipline>.<locality>`).
//! These names are the binary contract other runtime components bind against;
//! [`Intrinsics::declare`] pins them exactly, together with the handle table
//! it returns.

use vstd::prelude::*;

use crate::types::{ptr_ty_of, ConstVal, FnSig, PtrTy, ScalarTy, StructTy, WasmTy};

verus! {

/// Selects, from the handle table, the pointer type matching a global's
/// declared value type.
pub(crate) fn type_to_llvm_ptr(intrinsics: &Intrinsics, ty: WasmTy) -> (r: PtrTy)
    requires
        intrinsics.wf(),
    ensures
        r == ptr_ty_of(ty),
{
    match ty {
        WasmTy::I32 => intrinsics.i32_ptr_ty,
        WasmTy::I64 => intrinsics.i64_ptr_ty,
        WasmTy::F32 => intrinsics.f32_ptr_ty,
        WasmTy::F64 => intrinsics.f64_ptr_ty,
    }
}

/// A function symbol registered in a compilation unit: its linkage name and
/// its signature shape.
#[derive(Clone, PartialEq, Eq, Debug)]
pub struct Symbol {
    pub name: String,
    pub sig: FnSig,
}

/// The append-only symbol table of one compilation unit. Declaring the same
/// symbol twice is a configuration error the caller must rule out, never a
/// recoverable condition.
#[derive(Debug)]
pub struct CompilationUnit {
    pub symbols: Vec<Symbol>,
}

impl CompilationUnit {
    /// Opens an empty compilation unit.
    pub fn new() -> (u: CompilationUnit)
        ensures
            u.symbols@.len() == 0,
    {
        CompilationUnit { symbols: Vec::new() }
    }

    /// Registers one external function symbol and returns its handle: the
    /// symbol's position in the unit's table.
    pub fn add_function(&mut self, name: String, sig: FnSig) -> (id: usize)
        ensures
            final(self).symbols@ == old(self).symbols@.push((Symbol { name, sig })),
            id == old(self).symbols@.len(),
    {
        let id = self.symbols.len();
        self.symbols.push(Symbol { name, sig });
        id
    }
}

/// The handle table returned by [`Intrinsics::declare`]: one handle per
/// declared symbol, plus the native scalar, pointer and struct type handles
/// and zero constants the rest of the backend reuses. Consumed read-only.
pub struct Intrinsics {
    pub ctlz_i32: usize,
    pub ctlz_i64: usize,
    pub cttz_i32: usize,
    pub cttz_i64: usize,
    pub ctpop_i32: usize,
    pub ctpop_i64: usize,
    pub sqrt_f32: usize,
    pub sqrt_f64: usize,
    pub minimum_f32: usize,
    pub minimum_f64: usize,
    pub maximum_f32: usize,
    pub maximum_f64: usize,
    pub ceil_f32: usize,
    pub ceil_f64: usize,
    pub floor_f32: usize,
    pub floor_f64: usize,
    pub trunc_f32: usize,
    pub trunc_f64: usize,
    pub nearbyint_f32: usize,
    pub nearbyint_f64: usize,
    pub fabs_f32: usize,
    pub fabs_f64: usize,
    pub copysign_f32: usize,
    pub copysign_f64: usize,
    pub expect_i1: usize,
    pub trap: usize,
    pub void_ty: ScalarTy,
    pub i1_ty: ScalarTy,
    pub i8_ty: ScalarTy,
    pub i16_ty: ScalarTy,
    pub i32_ty: ScalarTy,
    pub i64_ty: ScalarTy,
    pub f32_ty: ScalarTy,
    pub f64_ty: ScalarTy,
    pub i8_ptr_ty: PtrTy,
    pub i16_ptr_ty: PtrTy,
    pub i32_ptr_ty: PtrTy,
    pub i64_ptr_ty: PtrTy,
    pub f32_ptr_ty: PtrTy,
    pub f64_ptr_ty: PtrTy,
    pub anyfunc_ty: StructTy,
    pub i1_zero: ConstVal,
    pub i32_zero: ConstVal,
    pub i64_zero: ConstVal,
    pub f32_zero: ConstVal,
    pub f64_zero: ConstVal,
    pub memory_grow_dynamic_local: usize,
    pub memory_grow_static_local: usize,
    pub memory_grow_shared_local: usize,
    pub memory_grow_dynamic_import: usize,
    pub memory_grow_static_import: usize,
    pub memory_grow_shared_import: usize,
    pub memory_size_dynamic_local: usize,
    pub memory_size_static_local: usize,
    pub memory_size_shared_local: usize,
    pub memory_size_dynamic_import: usize,
    pub memory_size_static_import: usize,
    pub memory_size_shared_import: usize,
    pub ctx_ty: StructTy,
    pub ctx_ptr_ty: PtrTy,
}

/// Number of symbols [`Intrinsics::declare`] registers: 24 numeric
/// primitives, 2 control symbols, 12 runtime entry points.
pub const INTRINSIC_COUNT: usize = 38;

/// The exact symbol manifest: names and signature shapes, in declaration
/// order. This is the wire contract with the runtime and the linker.
pub open spec fn declared_manifest(s: Seq<Symbol>) -> bool {
    &&& s.len() == INTRINSIC_COUNT
    &&& s[0].name@ == "llvm.ctlz.i32"@ && s[0].sig == FnSig::RetI32TakeI32I1
    &&& s[1].name@ == "llvm.ctlz.i64"@ && s[1].sig == FnSig::RetI64TakeI64I1
    &&& s[2].name@ == "llvm.cttz.i32"@ && s[2].sig == FnSig::RetI32TakeI32I1
    &&& s[3].name@ == "llvm.cttz.i64"@ && s[3].sig == FnSig::RetI64TakeI64I1
    &&& s[4].name@ == "llvm.ctpop.i32"@ && s[4].sig == FnSig::RetI32TakeI32
    &&& s[5].name@ == "llvm.ctpop.i64"@ && s[5].sig == FnSig::RetI64TakeI64
    &&& s[6].name@ == "llvm.sqrt.f32"@ && s[6].sig == FnSig::RetF32TakeF32
    &&& s[7].name@ == "llvm.sqrt.f64"@ && s[7].sig == FnSig::RetF64TakeF64
    &&& s[8].name@ == "llvm.minnum.f32"@ && s[8].sig == FnSig::RetF32TakeF32F32
    &&& s[9].name@ == "llvm.minnum.f64"@ && s[9].sig == FnSig::RetF64TakeF64F64
    &&& s[10].name@ == "llvm.maxnum.f32"@ && s[10].sig == FnSig::RetF32TakeF32F32
    &&& s[11].name@ == "llvm.maxnum.f64"@ && s[11].sig == FnSig::RetF64TakeF64F64
    &&& s[12].name@ == "llvm.ceil.f32"@ && s[12].sig == FnSig::RetF32TakeF32
    &&& s[13].name@ == "llvm.ceil.f64"@ && s[13].sig == FnSig::RetF64TakeF64
    &&& s[14].name@ == "llvm.floor.f32"@ && s[14].sig == FnSig::RetF32TakeF32
    &&& s[15].name@ == "llvm.floor.f64"@ && s[15].sig == FnSig::RetF64TakeF64
    &&& s[16].name@ == "llvm.trunc.f32"@ && s[16].sig == FnSig::RetF32TakeF32
    &&& s[17].name@ == "llvm.trunc.f64"@ && s[17].sig == FnSig::RetF64TakeF64
    &&& s[18].name@ == "llvm.nearbyint.f32"@ && s[18].sig == FnSig::RetF32TakeF32
    &&& s[19].name@ == "llvm.nearbyint.f64"@ && s[19].sig == FnSig::RetF64TakeF64
    &&& s[20].name@ == "llvm.fabs.f32"@ && s[20].sig == FnSig::RetF32TakeF32
    &&& s[21].name@ == "llvm.fabs.f64"@ && s[21].sig == FnSig::RetF64TakeF64
    &&& s[22].name@ == "llvm.copysign.f32"@ && s[22].sig == FnSig::RetF32TakeF32F32
    &&& s[23].name@ == "llvm.copysign.f64"@ && s[23].sig == FnSig::RetF64TakeF64F64
    &&& s[24].name@ == "llvm.expect.i1"@ && s[24].sig == FnSig::RetI1TakeI1I1
    &&& s[25].name@ == "llvm.trap"@ && s[25].sig == FnSig::RetVoid
    &&& s[26].name@ == "vm.memory.grow.dynamic.local"@ && s[26].sig
        == FnSig::RetI32TakeCtxI32I32
    &&& s[27].name@ == "vm.memory.grow.static.local"@ && s[27].sig == FnSig::RetI32TakeCtxI32I32
    &&& s[28].name@ == "vm.memory.grow.shared.local"@ && s[28].sig == FnSig::RetI32TakeCtxI32I32
    &&& s[29].name@ == "vm.memory.grow.dynamic.import"@ && s[29].sig
        == FnSig::RetI32TakeCtxI32I32
    &&& s[30].name@ == "vm.memory.grow.static.import"@ && s[30].sig
        == FnSig::RetI32TakeCtxI32I32
    &&& s[31].name@ == "vm.memory.grow.shared.import"@ && s[31].sig
        == FnSig::RetI32TakeCtxI32I32
    &&& s[32].name@ == "vm.memory.size.dynamic.local"@ && s[32].sig == FnSig::RetI32TakeCtxI32
    &&& s[33].name@ == "vm.memory.size.static.local"@ && s[33].sig == FnSig::RetI32TakeCtxI32
    &&& s[34].name@ == "vm.memory.size.shared.local"@ && s[34].sig == FnSig::RetI32TakeCtxI32
    &&& s[35].name@ == "vm.memory.size.dynamic.import"@ && s[35].sig == FnSig::RetI32TakeCtxI32
    &&& s[36].name@ == "vm.memory.size.static.import"@ && s[36].sig == FnSig::RetI32TakeCtxI32
    &&& s[37].name@ == "vm.memory.size.shared.import"@ && s[37].sig == FnSig::RetI32TakeCtxI32
}

impl Intrinsics {
    /// The handle table is exactly what [`Intrinsics::declare`] builds: each
    /// symbol handle names the corresponding manifest entry, and the type
    /// handles and zero constants are the fixed ones.
    pub open spec fn wf(self) -> bool {
        &&& self.ctlz_i32 == 0
        &&& self.ctlz_i64 == 1
        &&& self.cttz_i32 == 2
        &&& self.cttz_i64 == 3
        &&& self.ctpop_i32 == 4
        &&& self.ctpop_i64 == 5
        &&& self.sqrt_f32 == 6
        &&& self.sqrt_f64 == 7
        &&& self.minimum_f32 == 8
        &&& self.minimum_f64 == 9
        &&& self.maximum_f32 == 10
        &&& self.maximum_f64 == 11
        &&& self.ceil_f32 == 12
        &&& self.ceil_f64 == 13
        &&& self.floor_f32 == 14
        &&& self.floor_f64 == 15
        &&& self.trunc_f32 == 16
        &&& self.trunc_f64 == 17
        &&& self.nearbyint_f32 == 18
        &&& self.nearbyint_f64 == 19
        &&& self.fabs_f32 == 20
        &&& self.fabs_f64 == 21
        &&& self.copysign_f32 == 22
        &&& self.copysign_f64 == 23
        &&& self.expect_i1 == 24
        &&& self.trap == 25
        &&& self.memory_grow_dynamic_local == 26
        &&& self.memory_grow_static_local == 27
        &&& self.memory_grow_shared_local == 28
        &&& self.memory_grow_dynamic_import == 29
        &&& self.memory_grow_static_import == 30
        &&& self.memory_grow_shared_import == 31
        &&& self.memory_size_dynamic_local == 32
        &&& self.memory_size_static_local == 33
        &&& self.memory_size_shared_local == 34
        &&& self.memory_size_dynamic_import == 35
        &&& self.memory_size_static_import == 36
        &&& self.memory_size_shared_import == 37
        &&& self.void_ty == ScalarTy::Void
        &&& self.i1_ty == ScalarTy::I1
        &&& self.i8_ty == ScalarTy::I8
        &&& self.i16_ty == ScalarTy::I16
        &&& self.i32_ty == ScalarTy::I32
        &&& self.i64_ty == ScalarTy::I64
        &&& self.f32_ty == ScalarTy::F32
        &&& self.f64_ty == ScalarTy::F64
        &&& self.i8_ptr_ty == PtrTy::I8
        &&& self.i16_ptr_ty == PtrTy::I16
        &&& self.i32_ptr_ty == PtrTy::I32
        &&& self.i64_ptr_ty == PtrTy::I64
        &&& self.f32_ptr_ty == PtrTy::F32
        &&& self.f64_ptr_ty == PtrTy::F64
        &&& self.anyfunc_ty == StructTy::AnyFunc
        &&& self.i1_zero == (ConstVal { ty: ScalarTy::I1, bits: 0 })
        &&& self.i32_zero == (ConstVal { ty: ScalarTy::I32, bits: 0 })
        &&& self.i64_zero == (ConstVal { ty: ScalarTy::I64, bits: 0 })
        &&& self.f32_zero == (ConstVal { ty: ScalarTy::F32, bits: 0 })
        &&& self.f64_zero == (ConstVal { ty: ScalarTy::F64, bits: 0 })
        &&& self.ctx_ty == StructTy::Ctx
        &&& self.ctx_ptr_ty == PtrTy::Ctx
    }

    /// Declares every external symbol generated code may call into the given
    /// compilation unit, exactly once, and returns the handle table.
    ///
    /// The unit must be fresh: declaring into a unit that already holds
    /// symbols is a configuration error, so the caller must not repeat the
    /// call for the same unit.
    #[verifier::rlimit(100)]
    pub fn declare(unit: &mut CompilationUnit) -> (r: Intrinsics)
        requires
            old(unit).symbols@.len() == 0,
        ensures
            r.wf(),
            final(unit).symbols@.len() == INTRINSIC_COUNT,
            declared_manifest(final(unit).symbols@),
    {
        let ctlz_i32 = unit.add_function("llvm.ctlz.i32".to_string(), FnSig::RetI32TakeI32I1);
        let ctlz_i64 = unit.add_function("llvm.ctlz.i64".to_string(), FnSig::RetI64TakeI64I1);
        let cttz_i32 = unit.add_function("llvm.cttz.i32".to_string(), FnSig::RetI32TakeI32I1);
        let cttz_i64 = unit.add_function("llvm.cttz.i64".to_string(), FnSig::RetI64TakeI64I1);
        let ctpop_i32 = unit.add_function("llvm.ctpop.i32".to_string(), FnSig::RetI32TakeI32);
        let ctpop_i64 = unit.add_function("llvm.ctpop.i64".to_string(), FnSig::RetI64TakeI64);
        let sqrt_f32 = unit.add_function("llvm.sqrt.f32".to_string(), FnSig::RetF32TakeF32);
        let sqrt_f64 = unit.add_function("llvm.sqrt.f64".to_string(), FnSig::RetF64TakeF64);
        let minimum_f32 = unit.add_function("llvm.minnum.f32".to_string(), FnSig::RetF32TakeF32F32);
        let minimum_f64 = unit.add_function("llvm.minnum.f64".to_string(), FnSig::RetF64TakeF64F64);
        let maximum_f32 = unit.add_function("llvm.maxnum.f32".to_string(), FnSig::RetF32TakeF32F32);
        let maximum_f64 = unit.add_function("llvm.maxnum.f64".to_string(), FnSig::RetF64TakeF64F64);
        let ceil_f32 = unit.add_function("llvm.ceil.f32".to_string(), FnSig::RetF32TakeF32);
        let ceil_f64 = unit.add_function("llvm.ceil.f64".to_string(), FnSig::RetF64TakeF64);
        let floor_f32 = unit.add_function("llvm.floor.f32".to_string(), FnSig::RetF32TakeF32);
        let floor_f64 = unit.add_function("llvm.floor.f64".to_string(), FnSig::RetF64TakeF64);
        let trunc_f32 = unit.add_function("llvm.trunc.f32".to_string(), FnSig::RetF32TakeF32);
        let trunc_f64 = unit.add_function("llvm.trunc.f64".to_string(), FnSig::RetF64TakeF64);
        let nearbyint_f32 = unit.add_function(
            "llvm.nearbyint.f32".to_string(),
            FnSig::RetF32TakeF32,
        );
        let nearbyint_f64 = unit.add_function(
            "llvm.nearbyint.f64".to_string(),
            FnSig::RetF64TakeF64,
        );
        let fabs_f32 = unit.add_function("llvm.fabs.f32".to_string(), FnSig::RetF32TakeF32);
        let fabs_f64 = unit.add_function("llvm.fabs.f64".to_string(), FnSig::RetF64TakeF64);
        let copysign_f32 = unit.add_function(
            "llvm.copysign.f32".to_string(),
            FnSig::RetF32TakeF32F32,
        );
        let copysign_f64 = unit.add_function(
            "llvm.copysign.f64".to_string(),
            FnSig::RetF64TakeF64F64,
        );
        let expect_i1 = unit.add_function("llvm.expect.i1".to_string(), FnSig::RetI1TakeI1I1);
        let trap = unit.add_function("llvm.trap".to_string(), FnSig::RetVoid);
        let memory_grow_dynamic_local = unit.add_function(
            "vm.memory.grow.dynamic.local".to_string(),
            FnSig::RetI32TakeCtxI32I32,
        );
        let memory_grow_static_local = unit.add_function(
            "vm.memory.grow.static.local".to_string(),
            FnSig::RetI32TakeCtxI32I32,
        );
        let memory_grow_shared_local = unit.add_function(
            "vm.memory.grow.shared.local".to_string(),
            FnSig::RetI32TakeCtxI32I32,
        );
        let memory_grow_dynamic_import = unit.add_function(
            "vm.memory.grow.dynamic.import".to_string(),
            FnSig::RetI32TakeCtxI32I32,
        );
        let memory_grow_static_import = unit.add_function(
            "vm.memory.grow.static.import".to_string(),
            FnSig::RetI32TakeCtxI32I32,
        );
        let memory_grow_shared_import = unit.add_function(
            "vm.memory.grow.shared.import".to_string(),
            FnSig::RetI32TakeCtxI32I32,
        );
        let memory_size_dynamic_local = unit.add_function(
            "vm.memory.size.dynamic.local".to_string(),
            FnSig::RetI32TakeCtxI32,
        );
        let memory_size_static_local = unit.add_function(
            "vm.memory.size.static.local".to_string(),
            FnSig::RetI32TakeCtxI32,
        );
        let memory_size_shared_local = unit.add_function(
            "vm.memory.size.shared.local".to_string(),
            FnSig::RetI32TakeCtxI32,
        );
        let memory_size_dynamic_import = unit.add_function(
            "vm.memory.size.dynamic.import".to_string(),
            FnSig::RetI32TakeCtxI32,
        );
        let memory_size_static_import = unit.add_function(
            "vm.memory.size.static.import".to_string(),
            FnSig::RetI32TakeCtxI32,
        );
        let memory_size_shared_import = unit.add_function(
            "vm.memory.size.shared.import".to_string(),
            FnSig::RetI32TakeCtxI32,
        );
        Intrinsics {
            ctlz_i32,
            ctlz_i64,
            cttz_i32,
            cttz_i64,
            ctpop_i32,
            ctpop_i64,
            sqrt_f32,
            sqrt_f64,
            minimum_f32,
            minimum_f64,
            maximum_f32,
            maximum_f64,
            ceil_f32,
            ceil_f64,
            floor_f32,
            floor_f64,
            trunc_f32,
            trunc_f64,
            nearbyint_f32,
            nearbyint_f64,
            fabs_f32,
            fabs_f64,
            copysign_f32,
            copysign_f64,
            expect_i1,
            trap,
            void_ty: ScalarTy::Void,
            i1_ty: ScalarTy::I1,
            i8_ty: ScalarTy::I8,
            i16_ty: ScalarTy::I16,
            i32_ty: ScalarTy::I32,
            i64_ty: ScalarTy::I64,
            f32_ty: ScalarTy::F32,
            f64_ty: ScalarTy::F64,
            i8_ptr_ty: PtrTy::I8,
            i16_ptr_ty: PtrTy::I16,
            i32_ptr_ty: PtrTy::I32,
            i64_ptr_ty: PtrTy::I64,
            f32_ptr_ty: PtrTy::F32,
            f64_ptr_ty: PtrTy::F64,
            anyfunc_ty: StructTy::AnyFunc,
            i1_zero: ConstVal { ty: ScalarTy::I1, bits: 0 },
            i32_zero: ConstVal { ty: ScalarTy::I32, bits: 0 },
            i64_zero: ConstVal { ty: ScalarTy::I64, bits: 0 },
            f32_zero: ConstVal { ty: ScalarTy::F32, bits: 0 },
            f64_zero: ConstVal { ty: ScalarTy::F64, bits: 0 },
            memory_grow_dynamic_local,
            memory_grow_static_local,
            memory_grow_shared_local,
            memory_grow_dynamic_import,
            memory_grow_static_import,
            memory_grow_shared_import,
            memory_size_dynamic_local,
            memory_size_static_local,
            memory_size_shared_local,
            memory_size_dynamic_import,
            memory_size_static_import,
            memory_size_shared_import,
            ctx_ty: StructTy::Ctx,
            ctx_ptr_ty: PtrTy::Ctx,
        }
    }
}

} // verus!
