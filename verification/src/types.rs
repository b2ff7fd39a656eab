//! Native type handles and signature shapes shared by the whole backend.

use vstd::prelude::*;

verus! {

/// The value type a WebAssembly global carries.
#[derive(Clone, Copy, PartialEq, Eq, Structural, Debug)]
pub enum WasmTy {
    I32,
    I64,
    F32,
    F64,
}

/// Physical discipline of a linear memory: whether its base address may move
/// when the memory grows.
///
/// A `Dynamic` memory may be relocated by a growth event, so generated code
/// must re-load base and bound on every access. A `Static` memory reserves its
/// address space once, so its base never moves; `SharedStatic` is the same for
/// access purposes but may be reached from several concurrent executions.
#[derive(Clone, Copy, PartialEq, Eq, Structural, Debug)]
pub enum MemoryType {
    Dynamic,
    Static,
    SharedStatic,
}

/// Handle for a native scalar type.
#[derive(Clone, Copy, PartialEq, Eq, Structural, Debug)]
pub enum ScalarTy {
    Void,
    I1,
    I8,
    I16,
    I32,
    I64,
    F32,
    F64,
}

/// Handle for a native pointer type, named by its pointee.
#[derive(Clone, Copy, PartialEq, Eq, Structural, Debug)]
pub enum PtrTy {
    I8,
    I16,
    I32,
    I64,
    F32,
    F64,
    /// Pointer to the runtime execution context.
    Ctx,
}

/// The pointer type through which a global of declared type `ty` is read or
/// written: its pointee width matches the declared value type's width
/// exactly, so typed accesses address only the low bytes of the generic
/// 64-bit storage slot.
pub open spec fn ptr_ty_of(ty: WasmTy) -> PtrTy {
    match ty {
        WasmTy::I32 => PtrTy::I32,
        WasmTy::I64 => PtrTy::I64,
        WasmTy::F32 => PtrTy::F32,
        WasmTy::F64 => PtrTy::F64,
    }
}

/// Handle for a named native struct type.
#[derive(Clone, Copy, PartialEq, Eq, Structural, Debug)]
pub enum StructTy {
    /// The tagged function-reference record: code pointer, callee context
    /// pointer, signature identifier.
    AnyFunc,
    /// The runtime execution context.
    Ctx,
}

/// A native constant operand: a type handle and the value's raw bits.
#[derive(Clone, Copy, PartialEq, Eq, Structural, Debug)]
pub struct ConstVal {
    pub ty: ScalarTy,
    pub bits: u64,
}

/// Shape of an external function symbol's signature.
#[derive(Clone, Copy, PartialEq, Eq, Structural, Debug)]
pub enum FnSig {
    /// `(i32, i1) -> i32`
    RetI32TakeI32I1,
    /// `(i64, i1) -> i64`
    RetI64TakeI64I1,
    /// `(i32) -> i32`
    RetI32TakeI32,
    /// `(i64) -> i64`
    RetI64TakeI64,
    /// `(f32) -> f32`
    RetF32TakeF32,
    /// `(f64) -> f64`
    RetF64TakeF64,
    /// `(f32, f32) -> f32`
    RetF32TakeF32F32,
    /// `(f64, f64) -> f64`
    RetF64TakeF64F64,
    /// `(i1, i1) -> i1`
    RetI1TakeI1I1,
    /// `() -> void`
    RetVoid,
    /// `(ctx*, i32, i32) -> i32`
    RetI32TakeCtxI32I32,
    /// `(ctx*, i32) -> i32`
    RetI32TakeCtxI32,
}

} // verus!
