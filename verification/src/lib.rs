//! Code-generation adapter layer of a WebAssembly-to-native compiler backend.
//!
//! The crate bridges the abstract WebAssembly module model (memories, tables,
//! globals, imported functions, signatures) to a concrete native calling
//! convention: it declares the external symbols generated code calls into, and
//! it materializes, per compiled function, the access paths through the
//! runtime execution context, memoizing each path so repeated references
//! within one function body reuse it.
//!
//! Emitted code is represented by an explicit instruction sequence ([`ir::Instr`])
//! whose runtime meaning is given by an evaluator ([`ir::val_at`]); the
//! contracts of the accessor methods state, over that evaluator, which runtime
//! values the returned operands denote and at which point in the emitted code
//! they are read.

pub mod ctx;
pub mod intrinsics;
pub mod ir;
pub mod laws;
pub mod module_info;
pub mod types;
