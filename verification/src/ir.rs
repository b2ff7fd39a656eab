//! The emitted-code representation and its runtime meaning.
//!
//! Generated native code is modelled as a sequence of [`Instr`]; each
//! instruction's result is named by its position in the sequence, and the
//! function's context-pointer parameter stands at position 0. The meaning of
//! an instruction sequence is given by [`val_at`]: an abstract value for each
//! position, evaluated against the runtime state that holds *when that
//! instruction executes* (one [`CtxState`] per position). Keeping a state per
//! position is what lets contracts distinguish a value loaded at first access
//! from a value re-loaded on every access, when the runtime mutates the
//! context (a memory growth event) between two points of the emitted code.

use vstd::prelude::*;

use crate::types::PtrTy;

verus! {

/// Context field: pointer to the array of locally-defined memory descriptors.
pub const FIELD_LOCAL_MEMORIES: usize = 0;

/// Context field: pointer to the array of locally-defined table descriptors.
pub const FIELD_LOCAL_TABLES: usize = 1;

/// Context field: pointer to the array of locally-defined global slots.
pub const FIELD_LOCAL_GLOBALS: usize = 2;

/// Context field: pointer to the array of imported-memory descriptors.
pub const FIELD_IMPORTED_MEMORIES: usize = 3;

/// Context field: pointer to the array of imported-table descriptors.
pub const FIELD_IMPORTED_TABLES: usize = 4;

/// Context field: pointer to the array of imported-global slots.
pub const FIELD_IMPORTED_GLOBALS: usize = 5;

/// Context field: pointer to the array of imported-function descriptors.
pub const FIELD_IMPORTED_FUNCS: usize = 6;

/// Context field: pointer to the array of signature identifiers.
pub const FIELD_SIGINDICES: usize = 7;

/// Offset of the base-address field inside a memory or table descriptor.
pub const DESC_BASE: usize = 0;

/// Offset of the bound field inside a memory or table descriptor.
pub const DESC_BOUNDS: usize = 1;

/// Offset of the code pointer inside an imported-function descriptor.
pub const FUNC_PTR: usize = 0;

/// Offset of the callee context pointer inside an imported-function
/// descriptor.
pub const FUNC_CTX: usize = 1;

/// One emitted native instruction. Operand fields name the position, in the
/// emitted sequence, of the instruction that produced the operand.
#[derive(Clone, Copy, PartialEq, Eq, Structural, Debug)]
pub enum Instr {
    /// The function's context-pointer parameter; stands only at position 0.
    CtxParam,
    /// Pointer to field `field` of the struct `base` points to.
    GepField { base: usize, field: usize },
    /// Pointer to element `index` of the array `base` points to.
    GepIndex { base: usize, index: usize },
    /// Read through the pointer `ptr`.
    Load { ptr: usize },
    /// Reinterpret the pointer `ptr` as an integer.
    PtrToInt { ptr: usize },
    /// Reinterpret the integer `val` as a pointer of type `ty`.
    IntToPtr { val: usize, ty: PtrTy },
    /// Call the external symbol `sym` with no operands (the trap entry point).
    Call { sym: usize },
}

/// A memory or table descriptor as the runtime holds it: base address and
/// current bound, both as raw machine words.
#[derive(Clone, Copy, PartialEq, Eq, Structural, Debug)]
pub struct MemDesc {
    pub base: u64,
    pub bound: u64,
}

/// An imported-function descriptor: code pointer and callee context pointer.
#[derive(Clone, Copy, PartialEq, Eq, Structural, Debug)]
pub struct FuncDesc {
    pub func_ptr: u64,
    pub ctx_ptr: u64,
}

/// A snapshot of the runtime execution context's contents: what generated
/// code would observe if it read through the context at one instant.
#[derive(Clone, PartialEq, Eq, Debug)]
pub struct CtxState {
    pub local_memories: Vec<MemDesc>,
    pub local_tables: Vec<MemDesc>,
    pub local_globals: Vec<u64>,
    pub imported_memories: Vec<MemDesc>,
    pub imported_tables: Vec<MemDesc>,
    pub imported_globals: Vec<u64>,
    pub imported_funcs: Vec<FuncDesc>,
    pub sigindices: Vec<u64>,
}

/// The abstract value an emitted instruction denotes: either a symbolic
/// address inside the context's pointer graph, or a scalar read from it.
#[derive(Clone, Copy, PartialEq, Eq, Structural, Debug)]
pub enum AbsVal {
    /// The context pointer itself.
    CtxAddr,
    /// Address of context field `field`.
    FieldAddr { field: usize },
    /// The array pointer stored in context field `field`.
    ArrayAddr { field: usize },
    /// Address of element `index` of the array of field `field`.
    ElemAddr { field: usize, index: usize },
    /// The descriptor (or global-slot) pointer stored in that element.
    DescAddr { field: usize, index: usize },
    /// Address of field `offset` inside that descriptor.
    DescFieldAddr { field: usize, index: usize, offset: usize },
    /// A global-slot pointer reinterpreted as an integer.
    SlotInt { field: usize, index: usize },
    /// A global-slot pointer re-typed to view only the slot's low bytes.
    TypedSlotAddr { field: usize, index: usize, ty: PtrTy },
    /// A scalar value.
    Num { bits: u64 },
    /// No meaningful value (an ill-formed operand, or a call's result).
    Bot,
}

/// Meaning of a struct-field address computation.
pub open spec fn gep_field_sem(v: AbsVal, field: usize) -> AbsVal {
    match v {
        AbsVal::CtxAddr => if field < 8 {
            AbsVal::FieldAddr { field }
        } else {
            AbsVal::Bot
        },
        AbsVal::DescAddr { field: f, index } => (AbsVal::DescFieldAddr {
            field: f,
            index,
            offset: field,
        }),
        _ => AbsVal::Bot,
    }
}

/// Meaning of an array-element address computation.
pub open spec fn gep_index_sem(v: AbsVal, index: usize) -> AbsVal {
    match v {
        AbsVal::ArrayAddr { field } => AbsVal::ElemAddr { field, index },
        _ => AbsVal::Bot,
    }
}

/// Meaning of a pointer-to-integer reinterpretation.
pub open spec fn ptr_to_int_sem(v: AbsVal) -> AbsVal {
    match v {
        AbsVal::DescAddr { field, index } => AbsVal::SlotInt { field, index },
        _ => AbsVal::Bot,
    }
}

/// Meaning of an integer-to-pointer reinterpretation.
pub open spec fn int_to_ptr_sem(v: AbsVal, ty: PtrTy) -> AbsVal {
    match v {
        AbsVal::SlotInt { field, index } => AbsVal::TypedSlotAddr { field, index, ty },
        _ => AbsVal::Bot,
    }
}

/// The bits of a generic 64-bit slot that a typed pointer view of type `ty`
/// addresses: a narrower view reads only the slot's low bytes.
pub open spec fn ty_mask(ty: PtrTy) -> u64 {
    match ty {
        PtrTy::I8 => 0xff,
        PtrTy::I16 => 0xffff,
        PtrTy::I32 => 0xffff_ffff,
        PtrTy::F32 => 0xffff_ffff,
        PtrTy::I64 => 0xffff_ffff_ffff_ffff,
        PtrTy::F64 => 0xffff_ffff_ffff_ffff,
        PtrTy::Ctx => 0xffff_ffff_ffff_ffff,
    }
}

/// Reading field `offset` of memory/table descriptor `index` of `descs`.
pub open spec fn desc_field_read(descs: Seq<MemDesc>, index: usize, offset: usize) -> AbsVal {
    if index < descs.len() && offset == DESC_BASE {
        AbsVal::Num { bits: descs[index as int].base }
    } else if index < descs.len() && offset == DESC_BOUNDS {
        AbsVal::Num { bits: descs[index as int].bound }
    } else {
        AbsVal::Bot
    }
}

/// Reading field `offset` of imported-function descriptor `index` of `descs`.
pub open spec fn func_field_read(descs: Seq<FuncDesc>, index: usize, offset: usize) -> AbsVal {
    if index < descs.len() && offset == FUNC_PTR {
        AbsVal::Num { bits: descs[index as int].func_ptr }
    } else if index < descs.len() && offset == FUNC_CTX {
        AbsVal::Num { bits: descs[index as int].ctx_ptr }
    } else {
        AbsVal::Bot
    }
}

/// Reading through a descriptor-field address, against state `s`.
pub open spec fn desc_read(s: CtxState, field: usize, index: usize, offset: usize) -> AbsVal {
    if field == FIELD_LOCAL_MEMORIES {
        desc_field_read(s.local_memories@, index, offset)
    } else if field == FIELD_LOCAL_TABLES {
        desc_field_read(s.local_tables@, index, offset)
    } else if field == FIELD_IMPORTED_MEMORIES {
        desc_field_read(s.imported_memories@, index, offset)
    } else if field == FIELD_IMPORTED_TABLES {
        desc_field_read(s.imported_tables@, index, offset)
    } else if field == FIELD_IMPORTED_FUNCS {
        func_field_read(s.imported_funcs@, index, offset)
    } else {
        AbsVal::Bot
    }
}

/// Reading through a typed view of global slot `index` of space `field`,
/// against state `s`: the view's width selects the slot's low bytes.
pub open spec fn slot_read(s: CtxState, field: usize, index: usize, ty: PtrTy) -> AbsVal {
    if ty == PtrTy::I8 || ty == PtrTy::I16 || ty == PtrTy::Ctx {
        AbsVal::Bot
    } else if field == FIELD_LOCAL_GLOBALS && index < s.local_globals@.len() {
        AbsVal::Num { bits: s.local_globals@[index as int] & ty_mask(ty) }
    } else if field == FIELD_IMPORTED_GLOBALS && index < s.imported_globals@.len() {
        AbsVal::Num { bits: s.imported_globals@[index as int] & ty_mask(ty) }
    } else {
        AbsVal::Bot
    }
}

/// Meaning of a load through address `addr`, against state `s`.
///
/// Loads that yield pointers (the array pointer of a context field, the
/// descriptor pointer of an array element) are state-independent: the runtime
/// owns those arrays and never replaces them; a growth event rewrites a
/// descriptor's fields, not the pointers leading to it. Loads that yield
/// scalars read `s`.
pub open spec fn load_sem(s: CtxState, addr: AbsVal) -> AbsVal {
    match addr {
        AbsVal::FieldAddr { field } => if field < 8 {
            AbsVal::ArrayAddr { field }
        } else {
            AbsVal::Bot
        },
        AbsVal::ElemAddr { field, index } => if field == FIELD_SIGINDICES {
            if index < s.sigindices@.len() {
                AbsVal::Num { bits: s.sigindices@[index as int] }
            } else {
                AbsVal::Bot
            }
        } else if field < 7 {
            AbsVal::DescAddr { field, index }
        } else {
            AbsVal::Bot
        },
        AbsVal::DescFieldAddr { field, index, offset } => desc_read(s, field, index, offset),
        AbsVal::TypedSlotAddr { field, index, ty } => slot_read(s, field, index, ty),
        _ => AbsVal::Bot,
    }
}

/// The abstract value of position `i` of `code`, where `states[j]` is the
/// runtime context's contents at the instant instruction `j` executes.
pub open spec fn val_at(code: Seq<Instr>, states: Seq<CtxState>, i: int) -> AbsVal
    decreases i,
{
    if 0 <= i < code.len() {
        match code[i] {
            Instr::CtxParam => if i == 0 {
                AbsVal::CtxAddr
            } else {
                AbsVal::Bot
            },
            Instr::GepField { base, field } => if base < i {
                gep_field_sem(val_at(code, states, base as int), field)
            } else {
                AbsVal::Bot
            },
            Instr::GepIndex { base, index } => if base < i {
                gep_index_sem(val_at(code, states, base as int), index)
            } else {
                AbsVal::Bot
            },
            Instr::Load { ptr } => if ptr < i {
                load_sem(states[i], val_at(code, states, ptr as int))
            } else {
                AbsVal::Bot
            },
            Instr::PtrToInt { ptr } => if ptr < i {
                ptr_to_int_sem(val_at(code, states, ptr as int))
            } else {
                AbsVal::Bot
            },
            Instr::IntToPtr { val, ty } => if val < i {
                int_to_ptr_sem(val_at(code, states, val as int), ty)
            } else {
                AbsVal::Bot
            },
            Instr::Call { .. } => AbsVal::Bot,
        }
    } else {
        AbsVal::Bot
    }
}

fn gep_field_val(v: AbsVal, field: usize) -> (r: AbsVal)
    ensures
        r == gep_field_sem(v, field),
{
    match v {
        AbsVal::CtxAddr => if field < 8 {
            AbsVal::FieldAddr { field }
        } else {
            AbsVal::Bot
        },
        AbsVal::DescAddr { field: f, index } => (AbsVal::DescFieldAddr {
            field: f,
            index,
            offset: field,
        }),
        _ => AbsVal::Bot,
    }
}

fn gep_index_val(v: AbsVal, index: usize) -> (r: AbsVal)
    ensures
        r == gep_index_sem(v, index),
{
    match v {
        AbsVal::ArrayAddr { field } => AbsVal::ElemAddr { field, index },
        _ => AbsVal::Bot,
    }
}

fn ptr_to_int_val(v: AbsVal) -> (r: AbsVal)
    ensures
        r == ptr_to_int_sem(v),
{
    match v {
        AbsVal::DescAddr { field, index } => AbsVal::SlotInt { field, index },
        _ => AbsVal::Bot,
    }
}

fn int_to_ptr_val(v: AbsVal, ty: PtrTy) -> (r: AbsVal)
    ensures
        r == int_to_ptr_sem(v, ty),
{
    match v {
        AbsVal::SlotInt { field, index } => AbsVal::TypedSlotAddr { field, index, ty },
        _ => AbsVal::Bot,
    }
}

fn desc_field_read_val(descs: &Vec<MemDesc>, index: usize, offset: usize) -> (r: AbsVal)
    ensures
        r == desc_field_read(descs@, index, offset),
{
    if index < descs.len() && offset == DESC_BASE {
        AbsVal::Num { bits: descs[index].base }
    } else if index < descs.len() && offset == DESC_BOUNDS {
        AbsVal::Num { bits: descs[index].bound }
    } else {
        AbsVal::Bot
    }
}

fn func_field_read_val(descs: &Vec<FuncDesc>, index: usize, offset: usize) -> (r: AbsVal)
    ensures
        r == func_field_read(descs@, index, offset),
{
    if index < descs.len() && offset == FUNC_PTR {
        AbsVal::Num { bits: descs[index].func_ptr }
    } else if index < descs.len() && offset == FUNC_CTX {
        AbsVal::Num { bits: descs[index].ctx_ptr }
    } else {
        AbsVal::Bot
    }
}

fn ty_mask_val(ty: PtrTy) -> (r: u64)
    ensures
        r == ty_mask(ty),
{
    match ty {
        PtrTy::I8 => 0xff,
        PtrTy::I16 => 0xffff,
        PtrTy::I32 => 0xffff_ffff,
        PtrTy::F32 => 0xffff_ffff,
        PtrTy::I64 => 0xffff_ffff_ffff_ffff,
        PtrTy::F64 => 0xffff_ffff_ffff_ffff,
        PtrTy::Ctx => 0xffff_ffff_ffff_ffff,
    }
}

fn slot_read_val(s: &CtxState, field: usize, index: usize, ty: PtrTy) -> (r: AbsVal)
    ensures
        r == slot_read(*s, field, index, ty),
{
    let narrow = match ty {
        PtrTy::I8 => true,
        PtrTy::I16 => true,
        PtrTy::Ctx => true,
        _ => false,
    };
    if narrow {
        AbsVal::Bot
    } else if field == FIELD_LOCAL_GLOBALS && index < s.local_globals.len() {
        AbsVal::Num { bits: s.local_globals[index] & ty_mask_val(ty) }
    } else if field == FIELD_IMPORTED_GLOBALS && index < s.imported_globals.len() {
        AbsVal::Num { bits: s.imported_globals[index] & ty_mask_val(ty) }
    } else {
        AbsVal::Bot
    }
}

/// Reads through one abstract address against state `s`, as the generated
/// code would at run time.
pub fn load_val(s: &CtxState, addr: AbsVal) -> (r: AbsVal)
    ensures
        r == load_sem(*s, addr),
{
    match addr {
        AbsVal::FieldAddr { field } => if field < 8 {
            AbsVal::ArrayAddr { field }
        } else {
            AbsVal::Bot
        },
        AbsVal::ElemAddr { field, index } => {
            if field == FIELD_SIGINDICES {
                if index < s.sigindices.len() {
                    AbsVal::Num { bits: s.sigindices[index] }
                } else {
                    AbsVal::Bot
                }
            } else if field < 7 {
                AbsVal::DescAddr { field, index }
            } else {
                AbsVal::Bot
            }
        },
        AbsVal::DescFieldAddr { field, index, offset } => {
            if field == FIELD_LOCAL_MEMORIES {
                desc_field_read_val(&s.local_memories, index, offset)
            } else if field == FIELD_LOCAL_TABLES {
                desc_field_read_val(&s.local_tables, index, offset)
            } else if field == FIELD_IMPORTED_MEMORIES {
                desc_field_read_val(&s.imported_memories, index, offset)
            } else if field == FIELD_IMPORTED_TABLES {
                desc_field_read_val(&s.imported_tables, index, offset)
            } else if field == FIELD_IMPORTED_FUNCS {
                func_field_read_val(&s.imported_funcs, index, offset)
            } else {
                AbsVal::Bot
            }
        },
        AbsVal::TypedSlotAddr { field, index, ty } => slot_read_val(s, field, index, ty),
        _ => AbsVal::Bot,
    }
}

/// Runs an emitted instruction sequence as the native code it stands for
/// would run, against one context snapshot per instruction: `states[j]` is
/// what the runtime context holds when instruction `j` executes. Returns the
/// value each instruction computes.
pub fn eval_code(code: &Vec<Instr>, states: &Vec<CtxState>) -> (vals: Vec<AbsVal>)
    requires
        states@.len() == code@.len(),
    ensures
        vals@.len() == code@.len(),
        forall|i: int| 0 <= i < code@.len() ==> vals@[i] == val_at(code@, states@, i),
{
    let mut vals: Vec<AbsVal> = Vec::new();
    let n = code.len();
    let mut i: usize = 0;
    while i < n
        invariant
            n == code@.len(),
            states@.len() == n,
            vals@.len() == i,
            i <= n,
            forall|j: int| 0 <= j < i ==> vals@[j] == val_at(code@, states@, j),
        decreases n - i,
    {
        let v: AbsVal = match code[i] {
            Instr::CtxParam => if i == 0 {
                AbsVal::CtxAddr
            } else {
                AbsVal::Bot
            },
            Instr::GepField { base, field } => if base < i {
                gep_field_val(vals[base], field)
            } else {
                AbsVal::Bot
            },
            Instr::GepIndex { base, index } => if base < i {
                gep_index_val(vals[base], index)
            } else {
                AbsVal::Bot
            },
            Instr::Load { ptr } => if ptr < i {
                load_val(&states[i], vals[ptr])
            } else {
                AbsVal::Bot
            },
            Instr::PtrToInt { ptr } => if ptr < i {
                ptr_to_int_val(vals[ptr])
            } else {
                AbsVal::Bot
            },
            Instr::IntToPtr { val, ty } => if val < i {
                int_to_ptr_val(vals[val], ty)
            } else {
                AbsVal::Bot
            },
            Instr::Call { .. } => AbsVal::Bot,
        };
        vals.push(v);
        i = i + 1;
    }
    vals
}

/// Position `id` of `code` denotes the fixed address `a`, whatever the
/// runtime does between any two instructions.
pub open spec fn is_addr(code: Seq<Instr>, id: int, a: AbsVal) -> bool {
    &&& 0 <= id < code.len()
    &&& forall|states: Seq<CtxState>|
        states.len() == code.len() ==> #[trigger] val_at(code, states, id) == a
}

/// Position `id` of `code` is a load through address `loc`: its value is
/// whatever `loc` holds at the instant instruction `id` executes.
pub open spec fn is_load_at(code: Seq<Instr>, id: int, loc: AbsVal) -> bool {
    &&& 0 <= id < code.len()
    &&& code[id] matches Instr::Load { .. }
    &&& forall|states: Seq<CtxState>|
        states.len() == code.len() ==> #[trigger] val_at(code, states, id) == load_sem(
            states[id],
            loc,
        )
}

/// A position's value depends only on the instructions and states up to it:
/// evaluating inside a longer sequence that extends `code1` gives the same
/// value.
pub proof fn lemma_val_at_prefix(
    code1: Seq<Instr>,
    states1: Seq<CtxState>,
    code2: Seq<Instr>,
    states2: Seq<CtxState>,
    i: int,
)
    requires
        0 <= i < code1.len(),
        code1.len() <= code2.len(),
        code1 == code2.take(code1.len() as int),
        states1 == states2.take(code1.len() as int),
        states2.len() == code2.len(),
    ensures
        val_at(code2, states2, i) == val_at(code1, states1, i),
    decreases i,
{
    assert(code1[i] == code2[i]);
    match code1[i] {
        Instr::CtxParam => {},
        Instr::GepField { base, field } => {
            if base < i {
                lemma_val_at_prefix(code1, states1, code2, states2, base as int);
            }
        },
        Instr::GepIndex { base, index } => {
            if base < i {
                lemma_val_at_prefix(code1, states1, code2, states2, base as int);
            }
        },
        Instr::Load { ptr } => {
            if ptr < i {
                lemma_val_at_prefix(code1, states1, code2, states2, ptr as int);
            }
            assert(states1[i] == states2[i]);
        },
        Instr::PtrToInt { ptr } => {
            if ptr < i {
                lemma_val_at_prefix(code1, states1, code2, states2, ptr as int);
            }
        },
        Instr::IntToPtr { val, ty } => {
            if val < i {
                lemma_val_at_prefix(code1, states1, code2, states2, val as int);
            }
        },
        Instr::Call { .. } => {},
    }
}

/// A fixed-address fact survives appending instructions to the sequence.
pub proof fn lemma_is_addr_prefix(code1: Seq<Instr>, code2: Seq<Instr>, id: int, a: AbsVal)
    requires
        is_addr(code1, id, a),
        code1.len() <= code2.len(),
        code2.take(code1.len() as int) == code1,
    ensures
        is_addr(code2, id, a),
{
    assert forall|states2: Seq<CtxState>|
        states2.len() == code2.len() implies #[trigger] val_at(code2, states2, id) == a by {
        let states1 = states2.take(code1.len() as int);
        lemma_val_at_prefix(code1, states1, code2, states2, id);
        assert(val_at(code1, states1, id) == a);
    }
}

/// The body of one generated function under construction: an append-only
/// instruction sequence whose position 0 is the function's context-pointer
/// parameter.
pub struct FuncBuilder {
    pub code: Vec<Instr>,
}

impl FuncBuilder {
    /// Opens a function body: only the context parameter stands in it.
    pub fn new_function() -> (b: FuncBuilder)
        ensures
            b.code@ =~= seq![Instr::CtxParam],
    {
        let mut code: Vec<Instr> = Vec::new();
        code.push(Instr::CtxParam);
        FuncBuilder { code }
    }

    /// Appends one instruction and returns the position naming its result.
    pub fn push(&mut self, instr: Instr) -> (id: usize)
        ensures
            final(self).code@ == old(self).code@.push(instr),
            id == old(self).code@.len(),
    {
        let id = self.code.len();
        self.code.push(instr);
        id
    }
}

/// A load fact survives appending instructions to the sequence.
pub proof fn lemma_is_load_prefix(code1: Seq<Instr>, code2: Seq<Instr>, id: int, loc: AbsVal)
    requires
        is_load_at(code1, id, loc),
        code1.len() <= code2.len(),
        code2.take(code1.len() as int) == code1,
    ensures
        is_load_at(code2, id, loc),
{
    assert(code2[id] == code1[id]);
    assert forall|states2: Seq<CtxState>|
        states2.len() == code2.len() implies #[trigger] val_at(code2, states2, id) == load_sem(
        states2[id],
        loc,
    ) by {
        let states1 = states2.take(code1.len() as int);
        lemma_val_at_prefix(code1, states1, code2, states2, id);
        assert(states1[id] == states2[id]);
        assert(val_at(code1, states1, id) == load_sem(states1[id], loc));
    }
}

} // verus!
