//! The module's structural metadata, as this layer reads it.
//!
//! Each entity kind (memory, table, global, function) has two disjoint
//! numbering spaces, "imported" and "local", unified behind a single logical
//! index: imported entities come first, locally-defined ones follow. This
//! module holds, as plain values, exactly what the accessor reads from the
//! decoder's output: each memory's physical discipline, each global's
//! mutability and value type, and the counts of the remaining entity kinds.

use vstd::prelude::*;

use crate::types::{MemoryType, WasmTy};

verus! {

/// Declared properties of a global: whether it may be written after
/// instantiation, and the value type of its storage slot.
#[derive(Clone, Copy, PartialEq, Eq, Structural, Debug)]
pub struct GlobalDesc {
    pub mutable: bool,
    pub ty: WasmTy,
}

/// Which numbering space a unified index falls in, with the sub-index inside
/// that space.
#[derive(Clone, Copy, PartialEq, Eq, Structural, Debug)]
pub enum LocalOrImport {
    Local(usize),
    Import(usize),
}

/// Read-only structural metadata of the module being compiled. Indices are
/// assumed validated by the upstream decoder; the counts here size the
/// execution context's arrays.
#[derive(Clone, PartialEq, Eq, Debug)]
pub struct ModuleInfo {
    /// Physical discipline of each locally-defined memory.
    pub memories: Vec<MemoryType>,
    /// Physical discipline of each imported memory.
    pub imported_memories: Vec<MemoryType>,
    /// Number of locally-defined tables.
    pub tables: usize,
    /// Number of imported tables.
    pub imported_tables: usize,
    /// Mutability and type of each locally-defined global.
    pub globals: Vec<GlobalDesc>,
    /// Mutability and type of each imported global.
    pub imported_globals: Vec<GlobalDesc>,
    /// Number of imported functions.
    pub imported_functions: usize,
    /// Number of distinct signatures in the module.
    pub signatures: usize,
}

/// Resolution of a unified index: the first `imported` indices name the
/// imported entities, in order; the rest name the locally-defined ones.
pub open spec fn resolve_spec(index: int, imported: int) -> LocalOrImport {
    if index < imported {
        LocalOrImport::Import(index as usize)
    } else {
        LocalOrImport::Local((index - imported) as usize)
    }
}

/// Splits a unified index into its numbering space and sub-index.
pub fn local_or_import(index: usize, imported: usize) -> (r: LocalOrImport)
    ensures
        r == resolve_spec(index as int, imported as int),
{
    if index < imported {
        LocalOrImport::Import(index)
    } else {
        LocalOrImport::Local(index - imported)
    }
}

impl ModuleInfo {
    /// Total number of memories in the unified index space.
    pub open spec fn mem_count(self) -> int {
        self.imported_memories@.len() + self.memories@.len() as int
    }

    /// Total number of tables in the unified index space.
    pub open spec fn table_count(self) -> int {
        self.imported_tables + self.tables
    }

    /// Total number of globals in the unified index space.
    pub open spec fn global_count(self) -> int {
        self.imported_globals@.len() + self.globals@.len() as int
    }

    pub open spec fn mem_is_import(self, index: int) -> bool {
        index < self.imported_memories@.len()
    }

    /// Sub-index of a unified memory index inside its numbering space.
    pub open spec fn mem_sub(self, index: int) -> usize {
        if self.mem_is_import(index) {
            index as usize
        } else {
            (index - self.imported_memories@.len()) as usize
        }
    }

    /// Physical discipline of the memory a unified index names.
    pub open spec fn mem_style(self, index: int) -> MemoryType {
        if self.mem_is_import(index) {
            self.imported_memories@[index]
        } else {
            self.memories@[index - self.imported_memories@.len()]
        }
    }

    pub open spec fn table_is_import(self, index: int) -> bool {
        index < self.imported_tables
    }

    /// Sub-index of a unified table index inside its numbering space.
    pub open spec fn table_sub(self, index: int) -> usize {
        if self.table_is_import(index) {
            index as usize
        } else {
            (index - self.imported_tables) as usize
        }
    }

    pub open spec fn global_is_import(self, index: int) -> bool {
        index < self.imported_globals@.len()
    }

    /// Sub-index of a unified global index inside its numbering space.
    pub open spec fn global_sub(self, index: int) -> usize {
        if self.global_is_import(index) {
            index as usize
        } else {
            (index - self.imported_globals@.len()) as usize
        }
    }

    /// Context field holding the descriptor array the memory index resolves
    /// into: local and imported memories live behind disjoint fields.
    pub open spec fn mem_field(self, index: int) -> usize {
        if self.mem_is_import(index) {
            crate::ir::FIELD_IMPORTED_MEMORIES
        } else {
            crate::ir::FIELD_LOCAL_MEMORIES
        }
    }

    /// Context field holding the descriptor array the table index resolves
    /// into.
    pub open spec fn table_field(self, index: int) -> usize {
        if self.table_is_import(index) {
            crate::ir::FIELD_IMPORTED_TABLES
        } else {
            crate::ir::FIELD_LOCAL_TABLES
        }
    }

    /// Context field holding the slot array the global index resolves into.
    pub open spec fn global_field(self, index: int) -> usize {
        if self.global_is_import(index) {
            crate::ir::FIELD_IMPORTED_GLOBALS
        } else {
            crate::ir::FIELD_LOCAL_GLOBALS
        }
    }

    /// Declared mutability and type of the global a unified index names.
    pub open spec fn global_desc(self, index: int) -> GlobalDesc {
        if self.global_is_import(index) {
            self.imported_globals@[index]
        } else {
            self.globals@[index - self.imported_globals@.len()]
        }
    }
}

} // verus!
