//! The objects that a context owns, and the handles by which one instance
//! passes them to another.
use crate::context::{ArenaState, ContextObjects, InternalContextHandle};
use crate::resource::{GlobalCell, HostFunction, LinearMemory, LinearMemoryState, TableElements};
use crate::types::{
    ExternKind, ExternType, ExternTypeView, FunctionSig, FunctionType, GlobalType, MemoryType,
    TableType,
};
use vstd::prelude::*;

verus! {

/// What an owned memory is: its bytes and its declared type.
pub struct MemoryState {
    /// The linear memory.
    pub memory: LinearMemoryState,
    /// The declared type.
    pub ty: MemoryType,
}

impl MemoryState {
    /// The bytes are whole pages, within the buffer's own limit.
    pub open spec fn wf(self) -> bool {
        self.memory.wf()
    }

    /// Whether `delta` more pages stay within the declared maximum.
    pub open spec fn within_declared(self, delta: u32) -> bool {
        self.ty.maximum matches Some(m) ==> self.memory.pages() + delta <= m.0
    }

    /// Whether the memory can take `delta` more pages: neither the maximum
    /// of its declared type, nor the bound of its buffer, nor what this
    /// machine can address would be exceeded.
    pub open spec fn can_grow(self, delta: u32) -> bool {
        self.within_declared(delta) && self.memory.can_grow(delta)
    }
}

/// A linear memory with its declared type.
#[derive(Debug)]
pub struct VMMemory {
    memory: LinearMemory,
    ty: MemoryType,
}

impl View for VMMemory {
    type V = MemoryState;

    closed spec fn view(&self) -> MemoryState {
        MemoryState { memory: self.memory@, ty: self.ty }
    }
}

impl VMMemory {
    /// Pairs a linear memory with its declared type.
    pub fn new(memory: LinearMemory, ty: MemoryType) -> (r: Self)
        ensures
            r@ == (MemoryState { memory: memory@, ty }),
    {
        VMMemory { memory, ty }
    }

    /// The declared type.
    pub fn ty(&self) -> (r: MemoryType)
        ensures
            r == self@.ty,
    {
        self.ty
    }

    /// The linear memory.
    pub fn memory(&self) -> (r: &LinearMemory)
        ensures
            r@ == self@.memory,
    {
        &self.memory
    }

    /// The linear memory, to be changed in place.
    pub fn memory_mut(&mut self) -> (r: &mut LinearMemory)
        ensures
            r@ == old(self)@.memory,
            final(self)@ == (MemoryState { memory: final(r)@, ty: old(self)@.ty }),
    {
        &mut self.memory
    }
}

/// What an owned table is: its slots and its declared type.
pub struct TableState {
    /// The slots.
    pub elements: Seq<Option<HostFunction>>,
    /// The declared type.
    pub ty: TableType,
}

/// A table with its declared type.
#[derive(Debug)]
pub struct VMTable {
    table: TableElements,
    ty: TableType,
}

impl View for VMTable {
    type V = TableState;

    closed spec fn view(&self) -> TableState {
        TableState { elements: self.table@, ty: self.ty }
    }
}

impl VMTable {
    /// Pairs the slots of a table with its declared type.
    pub fn new(table: TableElements, ty: TableType) -> (r: Self)
        ensures
            r@ == (TableState { elements: table@, ty }),
    {
        VMTable { table, ty }
    }

    /// The declared type.
    pub fn ty(&self) -> (r: TableType)
        ensures
            r == self@.ty,
    {
        self.ty
    }

    /// The slots.
    pub fn table(&self) -> (r: &TableElements)
        ensures
            r@ == self@.elements,
    {
        &self.table
    }

    /// The slots, to be changed in place.
    pub fn table_mut(&mut self) -> (r: &mut TableElements)
        ensures
            r@ == old(self)@.elements,
            final(self)@ == (TableState { elements: final(r)@, ty: old(self)@.ty }),
    {
        &mut self.table
    }
}

/// A global with its declared type.
#[derive(Clone, Copy, Debug, PartialEq, Eq, Structural, Hash)]
pub struct VMGlobal {
    /// The cell that holds the value.
    pub global: GlobalCell,
    /// The declared type.
    pub ty: GlobalType,
}

impl VMGlobal {
    /// Pairs the cell of a global with its declared type.
    pub fn new(global: GlobalCell, ty: GlobalType) -> (r: Self)
        ensures
            r == (VMGlobal { global, ty }),
    {
        VMGlobal { global, ty }
    }
}

/// What an owned function is: the callable and its signature.
pub struct FunctionState {
    /// The callable.
    pub function: HostFunction,
    /// The declared signature.
    pub sig: FunctionSig,
}

/// A callable with its declared type.
#[derive(Debug)]
pub struct VMFunction {
    function: HostFunction,
    ty: FunctionType,
}

impl View for VMFunction {
    type V = FunctionState;

    closed spec fn view(&self) -> FunctionState {
        FunctionState { function: self.function, sig: self.ty@ }
    }
}

impl Clone for VMFunction {
    fn clone(&self) -> (r: Self)
        ensures
            r@ == self@,
    {
        VMFunction { function: self.function, ty: self.ty.clone() }
    }
}

impl VMFunction {
    /// Pairs a callable with its declared type.
    pub fn new(function: HostFunction, ty: FunctionType) -> (r: Self)
        ensures
            r@ == (FunctionState { function, sig: ty@ }),
    {
        VMFunction { function, ty }
    }

    /// The callable.
    pub fn function(&self) -> (r: HostFunction)
        ensures
            r == self@.function,
    {
        self.function
    }

    /// The declared type.
    pub fn ty(&self) -> (r: &FunctionType)
        ensures
            r@ == self@.sig,
    {
        &self.ty
    }

    /// Two functions are the same when they are the same callable, whatever
    /// type each was declared with.
    pub fn same_callable(&self, other: &VMFunction) -> (r: bool)
        ensures
            r == (self@.function == other@.function),
    {
        self.function.0 == other.function.0
    }
}

/// A value as the host hands it over: one of the four resources, or
/// something that is none of them.
#[derive(Debug)]
pub enum HostValue {
    /// A callable.
    Function(HostFunction),
    /// The slots of a table.
    Table(TableElements),
    /// A linear memory.
    Memory(LinearMemory),
    /// The cell of a global.
    Global(GlobalCell),
    /// Anything else.
    Other,
}

impl HostValue {
    /// The kind of resource this value is, if it is one.
    pub open spec fn spec_kind(&self) -> Option<ExternKind> {
        match *self {
            HostValue::Function(_) => Some(ExternKind::Function),
            HostValue::Table(_) => Some(ExternKind::Table),
            HostValue::Memory(_) => Some(ExternKind::Memory),
            HostValue::Global(_) => Some(ExternKind::Global),
            HostValue::Other => None,
        }
    }

    /// The kind of resource this value is, if it is one.
    pub fn kind(&self) -> (r: Option<ExternKind>)
        ensures
            r == self.spec_kind(),
    {
        match self {
            HostValue::Function(_) => Some(ExternKind::Function),
            HostValue::Table(_) => Some(ExternKind::Table),
            HostValue::Memory(_) => Some(ExternKind::Memory),
            HostValue::Global(_) => Some(ExternKind::Global),
            HostValue::Other => None,
        }
    }

    /// Every memory inside holds whole pages within its limit.
    pub open spec fn wf(&self) -> bool {
        match *self {
            HostValue::Memory(m) => m@.wf(),
            _ => true,
        }
    }
}

/// A resource of the host, borrowed from the arena that owns it.
#[derive(Debug)]
pub enum HostRef<'a> {
    /// A callable.
    Function(HostFunction),
    /// The slots of a table.
    Table(&'a TableElements),
    /// A linear memory.
    Memory(&'a LinearMemory),
    /// The cell of a global.
    Global(GlobalCell),
}

/// What can go wrong when a host value is taken in as an external object.
#[derive(Clone, Copy, Debug, PartialEq, Eq, Hash)]
pub enum WasmError {
    /// The value is not of the kind that the required type asks for.
    TypeMismatch {
        /// The kind of resource the value is, if it is one.
        found: Option<ExternKind>,
        /// The kind that was required.
        expected: ExternKind,
    },
}

/// An external object as one instance passes it to another: its kind and its
/// position in the arena, without the identity of a context.
#[derive(Clone, Copy, Debug, PartialEq, Eq)]
pub enum Export {
    /// A function.
    Function(InternalContextHandle<VMFunction>),
    /// A table.
    Table(InternalContextHandle<VMTable>),
    /// A memory.
    Memory(InternalContextHandle<VMMemory>),
    /// A global.
    Global(InternalContextHandle<VMGlobal>),
}

impl Export {
    /// The kind of the object.
    pub open spec fn spec_kind(&self) -> ExternKind {
        match *self {
            Export::Function(_) => ExternKind::Function,
            Export::Table(_) => ExternKind::Table,
            Export::Memory(_) => ExternKind::Memory,
            Export::Global(_) => ExternKind::Global,
        }
    }

    /// The position of the object in its list of the arena.
    pub open spec fn spec_index(&self) -> nat {
        match *self {
            Export::Function(h) => h.spec_index(),
            Export::Table(h) => h.spec_index(),
            Export::Memory(h) => h.spec_index(),
            Export::Global(h) => h.spec_index(),
        }
    }

    /// The number of objects of kind `kind` that `arena` holds.
    pub open spec fn count(arena: ArenaState, kind: ExternKind) -> nat {
        match kind {
            ExternKind::Function => arena.functions.len(),
            ExternKind::Table => arena.tables.len(),
            ExternKind::Memory => arena.memories.len(),
            ExternKind::Global => arena.globals.len(),
        }
    }

    /// The arena after `val` was stored in it with declared type `ty`, where
    /// the two are of one kind.
    pub open spec fn stored(arena: ArenaState, val: HostValue, ty: ExternTypeView) -> ArenaState {
        match (val, ty) {
            (HostValue::Function(f), ExternTypeView::Function(sig)) => arena.push_function(
                FunctionState { function: f, sig },
            ),
            (HostValue::Table(t), ExternTypeView::Table(ty)) => arena.push_table(
                TableState { elements: t@, ty },
            ),
            (HostValue::Memory(m), ExternTypeView::Memory(ty)) => arena.push_memory(
                MemoryState { memory: m@, ty },
            ),
            (HostValue::Global(g), ExternTypeView::Global(ty)) => arena.push_global(
                VMGlobal { global: g, ty },
            ),
            _ => arena,
        }
    }

    /// The kind of the object.
    pub fn kind(&self) -> (r: ExternKind)
        ensures
            r == self.spec_kind(),
    {
        match self {
            Export::Function(_) => ExternKind::Function,
            Export::Table(_) => ExternKind::Table,
            Export::Memory(_) => ExternKind::Memory,
            Export::Global(_) => ExternKind::Global,
        }
    }

    /// The resource behind the object in `ctx`; `None` when the arena holds
    /// nothing at its position.
    pub fn as_jsvalue<'a>(&self, ctx: &'a ContextObjects) -> (r: Option<HostRef<'a>>)
        ensures
            r is Some <==> self.spec_index() < Self::count(ctx@, self.spec_kind()),
            match (*self, r) {
                (Export::Function(h), Some(HostRef::Function(f))) => f
                    == ctx@.functions[h.spec_index() as int].function,
                (Export::Table(h), Some(HostRef::Table(t))) => t@
                    == ctx@.tables[h.spec_index() as int].elements,
                (Export::Memory(h), Some(HostRef::Memory(m))) => m@
                    == ctx@.memories[h.spec_index() as int].memory,
                (Export::Global(h), Some(HostRef::Global(g))) => g
                    == ctx@.globals[h.spec_index() as int].global,
                (_, Some(_)) => false,
                (_, None) => true,
            },
    {
        match self {
            Export::Function(h) => match h.get(ctx) {
                Some(f) => Some(HostRef::Function(f.function())),
                None => None,
            },
            Export::Table(h) => match h.get(ctx) {
                Some(t) => Some(HostRef::Table(t.table())),
                None => None,
            },
            Export::Memory(h) => match h.get(ctx) {
                Some(m) => Some(HostRef::Memory(m.memory())),
                None => None,
            },
            Export::Global(h) => match h.get(ctx) {
                Some(g) => Some(HostRef::Global(g.global)),
                None => None,
            },
        }
    }

    /// Takes a host value in as an external object of type `extern_type`.
    /// The value's kind is compared with the kind of the type before
    /// anything is stored: on a mismatch the arena is as it was.
    pub fn from_js_value(val: HostValue, ctx: &mut ContextObjects, extern_type: ExternType) -> (r:
        Result<Export, WasmError>)
        ensures
            old(ctx)@.wf() && val.wf() ==> final(ctx)@.wf(),
            match r {
                Ok(e) => {
                    &&& val.spec_kind() == Some(extern_type.spec_kind())
                    &&& e.spec_kind() == extern_type.spec_kind()
                    &&& e.spec_index() == Self::count(old(ctx)@, extern_type.spec_kind())
                    &&& final(ctx)@ == Self::stored(old(ctx)@, val, extern_type@)
                },
                Err(e) => {
                    &&& val.spec_kind() != Some(extern_type.spec_kind())
                    &&& e == (WasmError::TypeMismatch {
                        found: val.spec_kind(),
                        expected: extern_type.spec_kind(),
                    })
                    &&& final(ctx)@ == old(ctx)@
                },
            },
    {
        let found = val.kind();
        match extern_type {
            ExternType::Memory(memory_type) => match val {
                HostValue::Memory(memory) => Ok(
                    Export::Memory(
                        InternalContextHandle::<VMMemory>::new(
                            ctx,
                            VMMemory::new(memory, memory_type),
                        ),
                    ),
                ),
                _ => Err(WasmError::TypeMismatch { found, expected: ExternKind::Memory }),
            },
            ExternType::Global(global_type) => match val {
                HostValue::Global(global) => Ok(
                    Export::Global(
                        InternalContextHandle::<VMGlobal>::new(
                            ctx,
                            VMGlobal::new(global, global_type),
                        ),
                    ),
                ),
                _ => Err(WasmError::TypeMismatch { found, expected: ExternKind::Global }),
            },
            ExternType::Function(function_type) => match val {
                HostValue::Function(function) => Ok(
                    Export::Function(
                        InternalContextHandle::<VMFunction>::new(
                            ctx,
                            VMFunction::new(function, function_type),
                        ),
                    ),
                ),
                _ => Err(WasmError::TypeMismatch { found, expected: ExternKind::Function }),
            },
            ExternType::Table(table_type) => match val {
                HostValue::Table(table) => Ok(
                    Export::Table(
                        InternalContextHandle::<VMTable>::new(ctx, VMTable::new(table, table_type)),
                    ),
                ),
                _ => Err(WasmError::TypeMismatch { found, expected: ExternKind::Table }),
            },
        }
    }
}

} // verus!
