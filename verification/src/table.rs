//! Tables of function references.
use crate::context::{ArenaState, ContextHandle, ContextId, ContextObjects, HandleError, InternalContextHandle};
use crate::error::RuntimeError;
use crate::export::{FunctionState, TableState, VMFunction, VMTable};
use crate::externals::Function;
use crate::resource::{HostFunction, TableElements};
use crate::types::{FunctionSig, FunctionType, TableType};
use crate::value::Value;
use vstd::prelude::*;

verus! {

/// A table of some context. The value is a handle: the slots live in the
/// context's arena.
#[derive(Debug, Clone, Copy, PartialEq, Eq)]
pub struct Table {
    handle: ContextHandle<VMTable>,
}

/// Puts `item` into slot `item_index` of `table`.
fn set_table_item(table: &mut VMTable, item_index: u32, item: HostFunction) -> (r: Result<
    (),
    RuntimeError,
>)
    ensures
        match r {
            Ok(()) => item_index < old(table)@.elements.len() && final(table)@ == (TableState {
                elements: old(table)@.elements.update(item_index as int, Some(item)),
                ty: old(table)@.ty,
            }),
            Err(e) => item_index >= old(table)@.elements.len() && e
                == RuntimeError::IndexOutOfBounds && final(table)@ == old(table)@,
        },
{
    if table.table_mut().set(item_index as usize, item) {
        Ok(())
    } else {
        Err(RuntimeError::IndexOutOfBounds)
    }
}

/// The callable that `val` refers to in `arena`. Whether the value belongs
/// to the context is decided before the arena is looked into.
pub open spec fn function_of(arena: ArenaState, val: Value) -> Result<HostFunction, RuntimeError> {
    if !val.usable_in(arena.id) {
        Err(RuntimeError::CrossContextUse)
    } else {
        match val {
            Value::FuncRef(Some(f)) => if f.spec_index() < arena.functions.len() {
                Ok(f.state(arena).function)
            } else {
                Err(RuntimeError::InvalidHandle)
            },
            _ => Err(RuntimeError::NotAFunction),
        }
    }
}

/// The callable that `val` refers to in `ctx`.
fn get_function(ctx: &ContextObjects, val: Value) -> (r: Result<HostFunction, RuntimeError>)
    ensures
        r == function_of(ctx@, val),
{
    if !val.is_from_context(ctx) {
        return Err(RuntimeError::CrossContextUse);
    }
    match val {
        Value::FuncRef(Some(func)) => match func.handle().get(ctx) {
            Ok(f) => Ok(f.function()),
            Err(e) => Err(RuntimeError::from_handle(e)),
        },
        _ => Err(RuntimeError::NotAFunction),
    }
}

impl Table {
    /// The identity of the context that owns the table.
    pub closed spec fn spec_context_id(&self) -> ContextId {
        self.handle.spec_context_id()
    }

    /// The table's position in the arena.
    pub closed spec fn spec_index(&self) -> nat {
        self.handle.spec_index()
    }

    /// What following this table's handle into `arena` gives.
    pub open spec fn check(&self, arena: ArenaState) -> Result<(), HandleError> {
        arena.check(self.spec_context_id(), self.spec_index(), arena.tables.len())
    }

    /// The table's state in `arena`, where the handle can be followed.
    pub open spec fn state(&self, arena: ArenaState) -> TableState {
        arena.tables[self.spec_index() as int]
    }

    /// A fresh table of type `ty` whose slots all hold `f`.
    pub open spec fn filled(ty: TableType, f: HostFunction) -> TableState {
        TableState { elements: Seq::new(ty.minimum as nat, |i: int| Some(f)), ty }
    }

    /// The outcome of creating a table of type `ty` filled with `init`: the
    /// callable to fill it with, or why there is no table. The limits are
    /// checked before the value.
    pub open spec fn new_outcome(arena: ArenaState, ty: TableType, init: Value) -> Result<
        HostFunction,
        RuntimeError,
    > {
        if !TableElements::allocatable(ty.minimum, ty.maximum) {
            Err(RuntimeError::TableLimits)
        } else {
            function_of(arena, init)
        }
    }

    /// Creates a table of type `ty` in `ctx`: `minimum` slots that all hold
    /// the function `init` refers to. On failure the arena is as it was.
    pub fn new(ctx: &mut ContextObjects, ty: TableType, init: Value) -> (r: Result<
        Table,
        RuntimeError,
    >)
        ensures
            old(ctx)@.wf() ==> final(ctx)@.wf(),
            match r {
                Ok(t) => {
                    &&& Self::new_outcome(old(ctx)@, ty, init) matches Ok(f)
                    &&& final(ctx)@ == old(ctx)@.push_table(Self::filled(ty, f))
                    &&& t.spec_context_id() == old(ctx)@.id
                    &&& t.spec_index() == old(ctx)@.tables.len()
                },
                Err(e) => Self::new_outcome(old(ctx)@, ty, init) == Err::<
                    HostFunction,
                    RuntimeError,
                >(e) && final(ctx)@ == old(ctx)@,
            },
    {
        let elements = match TableElements::new(ty.minimum, ty.maximum) {
            Some(t) => t,
            None => {
                return Err(RuntimeError::TableLimits);
            },
        };
        let mut table = VMTable::new(elements, ty);
        let num_elements: u32 = ty.minimum;
        let func = match get_function(ctx, init) {
            Ok(f) => f,
            Err(e) => {
                return Err(e);
            },
        };
        let mut i: u32 = 0;
        while i < num_elements
            invariant
                i <= num_elements,
                num_elements == ty.minimum,
                table@.ty == ty,
                table@.elements.len() == num_elements,
                forall|j: int| 0 <= j < i ==> table@.elements[j] == Some(func),
            decreases num_elements - i,
        {
            let done = set_table_item(&mut table, i, func);
            assert(done is Ok);
            i = i + 1;
        }
        assert(table@.elements =~= Self::filled(ty, func).elements);
        Ok(Table { handle: ContextHandle::<VMTable>::new(ctx, table) })
    }

    /// The declared type of the table.
    pub fn ty(&self, ctx: &ContextObjects) -> (r: Result<TableType, HandleError>)
        ensures
            match self.check(ctx@) {
                Ok(()) => r == Ok::<TableType, HandleError>(self.state(ctx@).ty),
                Err(e) => r == Err::<TableType, HandleError>(e),
            },
    {
        match self.handle.get(ctx) {
            Ok(t) => Ok(t.ty()),
            Err(e) => Err(e),
        }
    }

    /// The value that `slot` holds, as it is handed out when `functions`
    /// functions are in the arena of identity `id`: a function in a slot is
    /// handed out as a new function of the arena.
    pub open spec fn slot_value(id: ContextId, functions: nat, slot: Option<HostFunction>) -> spec_fn(
        Value,
    ) -> bool {
        |v: Value|
            match slot {
                None => v == Value::FuncRef(None),
                Some(_) => v matches Value::FuncRef(Some(f)) && f.spec_context_id() == id
                    && f.spec_index() == functions,
            }
    }

    /// The element in slot `index`; `None` when the table has no such slot.
    /// An empty slot gives the null reference. A function in the slot is
    /// stored in the arena as a new function without parameters or results,
    /// and the reference to that is returned.
    pub fn get(&self, ctx: &mut ContextObjects, index: u32) -> (r: Result<
        Option<Value>,
        RuntimeError,
    >)
        ensures
            old(ctx)@.wf() ==> final(ctx)@.wf(),
            match self.check(old(ctx)@) {
                Err(e) => r == Err::<Option<Value>, RuntimeError>(RuntimeError::of_handle(e))
                    && final(ctx)@ == old(ctx)@,
                Ok(()) => {
                    let elements = self.state(old(ctx)@).elements;
                    if index >= elements.len() {
                        r == Ok::<Option<Value>, RuntimeError>(None) && final(ctx)@ == old(ctx)@
                    } else {
                        &&& r matches Ok(Some(v)) && Self::slot_value(
                            old(ctx)@.id,
                            old(ctx)@.functions.len(),
                            elements[index as int],
                        )(v)
                        &&& final(ctx)@ == match elements[index as int] {
                            None => old(ctx)@,
                            Some(f) => old(ctx)@.push_function(
                                FunctionState {
                                    function: f,
                                    sig: FunctionSig { params: Seq::empty(), results: Seq::empty() },
                                },
                            ),
                        }
                    }
                },
            },
    {
        let slot = match self.handle.get(ctx) {
            Ok(t) => t.table().get(index as usize),
            Err(e) => {
                return Err(RuntimeError::from_handle(e));
            },
        };
        match slot {
            None => Ok(None),
            Some(None) => Ok(Some(Value::FuncRef(None))),
            Some(Some(func)) => {
                let ty = FunctionType::new(Vec::new(), Vec::new());
                let vm_function = VMFunction::new(func, ty);
                let function = Function::from_vm_export(ctx, vm_function);
                Ok(Some(Value::FuncRef(Some(function))))
            },
        }
    }

    /// The outcome of putting `val` into slot `index`: the table's identity
    /// is compared with the arena's first, then the value is looked at, then
    /// the table's position, then the index.
    pub open spec fn set_outcome(&self, arena: ArenaState, index: u32, val: Value) -> Result<
        HostFunction,
        RuntimeError,
    > {
        if self.spec_context_id() != arena.id {
            Err(RuntimeError::CrossContextUse)
        } else {
            match function_of(arena, val) {
                Err(e) => Err(e),
                Ok(f) => if self.spec_index() >= arena.tables.len() {
                    Err(RuntimeError::InvalidHandle)
                } else if index < self.state(arena).elements.len() {
                    Ok(f)
                } else {
                    Err(RuntimeError::IndexOutOfBounds)
                },
            }
        }
    }

    /// Puts the function that `val` refers to into slot `index`. On failure
    /// the table is as it was.
    pub fn set(&self, ctx: &mut ContextObjects, index: u32, val: Value) -> (r: Result<
        (),
        RuntimeError,
    >)
        ensures
            old(ctx)@.wf() ==> final(ctx)@.wf(),
            match self.set_outcome(old(ctx)@, index, val) {
                Ok(f) => r is Ok && final(ctx)@ == old(ctx)@.with_table(
                    self.spec_index() as int,
                    TableState {
                        elements: self.state(old(ctx)@).elements.update(index as int, Some(f)),
                        ty: self.state(old(ctx)@).ty,
                    },
                ),
                Err(e) => r == Err::<(), RuntimeError>(e) && final(ctx)@ == old(ctx)@,
            },
    {
        if !self.is_from_context(ctx) {
            return Err(RuntimeError::CrossContextUse);
        }
        let item = match get_function(ctx, val) {
            Ok(f) => f,
            Err(e) => {
                return Err(e);
            },
        };
        match self.handle.get_mut(ctx) {
            Err(e) => Err(RuntimeError::from_handle(e)),
            Ok(table) => set_table_item(table, index, item),
        }
    }

    /// The number of slots of the table.
    pub fn size(&self, ctx: &ContextObjects) -> (r: Result<usize, HandleError>)
        ensures
            match self.check(ctx@) {
                Ok(()) => r == Ok::<usize, HandleError>(self.state(ctx@).elements.len() as usize)
                    && self.state(ctx@).elements.len() <= usize::MAX,
                Err(e) => r == Err::<usize, HandleError>(e),
            },
    {
        match self.handle.get(ctx) {
            Ok(t) => Ok(t.table().length()),
            Err(e) => Err(e),
        }
    }

    /// Makes a table of `ctx` out of a bare position in its arena.
    pub fn from_vm_extern(ctx: &ContextObjects, internal: InternalContextHandle<VMTable>) -> (r:
        Table)
        ensures
            r.spec_context_id() == ctx@.id,
            r.spec_index() == internal.spec_index(),
    {
        Table { handle: ContextHandle::from_internal(ctx.id(), internal) }
    }

    /// The bare position of this table in its arena.
    pub fn to_vm_extern(&self) -> (r: InternalContextHandle<VMTable>)
        ensures
            r.spec_index() == self.spec_index(),
    {
        self.handle.internal_handle()
    }

    /// Whether this table belongs to `ctx`.
    pub fn is_from_context(&self, ctx: &ContextObjects) -> (r: bool)
        ensures
            r == (self.spec_context_id() == ctx@.id),
    {
        self.handle.context_id() == ctx.id()
    }

    /// The table itself, as the arena of `ctx` holds it.
    pub fn get_vm_table<'a>(&self, ctx: &'a ContextObjects) -> (r: Result<&'a VMTable, HandleError>)
        ensures
            match r {
                Ok(t) => self.check(ctx@) is Ok && t@ == self.state(ctx@),
                Err(e) => self.check(ctx@) == Err::<(), HandleError>(e),
            },
    {
        self.handle.get(ctx)
    }
}

} // verus!
