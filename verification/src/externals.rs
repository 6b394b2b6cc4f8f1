//! External objects as the host holds them: functions, globals, and the
//! closed sum of the four kinds.
use crate::context::{ArenaState, ContextHandle, ContextId, ContextObjects, HandleError, InternalContextHandle};
use crate::error::RuntimeError;
use crate::export::{Export, FunctionState, VMFunction, VMGlobal};
use crate::memory::Memory;
use crate::table::Table;
use crate::resource::GlobalCell;
use crate::types::{
    ExternKind, ExternType, ExternTypeView, FunctionType, GlobalType, Mutability, Type,
};
use crate::value::Value;
use vstd::prelude::*;

verus! {

/// A function of some context. The value is a handle: the callable lives in
/// the context's arena.
#[derive(Debug, Clone, Copy, PartialEq, Eq)]
pub struct Function {
    handle: ContextHandle<VMFunction>,
}

impl Function {
    /// The identity of the context that owns the function.
    pub closed spec fn spec_context_id(&self) -> ContextId {
        self.handle.spec_context_id()
    }

    /// The function's position in the arena.
    pub closed spec fn spec_index(&self) -> nat {
        self.handle.spec_index()
    }

    /// The function of the context of identity `id` at position `index`.
    pub closed spec fn spec_at(id: ContextId, index: nat) -> Function {
        Function { handle: ContextHandle::spec_new(id, index) }
    }

    /// A function is determined by its context and its position.
    pub proof fn lemma_spec_at(f: Function)
        ensures
            f == Self::spec_at(f.spec_context_id(), f.spec_index()),
            f.spec_index() <= usize::MAX,
    {
        ContextHandle::<VMFunction>::lemma_spec_new(f.handle);
    }

    /// Functions of the same context and position are the same function.
    pub broadcast proof fn lemma_parts_are_identity(a: Function, b: Function)
        ensures
            (#[trigger] a.spec_context_id() == #[trigger] b.spec_context_id() && a.spec_index()
                == b.spec_index()) <==> a == b,
    {
        ContextHandle::<VMFunction>::lemma_parts_are_identity(a.handle, b.handle);
    }

    /// What following this function's handle into `arena` gives.
    pub open spec fn check(&self, arena: ArenaState) -> Result<(), HandleError> {
        arena.check(self.spec_context_id(), self.spec_index(), arena.functions.len())
    }

    /// The function's state in `arena`, where the handle can be followed.
    pub open spec fn state(&self, arena: ArenaState) -> FunctionState {
        arena.functions[self.spec_index() as int]
    }

    /// The handle behind this function.
    pub fn handle(&self) -> (r: ContextHandle<VMFunction>)
        ensures
            r.spec_context_id() == self.spec_context_id(),
            r.spec_index() == self.spec_index(),
    {
        self.handle
    }

    /// Hands `vm_function` to the arena of `ctx` and returns the handle to
    /// it.
    pub fn from_vm_export(ctx: &mut ContextObjects, vm_function: VMFunction) -> (r: Function)
        ensures
            r.spec_context_id() == old(ctx)@.id,
            r.spec_index() == old(ctx)@.functions.len(),
            final(ctx)@ == old(ctx)@.push_function(vm_function@),
    {
        Function { handle: ContextHandle::<VMFunction>::new(ctx, vm_function) }
    }

    /// Makes a function of `ctx` out of a bare position in its arena.
    pub fn from_vm_extern(ctx: &ContextObjects, internal: InternalContextHandle<VMFunction>) -> (r:
        Function)
        ensures
            r.spec_context_id() == ctx@.id,
            r.spec_index() == internal.spec_index(),
    {
        Function { handle: ContextHandle::from_internal(ctx.id(), internal) }
    }

    /// The bare position of this function in its arena.
    pub fn to_vm_extern(&self) -> (r: InternalContextHandle<VMFunction>)
        ensures
            r.spec_index() == self.spec_index(),
    {
        self.handle.internal_handle()
    }

    /// Whether this function belongs to `ctx`.
    pub fn is_from_context(&self, ctx: &ContextObjects) -> (r: bool)
        ensures
            r == (self.spec_context_id() == ctx@.id),
    {
        self.handle.context_id() == ctx.id()
    }

    /// The declared type of the function.
    pub fn ty(&self, ctx: &ContextObjects) -> (r: Result<FunctionType, HandleError>)
        ensures
            match r {
                Ok(t) => self.check(ctx@) is Ok && t@ == self.state(ctx@).sig,
                Err(e) => self.check(ctx@) == Err::<(), HandleError>(e),
            },
    {
        match self.handle.get(ctx) {
            Ok(f) => Ok(f.ty().clone()),
            Err(e) => Err(e),
        }
    }
}

/// The bits that hold `val` in the cell of a global. A global holds numbers
/// only.
pub open spec fn spec_bits_of(val: Value) -> Option<u64> {
    match val {
        Value::I32(v) => Some((v as u32) as u64),
        Value::I64(v) => Some(v as u64),
        Value::F32(bits) => Some(bits as u64),
        Value::F64(bits) => Some(bits),
        Value::FuncRef(_) => None,
    }
}

/// The value of type `ty` that the bits of a cell hold.
pub open spec fn spec_value_of(ty: Type, bits: u64) -> Option<Value> {
    match ty {
        Type::I32 => Some(Value::I32((bits as u32) as i32)),
        Type::I64 => Some(Value::I64(bits as i64)),
        Type::F32 => Some(Value::F32(bits as u32)),
        Type::F64 => Some(Value::F64(bits)),
        _ => None,
    }
}

/// A number that was put into a cell is the number that is read from it.
pub proof fn lemma_cell_round_trip(val: Value)
    requires
        !(val is FuncRef),
    ensures
        spec_bits_of(val) matches Some(bits) && spec_value_of(val.spec_ty(), bits) == Some(val),
{
    match val {
        Value::I32(v) => {
            assert(((((v as u32) as u64) as u32) as i32) == v) by (bit_vector);
        },
        Value::I64(v) => {
            assert(((v as u64) as i64) == v) by (bit_vector);
        },
        Value::F32(bits) => {
            assert(((bits as u64) as u32) == bits) by (bit_vector);
        },
        Value::F64(_) => {},
        Value::FuncRef(_) => {},
    }
}

/// The bits that hold `val` in the cell of a global.
fn bits_of(val: Value) -> (r: Option<u64>)
    ensures
        r == spec_bits_of(val),
{
    match val {
        Value::I32(v) => Some((#[verifier::truncate] (v as u32)) as u64),
        Value::I64(v) => Some(#[verifier::truncate] (v as u64)),
        Value::F32(bits) => Some(bits as u64),
        Value::F64(bits) => Some(bits),
        Value::FuncRef(_) => None,
    }
}

/// The value of type `ty` that the bits of a cell hold.
fn value_of(ty: Type, bits: u64) -> (r: Option<Value>)
    ensures
        r == spec_value_of(ty, bits),
{
    match ty {
        Type::I32 => Some(
            Value::I32(#[verifier::truncate] ((#[verifier::truncate] (bits as u32)) as i32)),
        ),
        Type::I64 => Some(Value::I64(#[verifier::truncate] (bits as i64))),
        Type::F32 => Some(Value::F32(#[verifier::truncate] (bits as u32))),
        Type::F64 => Some(Value::F64(bits)),
        _ => None,
    }
}

/// A global of some context. The value is a handle: the cell lives in the
/// context's arena.
#[derive(Debug, Clone, Copy, PartialEq, Eq)]
pub struct Global {
    handle: ContextHandle<VMGlobal>,
}

impl Global {
    /// The identity of the context that owns the global.
    pub closed spec fn spec_context_id(&self) -> ContextId {
        self.handle.spec_context_id()
    }

    /// The global's position in the arena.
    pub closed spec fn spec_index(&self) -> nat {
        self.handle.spec_index()
    }

    /// What following this global's handle into `arena` gives.
    pub open spec fn check(&self, arena: ArenaState) -> Result<(), HandleError> {
        arena.check(self.spec_context_id(), self.spec_index(), arena.globals.len())
    }

    /// The global's state in `arena`, where the handle can be followed.
    pub open spec fn state(&self, arena: ArenaState) -> VMGlobal {
        arena.globals[self.spec_index() as int]
    }

    /// The handle behind this global.
    pub fn handle(&self) -> (r: ContextHandle<VMGlobal>)
        ensures
            r.spec_context_id() == self.spec_context_id(),
            r.spec_index() == self.spec_index(),
    {
        self.handle
    }

    /// The outcome of creating a global that holds `val`: the bits of its
    /// cell, or why there is no global. Whether the value belongs to the
    /// context is decided first.
    pub open spec fn new_outcome(arena: ArenaState, val: Value) -> Result<u64, RuntimeError> {
        if !val.usable_in(arena.id) {
            Err(RuntimeError::CrossContextUse)
        } else {
            match spec_bits_of(val) {
                Some(bits) => Ok(bits),
                None => Err(RuntimeError::UnsupportedGlobalType),
            }
        }
    }

    /// Creates a constant global that holds `val`.
    pub fn new(ctx: &mut ContextObjects, val: Value) -> (r: Result<Global, RuntimeError>)
        ensures
            old(ctx)@.wf() ==> final(ctx)@.wf(),
            match r {
                Ok(g) => {
                    &&& Self::new_outcome(old(ctx)@, val) matches Ok(bits)
                    &&& final(ctx)@ == old(ctx)@.push_global(
                        VMGlobal {
                            global: GlobalCell(bits),
                            ty: GlobalType { ty: val.spec_ty(), mutability: Mutability::Const },
                        },
                    )
                    &&& g.spec_context_id() == old(ctx)@.id
                    &&& g.spec_index() == old(ctx)@.globals.len()
                },
                Err(e) => Self::new_outcome(old(ctx)@, val) == Err::<u64, RuntimeError>(e)
                    && final(ctx)@ == old(ctx)@,
            },
    {
        Self::from_value(ctx, val, Mutability::Const)
    }

    /// Creates a global that holds `val` and can be written.
    pub fn new_mut(ctx: &mut ContextObjects, val: Value) -> (r: Result<Global, RuntimeError>)
        ensures
            old(ctx)@.wf() ==> final(ctx)@.wf(),
            match r {
                Ok(g) => {
                    &&& Self::new_outcome(old(ctx)@, val) matches Ok(bits)
                    &&& final(ctx)@ == old(ctx)@.push_global(
                        VMGlobal {
                            global: GlobalCell(bits),
                            ty: GlobalType { ty: val.spec_ty(), mutability: Mutability::Var },
                        },
                    )
                    &&& g.spec_context_id() == old(ctx)@.id
                    &&& g.spec_index() == old(ctx)@.globals.len()
                },
                Err(e) => Self::new_outcome(old(ctx)@, val) == Err::<u64, RuntimeError>(e)
                    && final(ctx)@ == old(ctx)@,
            },
    {
        Self::from_value(ctx, val, Mutability::Var)
    }

    /// Creates a global of the given mutability that holds `val`.
    fn from_value(ctx: &mut ContextObjects, val: Value, mutability: Mutability) -> (r: Result<
        Global,
        RuntimeError,
    >)
        ensures
            old(ctx)@.wf() ==> final(ctx)@.wf(),
            match r {
                Ok(g) => {
                    &&& Self::new_outcome(old(ctx)@, val) matches Ok(bits)
                    &&& final(ctx)@ == old(ctx)@.push_global(
                        VMGlobal {
                            global: GlobalCell(bits),
                            ty: GlobalType { ty: val.spec_ty(), mutability },
                        },
                    )
                    &&& g.spec_context_id() == old(ctx)@.id
                    &&& g.spec_index() == old(ctx)@.globals.len()
                },
                Err(e) => Self::new_outcome(old(ctx)@, val) == Err::<u64, RuntimeError>(e)
                    && final(ctx)@ == old(ctx)@,
            },
    {
        if !val.is_from_context(ctx) {
            return Err(RuntimeError::CrossContextUse);
        }
        let bits = match bits_of(val) {
            Some(bits) => bits,
            None => {
                return Err(RuntimeError::UnsupportedGlobalType);
            },
        };
        let ty = GlobalType::new(val.ty(), mutability);
        Ok(Self::from_vm_export(ctx, VMGlobal::new(GlobalCell(bits), ty)))
    }

    /// The outcome of reading the global: the handle is checked first.
    pub open spec fn get_outcome(&self, arena: ArenaState) -> Result<Value, RuntimeError> {
        match self.check(arena) {
            Err(e) => Err(RuntimeError::of_handle(e)),
            Ok(()) => match spec_value_of(self.state(arena).ty.ty, self.state(arena).global.0) {
                Some(v) => Ok(v),
                None => Err(RuntimeError::UnsupportedGlobalType),
            },
        }
    }

    /// The value that the global holds.
    pub fn get(&self, ctx: &ContextObjects) -> (r: Result<Value, RuntimeError>)
        ensures
            r == self.get_outcome(ctx@),
    {
        match self.handle.get(ctx) {
            Err(e) => Err(RuntimeError::from_handle(e)),
            Ok(g) => match value_of(g.ty.ty, g.global.0) {
                Some(v) => Ok(v),
                None => Err(RuntimeError::UnsupportedGlobalType),
            },
        }
    }

    /// The outcome of writing `val` to the global: the bits to store, or why
    /// nothing is stored. The identities of the global and of the value are
    /// compared with the arena's before the arena is looked into; then the
    /// global has to be one that can be written, and of the value's type.
    pub open spec fn set_outcome(&self, arena: ArenaState, val: Value) -> Result<u64, RuntimeError> {
        if self.spec_context_id() != arena.id || !val.usable_in(arena.id) {
            Err(RuntimeError::CrossContextUse)
        } else if self.spec_index() >= arena.globals.len() {
            Err(RuntimeError::InvalidHandle)
        } else if self.state(arena).ty.mutability == Mutability::Const {
            Err(RuntimeError::ImmutableGlobal)
        } else if val.spec_ty() != self.state(arena).ty.ty {
            Err(RuntimeError::GlobalTypeMismatch)
        } else {
            match spec_bits_of(val) {
                Some(bits) => Ok(bits),
                None => Err(RuntimeError::UnsupportedGlobalType),
            }
        }
    }

    /// Writes `val` to the global. On failure the global is as it was.
    pub fn set(&self, ctx: &mut ContextObjects, val: Value) -> (r: Result<(), RuntimeError>)
        ensures
            old(ctx)@.wf() ==> final(ctx)@.wf(),
            match self.set_outcome(old(ctx)@, val) {
                Ok(bits) => r is Ok && final(ctx)@ == old(ctx)@.with_global(
                    self.spec_index() as int,
                    VMGlobal { global: GlobalCell(bits), ty: self.state(old(ctx)@).ty },
                ),
                Err(e) => r == Err::<(), RuntimeError>(e) && final(ctx)@ == old(ctx)@,
            },
    {
        if !self.is_from_context(ctx) || !val.is_from_context(ctx) {
            return Err(RuntimeError::CrossContextUse);
        }
        let bits = bits_of(val);
        let value_ty = val.ty();
        match self.handle.get_mut(ctx) {
            Err(e) => Err(RuntimeError::from_handle(e)),
            Ok(global) => {
                if !global.ty.mutability.is_mutable() {
                    return Err(RuntimeError::ImmutableGlobal);
                }
                if value_ty != global.ty.ty {
                    return Err(RuntimeError::GlobalTypeMismatch);
                }
                match bits {
                    Some(bits) => {
                        global.global = GlobalCell(bits);
                        Ok(())
                    },
                    None => Err(RuntimeError::UnsupportedGlobalType),
                }
            },
        }
    }

    /// Hands `vm_global` to the arena of `ctx` and returns the handle to it.
    pub fn from_vm_export(ctx: &mut ContextObjects, vm_global: VMGlobal) -> (r: Global)
        ensures
            r.spec_context_id() == old(ctx)@.id,
            r.spec_index() == old(ctx)@.globals.len(),
            final(ctx)@ == old(ctx)@.push_global(vm_global),
    {
        Global { handle: ContextHandle::<VMGlobal>::new(ctx, vm_global) }
    }

    /// Makes a global of `ctx` out of a bare position in its arena.
    pub fn from_vm_extern(ctx: &ContextObjects, internal: InternalContextHandle<VMGlobal>) -> (r:
        Global)
        ensures
            r.spec_context_id() == ctx@.id,
            r.spec_index() == internal.spec_index(),
    {
        Global { handle: ContextHandle::from_internal(ctx.id(), internal) }
    }

    /// The bare position of this global in its arena.
    pub fn to_vm_extern(&self) -> (r: InternalContextHandle<VMGlobal>)
        ensures
            r.spec_index() == self.spec_index(),
    {
        self.handle.internal_handle()
    }

    /// Whether this global belongs to `ctx`.
    pub fn is_from_context(&self, ctx: &ContextObjects) -> (r: bool)
        ensures
            r == (self.spec_context_id() == ctx@.id),
    {
        self.handle.context_id() == ctx.id()
    }

    /// The declared type of the global.
    pub fn ty(&self, ctx: &ContextObjects) -> (r: Result<GlobalType, HandleError>)
        ensures
            match self.check(ctx@) {
                Ok(()) => r == Ok::<GlobalType, HandleError>(self.state(ctx@).ty),
                Err(e) => r == Err::<GlobalType, HandleError>(e),
            },
    {
        match self.handle.get(ctx) {
            Ok(g) => Ok(g.ty),
            Err(e) => Err(e),
        }
    }
}

/// An external object of some context: one of the four kinds.
#[derive(Debug, Clone, Copy, PartialEq, Eq)]
pub enum Extern {
    /// A function.
    Function(Function),
    /// A global.
    Global(Global),
    /// A table.
    Table(Table),
    /// A linear memory.
    Memory(Memory),
}

impl Extern {
    /// The kind of the object.
    pub open spec fn spec_kind(&self) -> ExternKind {
        match *self {
            Extern::Function(_) => ExternKind::Function,
            Extern::Global(_) => ExternKind::Global,
            Extern::Table(_) => ExternKind::Table,
            Extern::Memory(_) => ExternKind::Memory,
        }
    }

    /// The identity of the context that owns the object.
    pub open spec fn spec_context_id(&self) -> ContextId {
        match *self {
            Extern::Function(f) => f.spec_context_id(),
            Extern::Global(g) => g.spec_context_id(),
            Extern::Table(t) => t.spec_context_id(),
            Extern::Memory(m) => m.spec_context_id(),
        }
    }

    /// The object's position in its list of the arena.
    pub open spec fn spec_index(&self) -> nat {
        match *self {
            Extern::Function(f) => f.spec_index(),
            Extern::Global(g) => g.spec_index(),
            Extern::Table(t) => t.spec_index(),
            Extern::Memory(m) => m.spec_index(),
        }
    }

    /// What following this object's handle into `arena` gives.
    pub open spec fn check(&self, arena: ArenaState) -> Result<(), HandleError> {
        arena.check(
            self.spec_context_id(),
            self.spec_index(),
            Export::count(arena, self.spec_kind()),
        )
    }

    /// The declared type of the object in `arena`, where the handle can be
    /// followed.
    pub open spec fn spec_ty(&self, arena: ArenaState) -> ExternTypeView {
        match *self {
            Extern::Function(f) => ExternTypeView::Function(f.state(arena).sig),
            Extern::Global(g) => ExternTypeView::Global(g.state(arena).ty),
            Extern::Table(t) => ExternTypeView::Table(t.state(arena).ty),
            Extern::Memory(m) => ExternTypeView::Memory(m.state(arena).ty),
        }
    }

    /// The kind of the object.
    pub fn kind(&self) -> (r: ExternKind)
        ensures
            r == self.spec_kind(),
    {
        match self {
            Extern::Function(_) => ExternKind::Function,
            Extern::Global(_) => ExternKind::Global,
            Extern::Table(_) => ExternKind::Table,
            Extern::Memory(_) => ExternKind::Memory,
        }
    }

    /// The declared type of the object.
    pub fn ty(&self, ctx: &ContextObjects) -> (r: Result<ExternType, HandleError>)
        ensures
            match r {
                Ok(t) => self.check(ctx@) is Ok && t@ == self.spec_ty(ctx@),
                Err(e) => self.check(ctx@) == Err::<(), HandleError>(e),
            },
    {
        match self {
            Extern::Function(f) => match f.ty(ctx) {
                Ok(t) => Ok(ExternType::Function(t)),
                Err(e) => Err(e),
            },
            Extern::Global(g) => match g.ty(ctx) {
                Ok(t) => Ok(ExternType::Global(t)),
                Err(e) => Err(e),
            },
            Extern::Table(t) => match t.ty(ctx) {
                Ok(t) => Ok(ExternType::Table(t)),
                Err(e) => Err(e),
            },
            Extern::Memory(m) => match m.ty(ctx) {
                Ok(t) => Ok(ExternType::Memory(t)),
                Err(e) => Err(e),
            },
        }
    }

    /// Makes an object of `ctx` out of a kind and a bare position.
    pub fn from_vm_extern(ctx: &ContextObjects, export: Export) -> (r: Extern)
        ensures
            r.spec_kind() == export.spec_kind(),
            r.spec_index() == export.spec_index(),
            r.spec_context_id() == ctx@.id,
    {
        match export {
            Export::Function(f) => Extern::Function(Function::from_vm_extern(ctx, f)),
            Export::Memory(m) => Extern::Memory(Memory::from_vm_extern(ctx, m)),
            Export::Global(g) => Extern::Global(Global::from_vm_extern(ctx, g)),
            Export::Table(t) => Extern::Table(Table::from_vm_extern(ctx, t)),
        }
    }

    /// The kind and bare position of the object, without its context.
    pub fn to_export(&self) -> (r: Export)
        ensures
            r.spec_kind() == self.spec_kind(),
            r.spec_index() == self.spec_index(),
    {
        match self {
            Extern::Function(f) => Export::Function(f.to_vm_extern()),
            Extern::Global(g) => Export::Global(g.to_vm_extern()),
            Extern::Memory(m) => Export::Memory(m.to_vm_extern()),
            Extern::Table(t) => Export::Table(t.to_vm_extern()),
        }
    }

    /// Whether the object belongs to `ctx`.
    pub fn is_from_context(&self, ctx: &ContextObjects) -> (r: bool)
        ensures
            r == (self.spec_context_id() == ctx@.id),
    {
        match self {
            Extern::Function(f) => f.is_from_context(ctx),
            Extern::Global(g) => g.is_from_context(ctx),
            Extern::Memory(m) => m.is_from_context(ctx),
            Extern::Table(t) => t.is_from_context(ctx),
        }
    }
}

/// Why an external object could not be taken as an object of one kind.
#[derive(Debug, PartialEq, Eq, Hash)]
pub enum ExportError {
    /// The object is of another kind.
    IncompatibleType,
    /// There is no object of that name.
    Missing(String),
}

impl Clone for ExportError {
    fn clone(&self) -> (r: Self)
        ensures
            r == *self,
    {
        match self {
            ExportError::IncompatibleType => ExportError::IncompatibleType,
            ExportError::Missing(name) => ExportError::Missing(name.clone()),
        }
    }
}

/// One of the four kinds of external object, as a type.
pub trait Exportable: Sized {
    /// The object inside `ext` where it is of this kind.
    spec fn spec_from_extern(ext: &Extern) -> Option<Self>;

    /// The object inside `ext`, or `IncompatibleType` where it is of another
    /// kind.
    fn get_self_from_extern(ext: &Extern) -> (r: Result<&Self, ExportError>)
        ensures
            match Self::spec_from_extern(ext) {
                Some(x) => r matches Ok(y) && *y == x,
                None => r matches Err(e) && e == ExportError::IncompatibleType,
            },
    ;
}

impl Exportable for Memory {
    open spec fn spec_from_extern(ext: &Extern) -> Option<Memory> {
        match *ext {
            Extern::Memory(m) => Some(m),
            _ => None,
        }
    }

    fn get_self_from_extern(ext: &Extern) -> (r: Result<&Memory, ExportError>) {
        match ext {
            Extern::Memory(memory) => Ok(memory),
            _ => Err(ExportError::IncompatibleType),
        }
    }
}

impl Exportable for Table {
    open spec fn spec_from_extern(ext: &Extern) -> Option<Table> {
        match *ext {
            Extern::Table(t) => Some(t),
            _ => None,
        }
    }

    fn get_self_from_extern(ext: &Extern) -> (r: Result<&Table, ExportError>) {
        match ext {
            Extern::Table(table) => Ok(table),
            _ => Err(ExportError::IncompatibleType),
        }
    }
}

impl Exportable for Function {
    open spec fn spec_from_extern(ext: &Extern) -> Option<Function> {
        match *ext {
            Extern::Function(f) => Some(f),
            _ => None,
        }
    }

    fn get_self_from_extern(ext: &Extern) -> (r: Result<&Function, ExportError>) {
        match ext {
            Extern::Function(function) => Ok(function),
            _ => Err(ExportError::IncompatibleType),
        }
    }
}

impl Exportable for Global {
    open spec fn spec_from_extern(ext: &Extern) -> Option<Global> {
        match *ext {
            Extern::Global(g) => Some(g),
            _ => None,
        }
    }

    fn get_self_from_extern(ext: &Extern) -> (r: Result<&Global, ExportError>) {
        match ext {
            Extern::Global(global) => Ok(global),
            _ => Err(ExportError::IncompatibleType),
        }
    }
}

} // verus!
