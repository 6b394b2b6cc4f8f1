//! Linear memories: creation, growth and bounds-checked byte access.
use crate::context::{ArenaState, ContextHandle, ContextId, ContextObjects, HandleError, InternalContextHandle};
use crate::export::{MemoryState, VMMemory};
use crate::resource::{LinearMemory, LinearMemoryState};
use crate::types::MemoryType;
use crate::units::Pages;
use vstd::prelude::*;

verus! {

/// What can go wrong when a memory is created or grown.
#[derive(Debug, PartialEq, Eq, Hash)]
pub enum MemoryError {
    /// The memory cannot take the pages asked for: its maximum, or what this
    /// machine can address, would be exceeded.
    CouldNotGrow {
        /// The size in pages before the call.
        current: Pages,
        /// The number of pages asked for.
        attempted_delta: Pages,
    },
    /// Another failure, in words.
    Generic(String),
    /// The memory belongs to another context than the one it was used with.
    CrossContextUse,
    /// The memory's handle points past what the arena holds.
    InvalidHandle,
}

impl Clone for MemoryError {
    fn clone(&self) -> (r: Self)
        ensures
            r == *self,
    {
        match self {
            MemoryError::CouldNotGrow { current, attempted_delta } => MemoryError::CouldNotGrow {
                current: *current,
                attempted_delta: *attempted_delta,
            },
            MemoryError::Generic(message) => MemoryError::Generic(message.clone()),
            MemoryError::CrossContextUse => MemoryError::CrossContextUse,
            MemoryError::InvalidHandle => MemoryError::InvalidHandle,
        }
    }
}

/// What can go wrong when bytes of a memory are read or written.
#[derive(Clone, Copy, Debug, PartialEq, Eq, Structural, Hash)]
pub enum MemoryAccessError {
    /// The range reaches past the end of the memory.
    HeapOutOfBounds,
    /// The range cannot be represented in the width of an address.
    Overflow,
    /// The bytes read are not UTF-8.
    NonUtf8String,
    /// The memory belongs to another context than the one it was used with.
    CrossContextUse,
    /// The memory's handle points past what the arena holds.
    InvalidHandle,
}

impl MemoryAccessError {
    /// The access error that stands for a handle error.
    pub open spec fn of_handle(e: HandleError) -> MemoryAccessError {
        match e {
            HandleError::CrossContextUse => MemoryAccessError::CrossContextUse,
            HandleError::InvalidHandle => MemoryAccessError::InvalidHandle,
        }
    }

    /// The access error that stands for a handle error.
    pub fn from_handle(e: HandleError) -> (r: MemoryAccessError)
        ensures
            r == Self::of_handle(e),
    {
        match e {
            HandleError::CrossContextUse => MemoryAccessError::CrossContextUse,
            HandleError::InvalidHandle => MemoryAccessError::InvalidHandle,
        }
    }
}

impl MemoryError {
    /// The memory error that stands for a handle error.
    pub open spec fn of_handle(e: HandleError) -> MemoryError {
        match e {
            HandleError::CrossContextUse => MemoryError::CrossContextUse,
            HandleError::InvalidHandle => MemoryError::InvalidHandle,
        }
    }

    /// The memory error that stands for a handle error.
    pub fn from_handle(e: HandleError) -> (r: MemoryError)
        ensures
            r == Self::of_handle(e),
    {
        match e {
            HandleError::CrossContextUse => MemoryError::CrossContextUse,
            HandleError::InvalidHandle => MemoryError::InvalidHandle,
        }
    }
}

/// The outcome of checking the `len` bytes from `offset` against a memory of
/// `size` bytes whose addresses are 32 bits wide. Whether the range can be
/// represented is decided before it is compared with the size.
pub open spec fn check_range32(offset: u64, len: nat, size: nat) -> Result<(), MemoryAccessError> {
    if offset > u32::MAX || len > u32::MAX || offset + len > u32::MAX {
        Err(MemoryAccessError::Overflow)
    } else if offset + len > size {
        Err(MemoryAccessError::HeapOutOfBounds)
    } else {
        Ok(())
    }
}

/// The outcome of checking the `len` bytes from `offset` against a buffer of
/// `size` bytes, with the end of the range computed in 64 bits.
pub open spec fn check_range64(offset: u64, len: nat, size: nat) -> Result<(), MemoryAccessError> {
    if offset + len > u64::MAX {
        Err(MemoryAccessError::Overflow)
    } else if offset + len > size {
        Err(MemoryAccessError::HeapOutOfBounds)
    } else {
        Ok(())
    }
}

/// Checks a range as [`check_range32`] says and returns where it starts.
pub fn checked_range32(offset: u64, len: usize, size: u64) -> (r: Result<usize, MemoryAccessError>)
    ensures
        match r {
            Ok(start) => start == offset && check_range32(offset, len as nat, size as nat) is Ok,
            Err(e) => check_range32(offset, len as nat, size as nat) == Err::<
                (),
                MemoryAccessError,
            >(e),
        },
{
    if offset > u32::MAX as u64 {
        return Err(MemoryAccessError::Overflow);
    }
    if len as u64 > u32::MAX as u64 {
        return Err(MemoryAccessError::Overflow);
    }
    let end: u64 = offset + len as u64;
    if end > u32::MAX as u64 {
        return Err(MemoryAccessError::Overflow);
    }
    if end > size {
        return Err(MemoryAccessError::HeapOutOfBounds);
    }
    Ok(offset as usize)
}

/// Checks a range as [`check_range64`] says and returns where it starts.
pub fn checked_range64(offset: u64, len: usize, size: u64) -> (r: Result<usize, MemoryAccessError>)
    requires
        size <= usize::MAX,
    ensures
        match r {
            Ok(start) => start == offset && check_range64(offset, len as nat, size as nat) is Ok,
            Err(e) => check_range64(offset, len as nat, size as nat) == Err::<
                (),
                MemoryAccessError,
            >(e),
        },
{
    match offset.checked_add(len as u64) {
        None => Err(MemoryAccessError::Overflow),
        Some(end) => {
            if end > size {
                Err(MemoryAccessError::HeapOutOfBounds)
            } else {
                Ok(offset as usize)
            }
        },
    }
}

impl MemoryType {
    /// The declared maximum as a page count.
    pub open spec fn spec_maximum_pages(self) -> Option<u32> {
        match self.maximum {
            Some(p) => Some(p.0),
            None => None,
        }
    }

    /// Whether a memory of this type can be created.
    pub open spec fn allocatable(self) -> bool {
        LinearMemoryState::allocatable(self.minimum.0, self.spec_maximum_pages())
    }

    /// A fresh memory of this type: `minimum` zeroed pages.
    pub open spec fn fresh(self) -> MemoryState {
        MemoryState {
            memory: LinearMemoryState::fresh(self.minimum.0, self.spec_maximum_pages()),
            ty: self,
        }
    }
}

/// A linear memory of some context. The value is a handle: the bytes live in
/// the context's arena.
#[derive(Debug, Clone, Copy, PartialEq, Eq)]
pub struct Memory {
    handle: ContextHandle<VMMemory>,
}

impl Memory {
    /// The identity of the context that owns the memory.
    pub closed spec fn spec_context_id(&self) -> ContextId {
        self.handle.spec_context_id()
    }

    /// The memory's position in the arena.
    pub closed spec fn spec_index(&self) -> nat {
        self.handle.spec_index()
    }

    /// The handle behind this memory.
    pub fn handle(&self) -> (r: ContextHandle<VMMemory>)
        ensures
            r.spec_context_id() == self.spec_context_id(),
            r.spec_index() == self.spec_index(),
    {
        self.handle
    }

    /// The outcome of an access to the `len` bytes from `offset` with the end
    /// of the range computed in 64 bits: the handle is checked first, then
    /// the range.
    pub open spec fn check_wide_access(&self, arena: ArenaState, offset: u64, len: nat) -> Result<
        (),
        MemoryAccessError,
    > {
        match self.check(arena) {
            Err(e) => Err(MemoryAccessError::of_handle(e)),
            Ok(()) => check_range64(offset, len, self.state(arena).memory.bytes.len()),
        }
    }

    /// What following this memory's handle into `arena` gives.
    pub open spec fn check(&self, arena: ArenaState) -> Result<(), HandleError> {
        arena.check(self.spec_context_id(), self.spec_index(), arena.memories.len())
    }

    /// The memory's state in `arena`, where the handle can be followed.
    pub open spec fn state(&self, arena: ArenaState) -> MemoryState {
        arena.memories[self.spec_index() as int]
    }

    /// The outcome of an access to the `len` bytes from `offset`: the handle
    /// is checked first, then the range.
    pub open spec fn check_access(&self, arena: ArenaState, offset: u64, len: nat) -> Result<
        (),
        MemoryAccessError,
    > {
        match self.check(arena) {
            Err(e) => Err(MemoryAccessError::of_handle(e)),
            Ok(()) => check_range32(offset, len, self.state(arena).memory.bytes.len()),
        }
    }

    /// The arena after `data` was stored from `offset` on in this memory.
    pub open spec fn arena_written(&self, arena: ArenaState, offset: u64, data: Seq<u8>) -> ArenaState {
        arena.with_memory(
            self.spec_index() as int,
            MemoryState {
                memory: self.state(arena).memory.written(offset as int, data),
                ty: self.state(arena).ty,
            },
        )
    }

    /// The arena after this memory was grown by `delta` pages.
    pub open spec fn arena_grown(&self, arena: ArenaState, delta: Pages) -> ArenaState {
        arena.with_memory(
            self.spec_index() as int,
            MemoryState {
                memory: self.state(arena).memory.grown(delta.0),
                ty: self.state(arena).ty,
            },
        )
    }

    /// The outcome of growing this memory by `delta` pages: the size before,
    /// or why it was not grown. The declared maximum is held to whatever
    /// buffer the memory was made of.
    pub open spec fn grow_outcome(&self, arena: ArenaState, delta: Pages) -> Result<Pages, MemoryError> {
        match self.check(arena) {
            Err(e) => Err(MemoryError::of_handle(e)),
            Ok(()) => {
                let current = Pages(self.state(arena).memory.pages() as u32);
                if self.state(arena).can_grow(delta.0) {
                    Ok(current)
                } else {
                    Err(MemoryError::CouldNotGrow { current, attempted_delta: delta })
                }
            },
        }
    }

    /// Creates a memory of type `ty` in `ctx`: `minimum` zeroed pages. Fails,
    /// with the arena untouched, when no memory of that type can be made.
    pub fn new(ctx: &mut ContextObjects, ty: MemoryType) -> (r: Result<Memory, MemoryError>)
        ensures
            old(ctx)@.wf() ==> final(ctx)@.wf(),
            match r {
                Ok(m) => {
                    &&& ty.allocatable()
                    &&& m.spec_context_id() == old(ctx)@.id
                    &&& m.spec_index() == old(ctx)@.memories.len()
                    &&& final(ctx)@ == old(ctx)@.push_memory(ty.fresh())
                },
                Err(e) => {
                    &&& !ty.allocatable()
                    &&& e matches MemoryError::Generic(s) && s@
                        == "Error while creating the memory"@
                    &&& final(ctx)@ == old(ctx)@
                },
            },
    {
        let maximum = match ty.maximum {
            Some(p) => Some(p.0),
            None => None,
        };
        match LinearMemory::new(ty.minimum.0, maximum) {
            None => Err(MemoryError::Generic("Error while creating the memory".to_owned())),
            Some(memory) => {
                let vm_memory = VMMemory::new(memory, ty);
                Ok(Self::from_vm_export(ctx, vm_memory))
            },
        }
    }

    /// Hands `vm_memory` to the arena of `ctx` and returns the handle to it.
    pub fn from_vm_export(ctx: &mut ContextObjects, vm_memory: VMMemory) -> (r: Memory)
        ensures
            r.spec_context_id() == old(ctx)@.id,
            r.spec_index() == old(ctx)@.memories.len(),
            final(ctx)@ == old(ctx)@.push_memory(vm_memory@),
    {
        Memory { handle: ContextHandle::<VMMemory>::new(ctx, vm_memory) }
    }

    /// Makes a memory of `ctx` out of a bare position in its arena.
    pub fn from_vm_extern(ctx: &ContextObjects, internal: InternalContextHandle<VMMemory>) -> (r:
        Memory)
        ensures
            r.spec_context_id() == ctx@.id,
            r.spec_index() == internal.spec_index(),
    {
        Memory { handle: ContextHandle::from_internal(ctx.id(), internal) }
    }

    /// The bare position of this memory in its arena.
    pub fn to_vm_extern(&self) -> (r: InternalContextHandle<VMMemory>)
        ensures
            r.spec_index() == self.spec_index(),
    {
        self.handle.internal_handle()
    }

    /// Whether this memory belongs to `ctx`.
    pub fn is_from_context(&self, ctx: &ContextObjects) -> (r: bool)
        ensures
            r == (self.spec_context_id() == ctx@.id),
    {
        self.handle.context_id() == ctx.id()
    }

    /// The declared type of the memory.
    pub fn ty(&self, ctx: &ContextObjects) -> (r: Result<MemoryType, HandleError>)
        ensures
            match self.check(ctx@) {
                Ok(()) => r == Ok::<MemoryType, HandleError>(self.state(ctx@).ty),
                Err(e) => r == Err::<MemoryType, HandleError>(e),
            },
    {
        match self.handle.get(ctx) {
            Ok(m) => Ok(m.ty()),
            Err(e) => Err(e),
        }
    }

    /// The committed size of the memory in bytes.
    pub fn data_size(&self, ctx: &ContextObjects) -> (r: Result<u64, HandleError>)
        ensures
            match self.check(ctx@) {
                Ok(()) => r == Ok::<u64, HandleError>(
                    self.state(ctx@).memory.bytes.len() as u64,
                ) && self.state(ctx@).memory.bytes.len() <= u64::MAX,
                Err(e) => r == Err::<u64, HandleError>(e),
            },
    {
        match self.handle.get(ctx) {
            Ok(m) => Ok(m.memory().byte_length()),
            Err(e) => Err(e),
        }
    }

    /// The committed size of the memory in pages.
    pub fn size(&self, ctx: &ContextObjects) -> (r: Result<Pages, HandleError>)
        requires
            ctx@.wf(),
        ensures
            match self.check(ctx@) {
                Ok(()) => r == Ok::<Pages, HandleError>(
                    Pages(self.state(ctx@).memory.pages() as u32),
                ) && self.state(ctx@).memory.pages() <= u32::MAX,
                Err(e) => r == Err::<Pages, HandleError>(e),
            },
    {
        match self.handle.get(ctx) {
            Ok(m) => {
                assert(ctx@.memories[self.spec_index() as int].wf());
                Ok(Pages(m.memory().pages()))
            },
            Err(e) => Err(e),
        }
    }

    /// Grows the memory by `delta` pages and returns its size before. Fails,
    /// with the memory untouched, where the declared maximum, the bound of
    /// the buffer or what this machine can address would be exceeded; the
    /// error then carries the size before and the pages asked for.
    pub fn grow(&self, ctx: &mut ContextObjects, delta: Pages) -> (r: Result<Pages, MemoryError>)
        requires
            old(ctx)@.wf(),
        ensures
            final(ctx)@.wf(),
            r == self.grow_outcome(old(ctx)@, delta),
            r is Ok ==> final(ctx)@ == self.arena_grown(old(ctx)@, delta),
            r is Err ==> final(ctx)@ == old(ctx)@,
    {
        let ghost before = ctx@;
        match self.handle.get_mut(ctx) {
            Err(e) => Err(MemoryError::from_handle(e)),
            Ok(m) => {
                assert(before.memories[self.spec_index() as int].wf());
                let current = m.memory().pages();
                if let Some(maximum) = m.ty().maximum {
                    if current as u64 + delta.0 as u64 > maximum.0 as u64 {
                        return Err(
                            MemoryError::CouldNotGrow {
                                current: Pages(current),
                                attempted_delta: delta,
                            },
                        );
                    }
                }
                match m.memory_mut().grow(delta.0) {
                    Some(previous) => Ok(Pages(previous)),
                    None => Err(
                        MemoryError::CouldNotGrow { current: Pages(current), attempted_delta: delta },
                    ),
                }
            },
        }
    }

    /// Copies the bytes from `offset` into `data`, filling it. The range is
    /// checked in full before any byte is copied: on failure `data` is as it
    /// was.
    pub fn read(&self, ctx: &ContextObjects, offset: u64, data: &mut [u8]) -> (r: Result<
        (),
        MemoryAccessError,
    >)
        ensures
            r == self.check_access(ctx@, offset, old(data)@.len()),
            r is Ok ==> final(data)@ == self.state(ctx@).memory.read(
                offset as int,
                old(data)@.len() as int,
            ),
            r is Err ==> final(data)@ == old(data)@,
    {
        let m = match self.handle.get(ctx) {
            Ok(m) => m,
            Err(e) => {
                return Err(MemoryAccessError::from_handle(e));
            },
        };
        let memory = m.memory();
        match checked_range32(offset, data.len(), memory.byte_length()) {
            Err(e) => Err(e),
            Ok(start) => {
                memory.copy_to(start, data);
                Ok(())
            },
        }
    }

    /// Copies the bytes from `offset` into `buf`, filling it, and hands `buf`
    /// back. Nothing is assumed of what `buf` held before. On failure `buf` is
    /// as it was.
    pub fn read_uninit<'a>(&self, ctx: &ContextObjects, offset: u64, buf: &'a mut [u8]) -> (r:
        Result<&'a mut [u8], MemoryAccessError>)
        ensures
            match r {
                Ok(out) => {
                    &&& self.check_access(ctx@, offset, old(buf)@.len()) is Ok
                    &&& out@ == self.state(ctx@).memory.read(
                        offset as int,
                        old(buf)@.len() as int,
                    )
                    &&& final(buf)@ == final(out)@
                },
                Err(e) => self.check_access(ctx@, offset, old(buf)@.len()) == Err::<
                    (),
                    MemoryAccessError,
                >(e) && final(buf)@ == old(buf)@,
            },
    {
        match self.read(ctx, offset, buf) {
            Ok(()) => Ok(buf),
            Err(e) => Err(e),
        }
    }

    /// Stores `data` from `offset` on. The range is checked in full before
    /// any byte is stored: on failure the memory is as it was.
    pub fn write(&self, ctx: &mut ContextObjects, offset: u64, data: &[u8]) -> (r: Result<
        (),
        MemoryAccessError,
    >)
        ensures
            old(ctx)@.wf() ==> final(ctx)@.wf(),
            r == self.check_access(old(ctx)@, offset, data@.len()),
            r is Ok ==> final(ctx)@ == self.arena_written(old(ctx)@, offset, data@),
            r is Err ==> final(ctx)@ == old(ctx)@,
    {
        match self.handle.get_mut(ctx) {
            Err(e) => Err(MemoryAccessError::from_handle(e)),
            Ok(m) => {
                let memory = m.memory_mut();
                match checked_range32(offset, data.len(), memory.byte_length()) {
                    Err(e) => Err(e),
                    Ok(start) => {
                        memory.copy_from(start, data);
                        Ok(())
                    },
                }
            },
        }
    }

    /// A copy of all the bytes of the memory.
    pub fn uint8view(&self, ctx: &ContextObjects) -> (r: Result<Vec<u8>, HandleError>)
        ensures
            match self.check(ctx@) {
                Ok(()) => r matches Ok(v) && v@ == self.state(ctx@).memory.bytes,
                Err(e) => r == Err::<Vec<u8>, HandleError>(e),
            },
    {
        match self.handle.get(ctx) {
            Err(e) => Err(e),
            Ok(m) => {
                let memory = m.memory();
                let size = memory.byte_length();
                let mut out: Vec<u8> = Vec::new();
                out.resize(size as usize, 0u8);
                memory.copy_to(0, out.as_mut_slice());
                assert(out@ =~= self.state(ctx@).memory.bytes);
                Ok(out)
            },
        }
    }

    /// A read-only view of the memory's bytes that borrows the context: while
    /// it lives the memory can be neither written nor grown.
    pub fn buffer<'a>(&self, ctx: &'a ContextObjects) -> (r: Result<MemoryBuffer<'a>, HandleError>)
        ensures
            match self.check(ctx@) {
                Ok(()) => r matches Ok(b) && b@ == self.state(ctx@).memory.bytes,
                Err(e) => r matches Err(f) && f == e,
            },
    {
        match self.handle.get(ctx) {
            Err(e) => Err(e),
            Ok(m) => Ok(MemoryBuffer { base: m.memory() }),
        }
    }
}

/// The bytes of one memory, borrowed from its context.
#[derive(Clone, Copy)]
pub struct MemoryBuffer<'a> {
    base: &'a LinearMemory,
}

impl<'a> View for MemoryBuffer<'a> {
    type V = Seq<u8>;

    closed spec fn view(&self) -> Seq<u8> {
        self.base@.bytes
    }
}

impl<'a> MemoryBuffer<'a> {
    /// The number of bytes viewed.
    pub fn len(&self) -> (r: u64)
        ensures
            r == self@.len(),
    {
        self.base.byte_length()
    }

    /// Copies the bytes from `offset` into `buf`, filling it. The end of the
    /// range is computed in 64 bits and checked before any byte is copied.
    pub fn read(&self, offset: u64, buf: &mut [u8]) -> (r: Result<(), MemoryAccessError>)
        ensures
            r == check_range64(offset, old(buf)@.len(), self@.len()),
            r is Ok ==> final(buf)@ == self@.subrange(offset as int, offset + old(buf)@.len()),
            r is Err ==> final(buf)@ == old(buf)@,
    {
        let size = self.base.byte_length();
        match checked_range64(offset, buf.len(), size) {
            Err(e) => Err(e),
            Ok(start) => {
                self.base.copy_to(start, buf);
                Ok(())
            },
        }
    }
}

} // verus!
