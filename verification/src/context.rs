//! Contexts: the arena that owns every external object of one session, the
//! identity that tells arenas apart, and the handles that point into one.
use crate::export::{FunctionState, MemoryState, TableState, VMFunction, VMGlobal, VMMemory, VMTable};
use std::marker::PhantomData;
use vstd::prelude::*;
use vstd::std_specs::cmp::PartialEqSpecImpl;

verus! {

/// The identity of one context. Two identities that one source issued are
/// equal exactly when they were issued for the same context. Identities of
/// two sources may coincide: a program that wants its contexts told apart
/// draws all of them from one [`ContextIds`].
#[derive(Clone, Copy, Debug, PartialEq, Eq, Structural, Hash)]
pub struct ContextId(u64);

impl ContextId {
    /// The number this identity was issued as.
    pub closed spec fn spec_value(self) -> u64 {
        self.0
    }

    /// The number this identity was issued as.
    pub fn value(self) -> (r: u64)
        ensures
            r == self.spec_value(),
    {
        self.0
    }

    /// Identities with the same number are the same identity.
    pub broadcast proof fn lemma_value_is_identity(a: ContextId, b: ContextId)
        ensures
            #[trigger] a.spec_value() == #[trigger] b.spec_value() <==> a == b,
    {
    }
}

/// A source of context identities. It issues 1, 2, 3, … and never the same
/// number twice, so the contexts made from one source all differ.
#[derive(Debug)]
pub struct ContextIds {
    issued: u64,
}

impl ContextIds {
    /// How many identities were issued so far.
    pub closed spec fn issued(&self) -> nat {
        self.issued as nat
    }

    /// Whether this source has issued `id`.
    pub open spec fn has_issued(&self, id: ContextId) -> bool {
        1 <= id.spec_value() <= self.issued()
    }

    /// A source that has issued nothing yet.
    pub fn new() -> (r: Self)
        ensures
            r.issued() == 0,
    {
        ContextIds { issued: 0 }
    }

    /// Issues the next identity, which is none of those issued before;
    /// `None` once all numbers are used up.
    pub fn fresh(&mut self) -> (r: Option<ContextId>)
        ensures
            match r {
                Some(id) => {
                    &&& !old(self).has_issued(id)
                    &&& final(self).has_issued(id)
                    &&& id.spec_value() == old(self).issued() + 1
                    &&& final(self).issued() == old(self).issued() + 1
                },
                None => old(self).issued() == u64::MAX && final(self).issued() == old(
                    self,
                ).issued(),
            },
    {
        if self.issued == u64::MAX {
            None
        } else {
            self.issued = self.issued + 1;
            Some(ContextId(self.issued))
        }
    }
}

/// Why a handle could not be followed into an arena.
#[derive(Clone, Copy, Debug, PartialEq, Eq, Structural, Hash)]
pub enum HandleError {
    /// The handle belongs to another context than the one it was used with.
    CrossContextUse,
    /// The handle points past the objects that the arena holds.
    InvalidHandle,
}

/// What an arena is: its identity and the objects it owns, each list in the
/// order of insertion.
#[verifier::ext_equal]
pub struct ArenaState {
    /// The identity of the owning context.
    pub id: ContextId,
    /// The memories.
    pub memories: Seq<MemoryState>,
    /// The tables.
    pub tables: Seq<TableState>,
    /// The globals.
    pub globals: Seq<VMGlobal>,
    /// The functions.
    pub functions: Seq<FunctionState>,
}

impl ArenaState {
    /// An arena of the given identity that owns nothing.
    pub open spec fn empty(id: ContextId) -> Self {
        ArenaState {
            id,
            memories: Seq::empty(),
            tables: Seq::empty(),
            globals: Seq::empty(),
            functions: Seq::empty(),
        }
    }

    /// Every memory holds whole pages within its limit.
    pub open spec fn wf(self) -> bool {
        forall|i: int| 0 <= i < self.memories.len() ==> (#[trigger] self.memories[i]).wf()
    }

    /// The arena with one more memory at the end.
    pub open spec fn push_memory(self, m: MemoryState) -> Self {
        ArenaState { memories: self.memories.push(m), ..self }
    }

    /// The arena with memory `i` replaced.
    pub open spec fn with_memory(self, i: int, m: MemoryState) -> Self {
        ArenaState { memories: self.memories.update(i, m), ..self }
    }

    /// The arena with one more table at the end.
    pub open spec fn push_table(self, t: TableState) -> Self {
        ArenaState { tables: self.tables.push(t), ..self }
    }

    /// The arena with table `i` replaced.
    pub open spec fn with_table(self, i: int, t: TableState) -> Self {
        ArenaState { tables: self.tables.update(i, t), ..self }
    }

    /// The arena with one more global at the end.
    pub open spec fn push_global(self, g: VMGlobal) -> Self {
        ArenaState { globals: self.globals.push(g), ..self }
    }

    /// The arena with global `i` replaced.
    pub open spec fn with_global(self, i: int, g: VMGlobal) -> Self {
        ArenaState { globals: self.globals.update(i, g), ..self }
    }

    /// The arena with one more function at the end.
    pub open spec fn push_function(self, f: FunctionState) -> Self {
        ArenaState { functions: self.functions.push(f), ..self }
    }

    /// What following a handle of identity `id` to position `index` of a list
    /// of `len` objects gives: the identity is compared first, the position
    /// only when the identity matches.
    pub open spec fn check(self, id: ContextId, index: nat, len: nat) -> Result<(), HandleError> {
        if id != self.id {
            Err(HandleError::CrossContextUse)
        } else if index >= len {
            Err(HandleError::InvalidHandle)
        } else {
            Ok(())
        }
    }
}

/// The arena of one context: sole owner of every external object created in
/// it.
#[derive(Debug)]
pub struct ContextObjects {
    id: ContextId,
    memories: Vec<VMMemory>,
    tables: Vec<VMTable>,
    globals: Vec<VMGlobal>,
    functions: Vec<VMFunction>,
}

impl View for ContextObjects {
    type V = ArenaState;

    closed spec fn view(&self) -> ArenaState {
        ArenaState {
            id: self.id,
            memories: Seq::new(self.memories@.len(), |i: int| self.memories@[i]@),
            tables: Seq::new(self.tables@.len(), |i: int| self.tables@[i]@),
            globals: self.globals@,
            functions: Seq::new(self.functions@.len(), |i: int| self.functions@[i]@),
        }
    }
}

impl ContextObjects {
    /// A new arena that owns nothing, with an identity that `ids` has not
    /// issued before; `None` once the identities are used up.
    pub fn new(ids: &mut ContextIds) -> (r: Option<Self>)
        ensures
            match r {
                Some(ctx) => {
                    &&& !old(ids).has_issued(ctx@.id)
                    &&& final(ids).has_issued(ctx@.id)
                    &&& ctx@.id.spec_value() == old(ids).issued() + 1
                    &&& ctx@ == ArenaState::empty(ctx@.id)
                    &&& final(ids).issued() == old(ids).issued() + 1
                },
                None => old(ids).issued() == u64::MAX && final(ids).issued() == old(ids).issued(),
            },
    {
        let id = match ids.fresh() {
            Some(id) => id,
            None => {
                return None;
            },
        };
        let r = ContextObjects {
            id,
            memories: Vec::new(),
            tables: Vec::new(),
            globals: Vec::new(),
            functions: Vec::new(),
        };
        assert(r@ =~= ArenaState::empty(id));
        Some(r)
    }

    /// The identity of the owning context.
    pub fn id(&self) -> (r: ContextId)
        ensures
            r == self@.id,
    {
        self.id
    }
}

/// A position in one of an arena's lists. It does not say which arena: only a
/// [`ContextHandle`] does.
#[derive(Debug)]
pub struct InternalContextHandle<T> {
    idx: usize,
    marker: PhantomData<T>,
}

impl<T> Clone for InternalContextHandle<T> {
    fn clone(&self) -> (r: Self)
        ensures
            r == *self,
    {
        InternalContextHandle { idx: self.idx, marker: PhantomData }
    }
}

impl<T> Copy for InternalContextHandle<T> {

}

impl<T> PartialEq for InternalContextHandle<T> {
    fn eq(&self, other: &Self) -> (r: bool) {
        self.idx == other.idx
    }
}

impl<T> PartialEqSpecImpl for InternalContextHandle<T> {
    open spec fn obeys_eq_spec() -> bool {
        true
    }

    open spec fn eq_spec(&self, other: &Self) -> bool {
        self.spec_index() == other.spec_index()
    }
}

impl<T> Eq for InternalContextHandle<T> {

}

impl<T> InternalContextHandle<T> {
    /// The position pointed at.
    pub closed spec fn spec_index(&self) -> nat {
        self.idx as nat
    }

    /// The position pointed at.
    pub fn index(&self) -> (r: usize)
        ensures
            r == self.spec_index(),
    {
        self.idx
    }

    /// The handle of position `idx`.
    pub fn from_index(idx: usize) -> (r: Self)
        ensures
            r.spec_index() == idx,
    {
        InternalContextHandle { idx, marker: PhantomData }
    }

    /// The handle of position `index`.
    pub closed spec fn spec_from_index(index: nat) -> Self {
        InternalContextHandle { idx: index as usize, marker: PhantomData }
    }

    /// The handle of a position is the one handle with that position.
    pub proof fn lemma_spec_from_index(h: Self)
        ensures
            h == Self::spec_from_index(h.spec_index()),
            h.spec_index() <= usize::MAX,
    {
    }

    /// Handles of the same position are the same handle.
    pub broadcast proof fn lemma_index_is_identity(a: Self, b: Self)
        ensures
            #[trigger] a.spec_index() == #[trigger] b.spec_index() <==> a == b,
    {
    }
}

/// A position in one of an arena's lists together with the identity of the
/// context that the arena belongs to.
#[derive(Debug)]
pub struct ContextHandle<T> {
    id: ContextId,
    internal: InternalContextHandle<T>,
}

impl<T> Clone for ContextHandle<T> {
    fn clone(&self) -> (r: Self)
        ensures
            r == *self,
    {
        ContextHandle { id: self.id, internal: self.internal }
    }
}

impl<T> Copy for ContextHandle<T> {

}

impl<T> PartialEq for ContextHandle<T> {
    fn eq(&self, other: &Self) -> (r: bool) {
        self.id == other.id && self.internal.idx == other.internal.idx
    }
}

impl<T> PartialEqSpecImpl for ContextHandle<T> {
    open spec fn obeys_eq_spec() -> bool {
        true
    }

    open spec fn eq_spec(&self, other: &Self) -> bool {
        self.spec_context_id() == other.spec_context_id() && self.spec_index()
            == other.spec_index()
    }
}

impl<T> Eq for ContextHandle<T> {

}

impl<T> ContextHandle<T> {
    /// The identity of the context that the handle belongs to.
    pub closed spec fn spec_context_id(&self) -> ContextId {
        self.id
    }

    /// The position pointed at.
    pub closed spec fn spec_index(&self) -> nat {
        self.internal.spec_index()
    }

    /// What following this handle into `arena` gives, where the list it
    /// points into holds `len` objects: the identity is compared first, the
    /// position only when the identity matches.
    pub open spec fn check(&self, arena: ArenaState, len: nat) -> Result<(), HandleError> {
        arena.check(self.spec_context_id(), self.spec_index(), len)
    }

    /// The identity of the context that the handle belongs to.
    pub fn context_id(&self) -> (r: ContextId)
        ensures
            r == self.spec_context_id(),
    {
        self.id
    }

    /// The position alone, without the identity.
    pub fn internal_handle(&self) -> (r: InternalContextHandle<T>)
        ensures
            r.spec_index() == self.spec_index(),
    {
        self.internal
    }

    /// Attaches the identity of a context to a position: the one way from a
    /// bare position to a handle.
    pub fn from_internal(id: ContextId, internal: InternalContextHandle<T>) -> (r: Self)
        ensures
            r.spec_context_id() == id,
            r.spec_index() == internal.spec_index(),
    {
        ContextHandle { id, internal }
    }

    /// The handle of identity `id` and position `index`.
    pub closed spec fn spec_new(id: ContextId, index: nat) -> Self {
        ContextHandle { id, internal: InternalContextHandle::spec_from_index(index) }
    }

    /// The handle of an identity and a position is the one handle with these
    /// parts.
    pub proof fn lemma_spec_new(h: Self)
        ensures
            h == Self::spec_new(h.spec_context_id(), h.spec_index()),
            h.spec_index() <= usize::MAX,
    {
    }

    /// Handles of the same identity and position are the same handle.
    pub broadcast proof fn lemma_parts_are_identity(a: Self, b: Self)
        ensures
            (#[trigger] a.spec_context_id() == #[trigger] b.spec_context_id() && a.spec_index()
                == b.spec_index()) <==> a == b,
    {
        InternalContextHandle::<T>::lemma_index_is_identity(a.internal, b.internal);
    }
}

impl InternalContextHandle<VMMemory> {
    /// Stores `val` in the arena and returns where.
    pub fn new(ctx: &mut ContextObjects, val: VMMemory) -> (r: Self)
        ensures
            r.spec_index() == old(ctx)@.memories.len(),
            final(ctx)@ == old(ctx)@.push_memory(val@),
    {
        let idx = ctx.memories.len();
        ctx.memories.push(val);
        assert(ctx@ =~= old(ctx)@.push_memory(val@));
        InternalContextHandle { idx, marker: PhantomData }
    }

    /// The memory at this position; `None` when the arena holds none there.
    pub fn get<'a>(&self, ctx: &'a ContextObjects) -> (r: Option<&'a VMMemory>)
        ensures
            match r {
                Some(m) => self.spec_index() < ctx@.memories.len() && m@
                    == ctx@.memories[self.spec_index() as int],
                None => self.spec_index() >= ctx@.memories.len(),
            },
    {
        if self.idx < ctx.memories.len() {
            Some(&ctx.memories[self.idx])
        } else {
            None
        }
    }

    /// The memory at this position, to be changed in place; `None` when the
    /// arena holds none there.
    pub fn get_mut<'a>(&self, ctx: &'a mut ContextObjects) -> (r: Option<&'a mut VMMemory>)
        ensures
            match r {
                Some(m) => {
                    &&& self.spec_index() < old(ctx)@.memories.len()
                    &&& m@ == old(ctx)@.memories[self.spec_index() as int]
                    &&& final(ctx)@ =~= old(ctx)@.with_memory(self.spec_index() as int, final(m)@)
                },
                None => self.spec_index() >= old(ctx)@.memories.len() && final(ctx)@ == old(ctx)@,
            },
    {
        if self.idx < ctx.memories.len() {
            let m = &mut ctx.memories[self.idx];
            Some(m)
        } else {
            None
        }
    }
}

impl ContextHandle<VMMemory> {
    /// Stores `val` in the arena and returns the handle to it.
    pub fn new(ctx: &mut ContextObjects, val: VMMemory) -> (r: Self)
        ensures
            r.spec_context_id() == old(ctx)@.id,
            r.spec_index() == old(ctx)@.memories.len(),
            final(ctx)@ == old(ctx)@.push_memory(val@),
    {
        let id = ctx.id;
        let internal = InternalContextHandle::<VMMemory>::new(ctx, val);
        ContextHandle { id, internal }
    }

    /// Follows the handle into `ctx`. The identities are compared before the
    /// arena is looked into.
    pub fn get<'a>(&self, ctx: &'a ContextObjects) -> (r: Result<&'a VMMemory, HandleError>)
        ensures
            match r {
                Ok(m) => self.check(ctx@, ctx@.memories.len()) is Ok && m@
                    == ctx@.memories[self.spec_index() as int],
                Err(e) => self.check(ctx@, ctx@.memories.len()) == Err::<(), HandleError>(e),
            },
    {
        if self.id != ctx.id {
            return Err(HandleError::CrossContextUse);
        }
        match self.internal.get(ctx) {
            Some(m) => Ok(m),
            None => Err(HandleError::InvalidHandle),
        }
    }

    /// Follows the handle into `ctx` to change the memory in place. The
    /// identities are compared before the arena is looked into.
    pub fn get_mut<'a>(&self, ctx: &'a mut ContextObjects) -> (r: Result<&'a mut VMMemory, HandleError>)
        ensures
            match r {
                Ok(m) => {
                    &&& self.check(old(ctx)@, old(ctx)@.memories.len()) is Ok
                    &&& m@ == old(ctx)@.memories[self.spec_index() as int]
                    &&& final(ctx)@ == old(ctx)@.with_memory(self.spec_index() as int, final(m)@)
                },
                Err(e) => {
                    &&& self.check(old(ctx)@, old(ctx)@.memories.len()) == Err::<(), HandleError>(e)
                    &&& final(ctx)@ == old(ctx)@
                },
            },
    {
        if self.id != ctx.id {
            return Err(HandleError::CrossContextUse);
        }
        match self.internal.get_mut(ctx) {
            Some(m) => Ok(m),
            None => Err(HandleError::InvalidHandle),
        }
    }
}

impl InternalContextHandle<VMTable> {
    /// Stores `val` in the arena and returns where.
    pub fn new(ctx: &mut ContextObjects, val: VMTable) -> (r: Self)
        ensures
            r.spec_index() == old(ctx)@.tables.len(),
            final(ctx)@ == old(ctx)@.push_table(val@),
    {
        let idx = ctx.tables.len();
        ctx.tables.push(val);
        assert(ctx@ =~= old(ctx)@.push_table(val@));
        InternalContextHandle { idx, marker: PhantomData }
    }

    /// The table at this position; `None` when the arena holds none there.
    pub fn get<'a>(&self, ctx: &'a ContextObjects) -> (r: Option<&'a VMTable>)
        ensures
            match r {
                Some(m) => self.spec_index() < ctx@.tables.len() && m@
                    == ctx@.tables[self.spec_index() as int],
                None => self.spec_index() >= ctx@.tables.len(),
            },
    {
        if self.idx < ctx.tables.len() {
            Some(&ctx.tables[self.idx])
        } else {
            None
        }
    }

    /// The table at this position, to be changed in place; `None` when the
    /// arena holds none there.
    pub fn get_mut<'a>(&self, ctx: &'a mut ContextObjects) -> (r: Option<&'a mut VMTable>)
        ensures
            match r {
                Some(m) => {
                    &&& self.spec_index() < old(ctx)@.tables.len()
                    &&& m@ == old(ctx)@.tables[self.spec_index() as int]
                    &&& final(ctx)@ =~= old(ctx)@.with_table(self.spec_index() as int, final(m)@)
                },
                None => self.spec_index() >= old(ctx)@.tables.len() && final(ctx)@ == old(ctx)@,
            },
    {
        if self.idx < ctx.tables.len() {
            let m = &mut ctx.tables[self.idx];
            Some(m)
        } else {
            None
        }
    }
}

impl ContextHandle<VMTable> {
    /// Stores `val` in the arena and returns the handle to it.
    pub fn new(ctx: &mut ContextObjects, val: VMTable) -> (r: Self)
        ensures
            r.spec_context_id() == old(ctx)@.id,
            r.spec_index() == old(ctx)@.tables.len(),
            final(ctx)@ == old(ctx)@.push_table(val@),
    {
        let id = ctx.id;
        let internal = InternalContextHandle::<VMTable>::new(ctx, val);
        ContextHandle { id, internal }
    }

    /// Follows the handle into `ctx`. The identities are compared before the
    /// arena is looked into.
    pub fn get<'a>(&self, ctx: &'a ContextObjects) -> (r: Result<&'a VMTable, HandleError>)
        ensures
            match r {
                Ok(m) => self.check(ctx@, ctx@.tables.len()) is Ok && m@
                    == ctx@.tables[self.spec_index() as int],
                Err(e) => self.check(ctx@, ctx@.tables.len()) == Err::<(), HandleError>(e),
            },
    {
        if self.id != ctx.id {
            return Err(HandleError::CrossContextUse);
        }
        match self.internal.get(ctx) {
            Some(m) => Ok(m),
            None => Err(HandleError::InvalidHandle),
        }
    }

    /// Follows the handle into `ctx` to change the table in place. The
    /// identities are compared before the arena is looked into.
    pub fn get_mut<'a>(&self, ctx: &'a mut ContextObjects) -> (r: Result<&'a mut VMTable, HandleError>)
        ensures
            match r {
                Ok(m) => {
                    &&& self.check(old(ctx)@, old(ctx)@.tables.len()) is Ok
                    &&& m@ == old(ctx)@.tables[self.spec_index() as int]
                    &&& final(ctx)@ == old(ctx)@.with_table(self.spec_index() as int, final(m)@)
                },
                Err(e) => {
                    &&& self.check(old(ctx)@, old(ctx)@.tables.len()) == Err::<(), HandleError>(e)
                    &&& final(ctx)@ == old(ctx)@
                },
            },
    {
        if self.id != ctx.id {
            return Err(HandleError::CrossContextUse);
        }
        match self.internal.get_mut(ctx) {
            Some(m) => Ok(m),
            None => Err(HandleError::InvalidHandle),
        }
    }
}

impl InternalContextHandle<VMGlobal> {
    /// Stores `val` in the arena and returns where.
    pub fn new(ctx: &mut ContextObjects, val: VMGlobal) -> (r: Self)
        ensures
            r.spec_index() == old(ctx)@.globals.len(),
            final(ctx)@ == old(ctx)@.push_global(val),
    {
        let idx = ctx.globals.len();
        ctx.globals.push(val);
        assert(ctx@ =~= old(ctx)@.push_global(val));
        InternalContextHandle { idx, marker: PhantomData }
    }

    /// The global at this position; `None` when the arena holds none there.
    pub fn get<'a>(&self, ctx: &'a ContextObjects) -> (r: Option<&'a VMGlobal>)
        ensures
            match r {
                Some(m) => self.spec_index() < ctx@.globals.len() && *m
                    == ctx@.globals[self.spec_index() as int],
                None => self.spec_index() >= ctx@.globals.len(),
            },
    {
        if self.idx < ctx.globals.len() {
            Some(&ctx.globals[self.idx])
        } else {
            None
        }
    }

    /// The global at this position, to be changed in place; `None` when the
    /// arena holds none there.
    pub fn get_mut<'a>(&self, ctx: &'a mut ContextObjects) -> (r: Option<&'a mut VMGlobal>)
        ensures
            match r {
                Some(m) => {
                    &&& self.spec_index() < old(ctx)@.globals.len()
                    &&& *m == old(ctx)@.globals[self.spec_index() as int]
                    &&& final(ctx)@ =~= old(ctx)@.with_global(self.spec_index() as int, *final(m))
                },
                None => self.spec_index() >= old(ctx)@.globals.len() && final(ctx)@ == old(ctx)@,
            },
    {
        if self.idx < ctx.globals.len() {
            let m = &mut ctx.globals[self.idx];
            Some(m)
        } else {
            None
        }
    }
}

impl ContextHandle<VMGlobal> {
    /// Stores `val` in the arena and returns the handle to it.
    pub fn new(ctx: &mut ContextObjects, val: VMGlobal) -> (r: Self)
        ensures
            r.spec_context_id() == old(ctx)@.id,
            r.spec_index() == old(ctx)@.globals.len(),
            final(ctx)@ == old(ctx)@.push_global(val),
    {
        let id = ctx.id;
        let internal = InternalContextHandle::<VMGlobal>::new(ctx, val);
        ContextHandle { id, internal }
    }

    /// Follows the handle into `ctx`. The identities are compared before the
    /// arena is looked into.
    pub fn get<'a>(&self, ctx: &'a ContextObjects) -> (r: Result<&'a VMGlobal, HandleError>)
        ensures
            match r {
                Ok(m) => self.check(ctx@, ctx@.globals.len()) is Ok && *m
                    == ctx@.globals[self.spec_index() as int],
                Err(e) => self.check(ctx@, ctx@.globals.len()) == Err::<(), HandleError>(e),
            },
    {
        if self.id != ctx.id {
            return Err(HandleError::CrossContextUse);
        }
        match self.internal.get(ctx) {
            Some(m) => Ok(m),
            None => Err(HandleError::InvalidHandle),
        }
    }

    /// Follows the handle into `ctx` to change the global in place. The
    /// identities are compared before the arena is looked into.
    pub fn get_mut<'a>(&self, ctx: &'a mut ContextObjects) -> (r: Result<&'a mut VMGlobal, HandleError>)
        ensures
            match r {
                Ok(m) => {
                    &&& self.check(old(ctx)@, old(ctx)@.globals.len()) is Ok
                    &&& *m == old(ctx)@.globals[self.spec_index() as int]
                    &&& final(ctx)@ == old(ctx)@.with_global(self.spec_index() as int, *final(m))
                },
                Err(e) => {
                    &&& self.check(old(ctx)@, old(ctx)@.globals.len()) == Err::<(), HandleError>(e)
                    &&& final(ctx)@ == old(ctx)@
                },
            },
    {
        if self.id != ctx.id {
            return Err(HandleError::CrossContextUse);
        }
        match self.internal.get_mut(ctx) {
            Some(m) => Ok(m),
            None => Err(HandleError::InvalidHandle),
        }
    }
}

impl InternalContextHandle<VMFunction> {
    /// Stores `val` in the arena and returns where.
    pub fn new(ctx: &mut ContextObjects, val: VMFunction) -> (r: Self)
        ensures
            r.spec_index() == old(ctx)@.functions.len(),
            final(ctx)@ == old(ctx)@.push_function(val@),
    {
        let idx = ctx.functions.len();
        ctx.functions.push(val);
        assert(ctx@ =~= old(ctx)@.push_function(val@));
        InternalContextHandle { idx, marker: PhantomData }
    }

    /// The function at this position; `None` when the arena holds none there.
    pub fn get<'a>(&self, ctx: &'a ContextObjects) -> (r: Option<&'a VMFunction>)
        ensures
            match r {
                Some(m) => self.spec_index() < ctx@.functions.len() && m@
                    == ctx@.functions[self.spec_index() as int],
                None => self.spec_index() >= ctx@.functions.len(),
            },
    {
        if self.idx < ctx.functions.len() {
            Some(&ctx.functions[self.idx])
        } else {
            None
        }
    }
}

impl ContextHandle<VMFunction> {
    /// Stores `val` in the arena and returns the handle to it.
    pub fn new(ctx: &mut ContextObjects, val: VMFunction) -> (r: Self)
        ensures
            r.spec_context_id() == old(ctx)@.id,
            r.spec_index() == old(ctx)@.functions.len(),
            final(ctx)@ == old(ctx)@.push_function(val@),
    {
        let id = ctx.id;
        let internal = InternalContextHandle::<VMFunction>::new(ctx, val);
        ContextHandle { id, internal }
    }

    /// Follows the handle into `ctx`. The identities are compared before the
    /// arena is looked into.
    pub fn get<'a>(&self, ctx: &'a ContextObjects) -> (r: Result<&'a VMFunction, HandleError>)
        ensures
            match r {
                Ok(m) => self.check(ctx@, ctx@.functions.len()) is Ok && m@
                    == ctx@.functions[self.spec_index() as int],
                Err(e) => self.check(ctx@, ctx@.functions.len()) == Err::<(), HandleError>(e),
            },
    {
        if self.id != ctx.id {
            return Err(HandleError::CrossContextUse);
        }
        match self.internal.get(ctx) {
            Some(m) => Ok(m),
            None => Err(HandleError::InvalidHandle),
        }
    }
}

} // verus!
