//! Laws of the memory-access layer and of handle validation, proved from
//! the models that the contracts of the operations are stated over.
use crate::context::{ArenaState, ContextId, ContextIds, HandleError};
use crate::error::RuntimeError;
use crate::export::VMGlobal;
use crate::externals::{lemma_cell_round_trip, spec_bits_of, spec_value_of, Extern, Global};
use crate::types::Mutability;
use crate::mem_access::{value_at, ValueType};
use crate::memory::{Memory, MemoryAccessError, MemoryError};
use crate::ptr::{MemorySize, WasmPtr};
use crate::resource::{GlobalCell, HostFunction, LinearMemoryState};
use crate::table::Table;
use crate::units::{Pages, WASM_PAGE_SIZE};
use crate::value::Value;
use vstd::prelude::*;

verus! {

/// Bounds: an access whose range can be written in 32 bits but reaches past
/// the end of the memory is refused as out of bounds, and so is never
/// carried out, not even in part.
pub proof fn lemma_access_past_end_is_out_of_bounds(
    memory: Memory,
    arena: ArenaState,
    offset: u64,
    len: nat,
)
    requires
        memory.check(arena) is Ok,
        offset + len <= u32::MAX,
        offset + len > memory.state(arena).memory.bytes.len(),
    ensures
        memory.check_access(arena, offset, len) == Err::<(), MemoryAccessError>(
            MemoryAccessError::HeapOutOfBounds,
        ),
{
}

/// Overflow: an access whose range cannot be written in 32 bits is refused
/// as an overflow, whatever the size of the memory.
pub proof fn lemma_unrepresentable_range_overflows(
    memory: Memory,
    arena: ArenaState,
    offset: u64,
    len: nat,
)
    requires
        memory.check(arena) is Ok,
        offset + len > u32::MAX,
    ensures
        memory.check_access(arena, offset, len) == Err::<(), MemoryAccessError>(
            MemoryAccessError::Overflow,
        ),
{
}

/// An access is carried out exactly when its range lies inside the memory
/// and can be written in 32 bits.
pub proof fn lemma_access_in_bounds_succeeds(
    memory: Memory,
    arena: ArenaState,
    offset: u64,
    len: nat,
)
    requires
        memory.check(arena) is Ok,
    ensures
        memory.check_access(arena, offset, len) is Ok <==> offset + len <= u32::MAX && offset + len
            <= memory.state(arena).memory.bytes.len(),
{
}

/// Growth: where a memory can take `delta` more pages, growing it returns
/// the size before and leaves it exactly `delta` pages larger, with all
/// bytes it had before unchanged.
pub proof fn lemma_grow_adds_exactly_delta(memory: Memory, arena: ArenaState, delta: Pages)
    requires
        arena.wf(),
        memory.check(arena) is Ok,
        memory.state(arena).can_grow(delta.0),
    ensures
        memory.grow_outcome(arena, delta) == Ok::<Pages, MemoryError>(
            Pages(memory.state(arena).memory.pages() as u32),
        ),
        memory.state(memory.arena_grown(arena, delta)).ty == memory.state(arena).ty,
        memory.state(arena).ty.maximum matches Some(m) ==> memory.state(
            memory.arena_grown(arena, delta),
        ).memory.pages() <= m.0,
        memory.arena_grown(arena, delta).wf(),
        memory.check(memory.arena_grown(arena, delta)) is Ok,
        memory.state(memory.arena_grown(arena, delta)).memory.pages() == memory.state(
            arena,
        ).memory.pages() + delta.0,
        memory.state(memory.arena_grown(arena, delta)).memory.bytes.subrange(
            0,
            memory.state(arena).memory.bytes.len() as int,
        ) == memory.state(arena).memory.bytes,
{
    let before = memory.state(arena).memory;
    let after = before.grown(delta.0);
    assert(before.wf());
    lemma_grown(before, delta.0);
    assert(memory.state(memory.arena_grown(arena, delta)).memory == after);
    assert(after.bytes.subrange(0, before.bytes.len() as int) =~= before.bytes);
    assert forall|i: int| 0 <= i < memory.arena_grown(arena, delta).memories.len() implies (
    #[trigger] memory.arena_grown(arena, delta).memories[i]).wf() by {
        if i != memory.spec_index() {
            assert(arena.memories[i].wf());
        }
    }
}

/// A well-formed linear memory that can take `delta` more pages is
/// well-formed after it was grown, and exactly `delta` pages larger.
pub proof fn lemma_grown(m: LinearMemoryState, delta: u32)
    requires
        m.wf(),
        m.can_grow(delta),
    ensures
        m.grown(delta).wf(),
        m.grown(delta).pages() == m.pages() + delta,
{
    let after = m.grown(delta);
    assert(after.bytes.len() == m.bytes.len() + delta * WASM_PAGE_SIZE);
    assert(after.bytes.len() == (m.pages() + delta) * WASM_PAGE_SIZE) by (nonlinear_arith)
        requires
            after.bytes.len() == m.bytes.len() + delta * WASM_PAGE_SIZE,
            m.bytes.len() == m.pages() * WASM_PAGE_SIZE,
    ;
    assert(after.pages() == m.pages() + delta) by (nonlinear_arith)
        requires
            after.bytes.len() == (m.pages() + delta) * 0x10000,
            after.pages() == after.bytes.len() / 0x10000,
    ;
}

/// Growth: a request that would take a memory past the maximum of its
/// declared type fails with the size it has and the pages asked for,
/// whatever buffer the memory was made of.
pub proof fn lemma_grow_past_declared_maximum_fails(
    memory: Memory,
    arena: ArenaState,
    delta: Pages,
    maximum: Pages,
)
    requires
        memory.check(arena) is Ok,
        memory.state(arena).ty.maximum == Some(maximum),
        memory.state(arena).memory.pages() + delta.0 > maximum.0,
    ensures
        memory.grow_outcome(arena, delta) == Err::<Pages, MemoryError>(
            MemoryError::CouldNotGrow {
                current: Pages(memory.state(arena).memory.pages() as u32),
                attempted_delta: delta,
            },
        ),
{
}

/// Growth: a request that would take a memory past the bound of its buffer
/// fails in the same way.
pub proof fn lemma_grow_past_limit_fails(memory: Memory, arena: ArenaState, delta: Pages)
    requires
        memory.check(arena) is Ok,
        memory.state(arena).memory.pages() + delta.0 > memory.state(arena).memory.limit(),
    ensures
        memory.grow_outcome(arena, delta) == Err::<Pages, MemoryError>(
            MemoryError::CouldNotGrow {
                current: Pages(memory.state(arena).memory.pages() as u32),
                attempted_delta: delta,
            },
        ),
{
}

/// Growth: a memory grows exactly when the request stays within the maximum
/// of its declared type, within the bound of its buffer and within what this
/// machine can address.
pub proof fn lemma_grow_succeeds_exactly_within_bounds(
    memory: Memory,
    arena: ArenaState,
    delta: Pages,
)
    requires
        memory.check(arena) is Ok,
    ensures
        memory.grow_outcome(arena, delta) is Ok <==> {
            &&& memory.state(arena).within_declared(delta.0)
            &&& memory.state(arena).memory.pages() + delta.0 <= memory.state(
                arena,
            ).memory.limit()
            &&& (memory.state(arena).memory.pages() + delta.0) * WASM_PAGE_SIZE <= usize::MAX
        },
{
}

/// Growth: neither growing a memory nor writing to it makes it smaller.
pub proof fn lemma_size_never_decreases(
    memory: Memory,
    arena: ArenaState,
    delta: Pages,
    offset: u64,
    data: Seq<u8>,
)
    requires
        memory.check(arena) is Ok,
    ensures
        memory.state(memory.arena_grown(arena, delta)).memory.bytes.len() >= memory.state(
            arena,
        ).memory.bytes.len(),
        memory.state(memory.arena_written(arena, offset, data)).memory.bytes.len() == memory.state(
            arena,
        ).memory.bytes.len(),
{
}

/// Round trip: after bytes were written at an offset, reading as many bytes
/// from that offset succeeds and gives exactly the bytes written.
pub proof fn lemma_write_then_read(memory: Memory, arena: ArenaState, offset: u64, data: Seq<u8>)
    requires
        memory.check_access(arena, offset, data.len()) is Ok,
    ensures
        memory.check_access(memory.arena_written(arena, offset, data), offset, data.len()) is Ok,
        memory.state(memory.arena_written(arena, offset, data)).memory.read(
            offset as int,
            data.len() as int,
        ) == data,
{
    let after = memory.arena_written(arena, offset, data);
    assert(memory.state(after).memory.read(offset as int, data.len() as int) =~= data);
}

/// A write changes no byte outside its range.
pub proof fn lemma_write_leaves_the_rest(
    memory: Memory,
    arena: ArenaState,
    offset: u64,
    data: Seq<u8>,
    i: int,
)
    requires
        memory.check_access(arena, offset, data.len()) is Ok,
        0 <= i < memory.state(arena).memory.bytes.len(),
        !(offset <= i < offset + data.len()),
    ensures
        memory.state(memory.arena_written(arena, offset, data)).memory.bytes[i] == memory.state(
            arena,
        ).memory.bytes[i],
{
}

/// Round trip of values: a value stored through a reference is the value
/// read through it afterwards.
pub proof fn lemma_store_then_load<T: ValueType>(
    memory: Memory,
    arena: ArenaState,
    offset: u64,
    val: T,
)
    requires
        memory.check_wide_access(arena, offset, T::spec_size()) is Ok,
    ensures
        value_at::<T>(
            memory.state(memory.arena_written(arena, offset, val.spec_encode())).memory.bytes,
            offset as int,
        ) == val,
{
    T::lemma_round_trip(val);
    let after = memory.arena_written(arena, offset, val.spec_encode());
    assert(memory.state(after).memory.bytes.subrange(offset as int, offset + T::spec_size())
        =~= val.spec_encode());
}

/// Identities of one source differ: the identity that a source issues next
/// is none of those it has issued, and the source keeps count of all of them.
pub proof fn lemma_next_identity_is_new(
    before: ContextIds,
    after: ContextIds,
    earlier: ContextId,
    next: ContextId,
)
    requires
        before.has_issued(earlier),
        next.spec_value() == before.issued() + 1,
        after.issued() == before.issued() + 1,
    ensures
        earlier != next,
        !before.has_issued(next),
        after.has_issued(earlier),
        after.has_issued(next),
{
}

/// Contexts of one source differ: of two contexts made from one source, the
/// later has another identity than the earlier, so every handle of the one
/// is refused with `CrossContextUse` by the other. `issued_before_first` and
/// `issued_before_second` are what the source had issued when each was made.
pub proof fn lemma_contexts_of_one_source_differ(
    first: ArenaState,
    second: ArenaState,
    issued_before_first: nat,
    issued_before_second: nat,
    index: nat,
    len: nat,
)
    requires
        first.id.spec_value() == issued_before_first + 1,
        second.id.spec_value() == issued_before_second + 1,
        issued_before_first < issued_before_second,
    ensures
        first.id != second.id,
        second.check(first.id, index, len) == Err::<(), HandleError>(HandleError::CrossContextUse),
        first.check(second.id, index, len) == Err::<(), HandleError>(HandleError::CrossContextUse),
{
}

/// Isolation: a memory of one context, used with the arena of another, is
/// refused with `CrossContextUse` by every operation, before the arena is
/// looked into.
pub proof fn lemma_foreign_memory_is_refused(
    memory: Memory,
    arena: ArenaState,
    offset: u64,
    len: nat,
    delta: Pages,
)
    requires
        memory.spec_context_id() != arena.id,
    ensures
        memory.check(arena) == Err::<(), HandleError>(HandleError::CrossContextUse),
        memory.check_access(arena, offset, len) == Err::<(), MemoryAccessError>(
            MemoryAccessError::CrossContextUse,
        ),
        memory.check_wide_access(arena, offset, len) == Err::<(), MemoryAccessError>(
            MemoryAccessError::CrossContextUse,
        ),
        memory.grow_outcome(arena, delta) == Err::<Pages, MemoryError>(
            MemoryError::CrossContextUse,
        ),
{
}

/// Isolation: any external object of one context, used with the arena of
/// another, is refused with `CrossContextUse`.
pub proof fn lemma_foreign_extern_is_refused(ext: Extern, arena: ArenaState)
    requires
        ext.spec_context_id() != arena.id,
    ensures
        ext.check(arena) == Err::<(), HandleError>(HandleError::CrossContextUse),
        match ext {
            Extern::Function(f) => f.check(arena) == Err::<(), HandleError>(
                HandleError::CrossContextUse,
            ),
            Extern::Global(g) => g.check(arena) == Err::<(), HandleError>(
                HandleError::CrossContextUse,
            ),
            Extern::Table(t) => t.check(arena) == Err::<(), HandleError>(
                HandleError::CrossContextUse,
            ),
            Extern::Memory(m) => m.check(arena) == Err::<(), HandleError>(
                HandleError::CrossContextUse,
            ),
        },
{
}

/// Isolation: a table of one context, or a function of one context, used
/// with the arena of another, makes storing into a table fail with
/// `CrossContextUse`.
pub proof fn lemma_foreign_table_or_value_is_refused(
    table: Table,
    arena: ArenaState,
    index: u32,
    val: Value,
)
    requires
        table.spec_context_id() != arena.id || !val.usable_in(arena.id),
    ensures
        table.set_outcome(arena, index, val) == Err::<HostFunction, RuntimeError>(
            RuntimeError::CrossContextUse,
        ),
{
}

/// Isolation: a global of one context, or a function of one context, used
/// with the arena of another, makes writing a global fail with
/// `CrossContextUse`.
pub proof fn lemma_foreign_global_or_value_is_refused(global: Global, arena: ArenaState, val: Value)
    requires
        global.spec_context_id() != arena.id || !val.usable_in(arena.id),
    ensures
        global.set_outcome(arena, val) == Err::<u64, RuntimeError>(RuntimeError::CrossContextUse),
{
}

/// A number written to a global that can be written and is of the number's
/// type is the value read from the global afterwards.
pub proof fn lemma_global_set_then_get(global: Global, arena: ArenaState, val: Value)
    requires
        global.check(arena) is Ok,
        global.state(arena).ty.mutability == Mutability::Var,
        global.state(arena).ty.ty == val.spec_ty(),
        !(val is FuncRef),
    ensures
        global.set_outcome(arena, val) matches Ok(bits) && global.get_outcome(
            arena.with_global(
                global.spec_index() as int,
                VMGlobal { global: GlobalCell(bits), ty: global.state(arena).ty },
            ),
        ) == Ok::<Value, RuntimeError>(val),
{
    lemma_cell_round_trip(val);
    assert(spec_value_of(val.spec_ty(), spec_bits_of(val).unwrap()) == Some(val));
}

/// Pointer arithmetic: moving a pointer by `a` elements and then by `b`
/// elements arrives where moving it by `a + b` elements does, and from the
/// null pointer that is the address `(a + b) * size`.
pub proof fn lemma_offsets_add_up<T: ValueType, M: MemorySize>(
    p: WasmPtr<T, M>,
    q: WasmPtr<T, M>,
    a: nat,
    b: nat,
)
    requires
        q.addr() == p.addr_of(a),
    ensures
        q.addr_of(b) == p.addr_of(a + b),
        p.addr() == 0 ==> p.addr_of(a) == a * T::spec_size(),
{
    assert((a + b) * T::spec_size() == a * T::spec_size() + b * T::spec_size())
        by (nonlinear_arith);
}

/// Pointer arithmetic: an address grows with the number of elements moved
/// by, so once a move overflows every longer move overflows too.
pub proof fn lemma_overflow_is_final<T: ValueType, M: MemorySize>(p: WasmPtr<T, M>, a: nat, b: nat)
    requires
        a <= b,
        p.addr_of(a) > M::spec_max(),
    ensures
        p.addr_of(b) > M::spec_max(),
{
    assert(a * T::spec_size() <= b * T::spec_size()) by (nonlinear_arith)
        requires
            a <= b,
    ;
}

} // verus!
