//! Typed access to linear memory: values that can be stored as bytes, and
//! references and slices that read and write them with a bounds check on
//! every access.
use crate::context::{ArenaState, ContextObjects};
use crate::memory::{checked_range64, Memory, MemoryAccessError};
use std::marker::PhantomData;
use vstd::bytes::{
    spec_u16_from_le_bytes, spec_u16_to_le_bytes, spec_u32_from_le_bytes, spec_u32_to_le_bytes,
    spec_u64_from_le_bytes, spec_u64_to_le_bytes, u16_from_le_bytes, u16_to_le_bytes,
    u32_from_le_bytes, u32_to_le_bytes, u64_from_le_bytes, u64_to_le_bytes,
    lemma_auto_spec_u16_to_from_le_bytes, lemma_auto_spec_u32_to_from_le_bytes,
    lemma_auto_spec_u64_to_from_le_bytes,
};
use vstd::prelude::*;

verus! {

/// A type whose values are stored in linear memory as a fixed number of
/// bytes, every pattern of which is a value.
pub trait ValueType: Copy + Sized {
    /// The number of bytes a value takes.
    spec fn spec_size() -> nat;

    /// The value that `bytes` hold.
    spec fn spec_decode(bytes: Seq<u8>) -> Self;

    /// The bytes that hold `self`.
    spec fn spec_encode(self) -> Seq<u8>;

    /// A value takes at least one byte and at most sixteen.
    proof fn lemma_size()
        ensures
            0 < Self::spec_size() <= 16,
    ;

    /// Storing a value and loading it again gives the value back.
    proof fn lemma_round_trip(v: Self)
        ensures
            v.spec_encode().len() == Self::spec_size(),
            Self::spec_decode(v.spec_encode()) == v,
    ;

    /// The number of bytes a value takes.
    fn size() -> (r: u64)
        ensures
            r == Self::spec_size(),
    ;

    /// The value that `bytes` hold.
    fn decode(bytes: &[u8]) -> (r: Self)
        requires
            bytes@.len() == Self::spec_size(),
        ensures
            r == Self::spec_decode(bytes@),
    ;

    /// The bytes that hold `self`.
    fn encode(self) -> (r: Vec<u8>)
        ensures
            r@ == self.spec_encode(),
    ;
}

impl ValueType for u8 {
    open spec fn spec_size() -> nat {
        1
    }

    open spec fn spec_decode(bytes: Seq<u8>) -> u8 {
        bytes[0]
    }

    open spec fn spec_encode(self) -> Seq<u8> {
        seq![self]
    }

    proof fn lemma_size() {
    }

    proof fn lemma_round_trip(v: u8) {
    }

    fn size() -> (r: u64) {
        1
    }

    fn decode(bytes: &[u8]) -> (r: u8) {
        bytes[0]
    }

    fn encode(self) -> (r: Vec<u8>) {
        let mut out: Vec<u8> = Vec::new();
        out.push(self);
        assert(out@ =~= seq![self]);
        out
    }
}

impl ValueType for u16 {
    open spec fn spec_size() -> nat {
        2
    }

    open spec fn spec_decode(bytes: Seq<u8>) -> u16 {
        spec_u16_from_le_bytes(bytes)
    }

    open spec fn spec_encode(self) -> Seq<u8> {
        spec_u16_to_le_bytes(self)
    }

    proof fn lemma_size() {
    }

    proof fn lemma_round_trip(v: u16) {
        lemma_auto_spec_u16_to_from_le_bytes();
        assert(spec_u16_to_le_bytes(v).len() == 2);
    }

    fn size() -> (r: u64) {
        2
    }

    fn decode(bytes: &[u8]) -> (r: u16) {
        u16_from_le_bytes(bytes)
    }

    fn encode(self) -> (r: Vec<u8>) {
        u16_to_le_bytes(self)
    }
}

impl ValueType for u32 {
    open spec fn spec_size() -> nat {
        4
    }

    open spec fn spec_decode(bytes: Seq<u8>) -> u32 {
        spec_u32_from_le_bytes(bytes)
    }

    open spec fn spec_encode(self) -> Seq<u8> {
        spec_u32_to_le_bytes(self)
    }

    proof fn lemma_size() {
    }

    proof fn lemma_round_trip(v: u32) {
        lemma_auto_spec_u32_to_from_le_bytes();
        assert(spec_u32_to_le_bytes(v).len() == 4);
    }

    fn size() -> (r: u64) {
        4
    }

    fn decode(bytes: &[u8]) -> (r: u32) {
        u32_from_le_bytes(bytes)
    }

    fn encode(self) -> (r: Vec<u8>) {
        u32_to_le_bytes(self)
    }
}

impl ValueType for u64 {
    open spec fn spec_size() -> nat {
        8
    }

    open spec fn spec_decode(bytes: Seq<u8>) -> u64 {
        spec_u64_from_le_bytes(bytes)
    }

    open spec fn spec_encode(self) -> Seq<u8> {
        spec_u64_to_le_bytes(self)
    }

    proof fn lemma_size() {
    }

    proof fn lemma_round_trip(v: u64) {
        lemma_auto_spec_u64_to_from_le_bytes();
    }

    fn size() -> (r: u64) {
        8
    }

    fn decode(bytes: &[u8]) -> (r: u64) {
        u64_from_le_bytes(bytes)
    }

    fn encode(self) -> (r: Vec<u8>) {
        let r = u64_to_le_bytes(self);
        proof {
            lemma_auto_spec_u64_to_from_le_bytes();
        }
        r
    }
}

/// The value of type `T` that the bytes from `offset` on hold.
pub open spec fn value_at<T: ValueType>(bytes: Seq<u8>, offset: int) -> T {
    T::spec_decode(bytes.subrange(offset, offset + T::spec_size()))
}

/// A place in a linear memory that holds one value of type `T`. Nothing is
/// checked when the reference is made: every read and write checks the
/// memory's size of that moment.
#[derive(Debug)]
pub struct WasmRef<T> {
    memory: Memory,
    offset: u64,
    marker: PhantomData<T>,
}

impl<T> Clone for WasmRef<T> {
    fn clone(&self) -> (r: Self)
        ensures
            r == *self,
    {
        WasmRef { memory: self.memory, offset: self.offset, marker: PhantomData }
    }
}

impl<T> Copy for WasmRef<T> {

}

impl<T: ValueType> WasmRef<T> {
    /// The memory referred into.
    pub closed spec fn spec_memory(&self) -> Memory {
        self.memory
    }

    /// The offset of the value in the memory.
    pub closed spec fn spec_offset(&self) -> u64 {
        self.offset
    }

    /// The outcome of an access through this reference.
    pub open spec fn check(&self, arena: ArenaState) -> Result<(), MemoryAccessError> {
        self.spec_memory().check_wide_access(arena, self.spec_offset(), T::spec_size())
    }

    /// A reference to the value at `offset` in `memory`.
    pub fn new(memory: &Memory, offset: u64) -> (r: Self)
        ensures
            r.spec_memory() == *memory,
            r.spec_offset() == offset,
    {
        WasmRef { memory: *memory, offset, marker: PhantomData }
    }

    /// The offset of the value in the memory.
    pub fn offset(&self) -> (r: u64)
        ensures
            r == self.spec_offset(),
    {
        self.offset
    }

    /// Reads the value referred to.
    pub fn read(&self, ctx: &ContextObjects) -> (r: Result<T, MemoryAccessError>)
        ensures
            match r {
                Ok(v) => self.check(ctx@) is Ok && v == value_at::<T>(
                    self.spec_memory().state(ctx@).memory.bytes,
                    self.spec_offset() as int,
                ),
                Err(e) => self.check(ctx@) == Err::<(), MemoryAccessError>(e),
            },
    {
        proof {
            T::lemma_size();
        }
        let m = match self.memory.handle().get(ctx) {
            Ok(m) => m,
            Err(e) => {
                return Err(MemoryAccessError::from_handle(e));
            },
        };
        let memory = m.memory();
        let size = T::size() as usize;
        match checked_range64(self.offset, size, memory.byte_length()) {
            Err(e) => Err(e),
            Ok(start) => {
                let mut buf: Vec<u8> = Vec::new();
                buf.resize(size, 0u8);
                memory.copy_to(start, buf.as_mut_slice());
                Ok(T::decode(buf.as_slice()))
            },
        }
    }

    /// Stores `val` in the place referred to.
    pub fn write(&self, ctx: &mut ContextObjects, val: T) -> (r: Result<(), MemoryAccessError>)
        ensures
            old(ctx)@.wf() ==> final(ctx)@.wf(),
            r == self.check(old(ctx)@),
            r is Ok ==> final(ctx)@ == self.spec_memory().arena_written(
                old(ctx)@,
                self.spec_offset(),
                val.spec_encode(),
            ),
            r is Err ==> final(ctx)@ == old(ctx)@,
    {
        proof {
            T::lemma_size();
            T::lemma_round_trip(val);
        }
        let bytes = val.encode();
        match self.memory.handle().get_mut(ctx) {
            Err(e) => Err(MemoryAccessError::from_handle(e)),
            Ok(m) => {
                let memory = m.memory_mut();
                match checked_range64(self.offset, bytes.len(), memory.byte_length()) {
                    Err(e) => Err(e),
                    Ok(start) => {
                        memory.copy_from(start, bytes.as_slice());
                        Ok(())
                    },
                }
            },
        }
    }
}

/// `len` values of type `T` that lie one after the other in a linear memory.
/// Nothing is compared with the memory's size when the slice is made: every
/// read and write checks the size of that moment.
#[derive(Debug)]
pub struct WasmSlice<T> {
    memory: Memory,
    offset: u64,
    len: u64,
    marker: PhantomData<T>,
}

impl<T> Clone for WasmSlice<T> {
    fn clone(&self) -> (r: Self)
        ensures
            r == *self,
    {
        WasmSlice { memory: self.memory, offset: self.offset, len: self.len, marker: PhantomData }
    }
}

impl<T> Copy for WasmSlice<T> {

}

impl<T: ValueType> WasmSlice<T> {
    /// The memory the slice lies in.
    pub closed spec fn spec_memory(&self) -> Memory {
        self.memory
    }

    /// The offset of the first element.
    pub closed spec fn spec_offset(&self) -> u64 {
        self.offset
    }

    /// The number of elements.
    pub closed spec fn spec_len(&self) -> u64 {
        self.len
    }

    /// The number of bytes that the elements take together.
    pub open spec fn byte_len(&self) -> nat {
        self.spec_len() as nat * T::spec_size()
    }

    /// The end of the slice can be written as a 64-bit address.
    pub open spec fn wf(&self) -> bool {
        self.spec_offset() + self.byte_len() <= u64::MAX
    }

    /// The offset of element `idx`.
    pub open spec fn offset_of(&self, idx: int) -> int {
        self.spec_offset() + idx * T::spec_size()
    }

    /// The outcome of an access to element `idx`.
    pub open spec fn check_element(&self, arena: ArenaState, idx: int) -> Result<
        (),
        MemoryAccessError,
    > {
        self.spec_memory().check_wide_access(arena, self.offset_of(idx) as u64, T::spec_size())
    }

    /// The outcome of an access to the whole slice.
    pub open spec fn check(&self, arena: ArenaState) -> Result<(), MemoryAccessError> {
        self.spec_memory().check_wide_access(arena, self.spec_offset(), self.byte_len())
    }

    /// The slice of `len` elements from `offset` on in `memory`. Fails with
    /// `Overflow` exactly when its end cannot be written as a 64-bit address.
    pub fn new(memory: &Memory, offset: u64, len: u64) -> (r: Result<Self, MemoryAccessError>)
        ensures
            match r {
                Ok(s) => {
                    &&& s.wf()
                    &&& s.spec_memory() == *memory
                    &&& s.spec_offset() == offset
                    &&& s.spec_len() == len
                },
                Err(e) => e == MemoryAccessError::Overflow && offset + len * T::spec_size()
                    > u64::MAX,
            },
    {
        proof {
            T::lemma_size();
        }
        let total = match len.checked_mul(T::size()) {
            Some(t) => t,
            None => {
                return Err(MemoryAccessError::Overflow);
            },
        };
        match offset.checked_add(total) {
            Some(_) => Ok(WasmSlice { memory: *memory, offset, len, marker: PhantomData }),
            None => Err(MemoryAccessError::Overflow),
        }
    }

    /// The offset of the first element.
    pub fn offset(&self) -> (r: u64)
        ensures
            r == self.spec_offset(),
    {
        self.offset
    }

    /// The number of elements.
    pub fn len(&self) -> (r: u64)
        ensures
            r == self.spec_len(),
    {
        self.len
    }

    /// Whether the slice has no element.
    pub fn is_empty(&self) -> (r: bool)
        ensures
            r == (self.spec_len() == 0),
    {
        self.len == 0
    }

    /// A reference to element `idx`.
    pub fn index(&self, idx: u64) -> (r: WasmRef<T>)
        requires
            self.wf(),
            idx < self.spec_len(),
        ensures
            r.spec_memory() == self.spec_memory(),
            r.spec_offset() == self.offset_of(idx as int),
    {
        proof {
            T::lemma_size();
            assert(idx * T::spec_size() + T::spec_size() <= self.spec_len() * T::spec_size())
                by (nonlinear_arith)
                requires
                    idx < self.spec_len(),
            ;
        }
        let offset = self.offset + idx * T::size();
        WasmRef::new(&self.memory, offset)
    }

    /// Reads element `idx`.
    pub fn read(&self, ctx: &ContextObjects, idx: u64) -> (r: Result<T, MemoryAccessError>)
        requires
            self.wf(),
            idx < self.spec_len(),
        ensures
            match r {
                Ok(v) => self.check_element(ctx@, idx as int) is Ok && v == value_at::<T>(
                    self.spec_memory().state(ctx@).memory.bytes,
                    self.offset_of(idx as int),
                ),
                Err(e) => self.check_element(ctx@, idx as int) == Err::<(), MemoryAccessError>(e),
            },
    {
        self.index(idx).read(ctx)
    }

    /// Stores `val` as element `idx`.
    pub fn write(&self, ctx: &mut ContextObjects, idx: u64, val: T) -> (r: Result<
        (),
        MemoryAccessError,
    >)
        requires
            self.wf(),
            idx < self.spec_len(),
        ensures
            old(ctx)@.wf() ==> final(ctx)@.wf(),
            r == self.check_element(old(ctx)@, idx as int),
            r is Ok ==> final(ctx)@ == self.spec_memory().arena_written(
                old(ctx)@,
                self.offset_of(idx as int) as u64,
                val.spec_encode(),
            ),
            r is Err ==> final(ctx)@ == old(ctx)@,
    {
        self.index(idx).write(ctx, val)
    }

    /// Reads all elements. The whole range is checked before the first
    /// element is read.
    pub fn read_to_vec(&self, ctx: &ContextObjects) -> (r: Result<Vec<T>, MemoryAccessError>)
        requires
            self.wf(),
        ensures
            match r {
                Ok(v) => {
                    &&& self.check(ctx@) is Ok
                    &&& v@.len() == self.spec_len()
                    &&& forall|i: int|
                        0 <= i < v@.len() ==> #[trigger] v@[i] == value_at::<T>(
                            self.spec_memory().state(ctx@).memory.bytes,
                            self.offset_of(i),
                        )
                },
                Err(e) => self.check(ctx@) == Err::<(), MemoryAccessError>(e),
            },
    {
        proof {
            T::lemma_size();
        }
        let m = match self.memory.handle().get(ctx) {
            Ok(m) => m,
            Err(e) => {
                return Err(MemoryAccessError::from_handle(e));
            },
        };
        let memory = m.memory();
        let size: u64 = T::size();
        let total: u64 = self.len * size;
        let size_bytes = memory.byte_length();
        if self.offset + total > size_bytes {
            return Err(MemoryAccessError::HeapOutOfBounds);
        }
        let ghost bytes = self.spec_memory().state(ctx@).memory.bytes;
        let mut out: Vec<T> = Vec::new();
        let mut buf: Vec<u8> = Vec::new();
        buf.resize(size as usize, 0u8);
        let mut i: u64 = 0;
        let mut pos: u64 = self.offset;
        while i < self.len
            invariant
                i <= self.len,
                size == T::spec_size(),
                0 < size <= 16,
                buf@.len() == size,
                pos == self.offset + i * size,
                self.offset + self.len * size <= size_bytes,
                size_bytes == bytes.len(),
                size_bytes <= usize::MAX,
                memory@.bytes == bytes,
                out@.len() == i,
                forall|j: int|
                    0 <= j < i ==> #[trigger] out@[j] == value_at::<T>(bytes, self.offset_of(j)),
            decreases self.len - i,
        {
            proof {
                assert(i * size + size <= self.len * size) by (nonlinear_arith)
                    requires
                        i < self.len,
                ;
                assert((i + 1) * size == i * size + size) by (nonlinear_arith);
            }
            memory.copy_to(pos as usize, buf.as_mut_slice());
            let v = T::decode(buf.as_slice());
            out.push(v);
            i = i + 1;
            pos = pos + size;
        }
        Ok(out)
    }
}

} // verus!
