//! Typed pointers into linear memory: an offset of a chosen address width
//! with checked arithmetic, bound to a memory only when it is followed.
use crate::context::{ArenaState, ContextObjects};
use crate::mem_access::{value_at, ValueType, WasmRef, WasmSlice};
use crate::memory::{Memory, MemoryAccessError};
use std::marker::PhantomData;
use vstd::prelude::*;
use vstd::std_specs::cmp::PartialEqSpecImpl;
use vstd::utf8::{decode_utf8, encode_utf8, encode_utf8_decode_utf8, valid_utf8};

verus! {

/// The width of the addresses of a linear memory.
pub trait MemorySize: Copy + Sized {
    /// The integer type that offsets are held in.
    type Offset: Copy;

    /// The largest offset of this width.
    spec fn spec_max() -> nat;

    /// The number that an offset stands for.
    spec fn spec_value(offset: Self::Offset) -> nat;

    /// Offsets are numbers up to the largest, which itself fits in 64 bits,
    /// and an offset is determined by its number.
    proof fn lemma_offset(a: Self::Offset, b: Self::Offset)
        ensures
            Self::spec_value(a) <= Self::spec_max() <= u64::MAX,
            Self::spec_value(a) == Self::spec_value(b) ==> a == b,
    ;

    /// The integer type that WebAssembly code holds an offset in.
    type Native: Copy;

    /// The integer that WebAssembly code holds `offset` as: the same bits,
    /// read as a signed number.
    spec fn spec_to_native(offset: Self::Offset) -> Self::Native;

    /// The offset that WebAssembly code holds as `native`: the same bits,
    /// read as an unsigned number.
    spec fn spec_from_native(native: Self::Native) -> Self::Offset;

    /// Handing an offset to WebAssembly code and taking it back gives the
    /// offset, and the other way round.
    proof fn lemma_native(offset: Self::Offset, native: Self::Native)
        ensures
            Self::spec_from_native(Self::spec_to_native(offset)) == offset,
            Self::spec_to_native(Self::spec_from_native(native)) == native,
    ;

    /// The integer that WebAssembly code holds `offset` as.
    fn offset_to_native(offset: Self::Offset) -> (r: Self::Native)
        ensures
            r == Self::spec_to_native(offset),
    ;

    /// The offset that WebAssembly code holds as `native`.
    fn native_to_offset(native: Self::Native) -> (r: Self::Offset)
        ensures
            r == Self::spec_from_native(native),
    ;

    /// The offset zero.
    fn zero() -> (r: Self::Offset)
        ensures
            Self::spec_value(r) == 0,
    ;

    /// The number that an offset stands for.
    fn offset_to_u64(offset: Self::Offset) -> (r: u64)
        ensures
            r == Self::spec_value(offset),
    ;

    /// The offset that stands for `value`; `None` when `value` is more than
    /// the largest offset.
    fn offset_from_u64(value: u64) -> (r: Option<Self::Offset>)
        ensures
            r is Some <==> value <= Self::spec_max(),
            r matches Some(o) ==> Self::spec_value(o) == value,
    ;
}

/// Addresses of 32 bits.
#[derive(Clone, Copy, Debug, PartialEq, Eq, Structural, Hash)]
pub struct Memory32;

/// Addresses of 64 bits.
#[derive(Clone, Copy, Debug, PartialEq, Eq, Structural, Hash)]
pub struct Memory64;

impl MemorySize for Memory32 {
    type Offset = u32;

    type Native = i32;

    open spec fn spec_to_native(offset: u32) -> i32 {
        offset as i32
    }

    open spec fn spec_from_native(native: i32) -> u32 {
        native as u32
    }

    proof fn lemma_native(offset: u32, native: i32) {
        assert(((offset as i32) as u32) == offset) by (bit_vector);
        assert(((native as u32) as i32) == native) by (bit_vector);
    }

    fn offset_to_native(offset: u32) -> (r: i32) {
        #[verifier::truncate]
        (offset as i32)
    }

    fn native_to_offset(native: i32) -> (r: u32) {
        #[verifier::truncate]
        (native as u32)
    }

    open spec fn spec_max() -> nat {
        u32::MAX as nat
    }

    open spec fn spec_value(offset: u32) -> nat {
        offset as nat
    }

    proof fn lemma_offset(a: u32, b: u32) {
    }

    fn zero() -> (r: u32) {
        0
    }

    fn offset_to_u64(offset: u32) -> (r: u64) {
        offset as u64
    }

    fn offset_from_u64(value: u64) -> (r: Option<u32>) {
        if value <= u32::MAX as u64 {
            Some(value as u32)
        } else {
            None
        }
    }
}

impl MemorySize for Memory64 {
    type Offset = u64;

    type Native = i64;

    open spec fn spec_to_native(offset: u64) -> i64 {
        offset as i64
    }

    open spec fn spec_from_native(native: i64) -> u64 {
        native as u64
    }

    proof fn lemma_native(offset: u64, native: i64) {
        assert(((offset as i64) as u64) == offset) by (bit_vector);
        assert(((native as u64) as i64) == native) by (bit_vector);
    }

    fn offset_to_native(offset: u64) -> (r: i64) {
        #[verifier::truncate]
        (offset as i64)
    }

    fn native_to_offset(native: i64) -> (r: u64) {
        #[verifier::truncate]
        (native as u64)
    }

    open spec fn spec_max() -> nat {
        u64::MAX as nat
    }

    open spec fn spec_value(offset: u64) -> nat {
        offset as nat
    }

    proof fn lemma_offset(a: u64, b: u64) {
    }

    fn zero() -> (r: u64) {
        0
    }

    fn offset_to_u64(offset: u64) -> (r: u64) {
        offset
    }

    fn offset_from_u64(value: u64) -> (r: Option<u64>) {
        Some(value)
    }
}

/// An offset into some linear memory, at which a value of type `T` is meant
/// to lie. The offset alone promises nothing: whether a `T` can be read there
/// is decided against a memory's size at the moment of each access.
#[derive(Debug)]
pub struct WasmPtr<T, M: MemorySize> {
    offset: M::Offset,
    marker: PhantomData<T>,
}

/// A pointer with 64-bit addresses.
pub type WasmPtr64<T> = WasmPtr<T, Memory64>;

impl<T, M: MemorySize> Clone for WasmPtr<T, M> {
    fn clone(&self) -> (r: Self)
        ensures
            r == *self,
    {
        WasmPtr { offset: self.offset, marker: PhantomData }
    }
}

impl<T, M: MemorySize> Copy for WasmPtr<T, M> {

}

impl<T, M: MemorySize> PartialEq for WasmPtr<T, M> {
    fn eq(&self, other: &Self) -> (r: bool) {
        M::offset_to_u64(self.offset) == M::offset_to_u64(other.offset)
    }
}

impl<T, M: MemorySize> PartialEqSpecImpl for WasmPtr<T, M> {
    open spec fn obeys_eq_spec() -> bool {
        true
    }

    open spec fn eq_spec(&self, other: &Self) -> bool {
        self.addr() == other.addr()
    }
}

impl<T, M: MemorySize> Eq for WasmPtr<T, M> {

}

impl<T, M: MemorySize> WasmPtr<T, M> {
    /// The offset held.
    pub closed spec fn spec_offset(self) -> M::Offset {
        self.offset
    }

    /// The address pointed at, as a number.
    pub open spec fn addr(self) -> nat {
        M::spec_value(self.spec_offset())
    }

    /// The pointer to `offset`.
    pub fn new(offset: M::Offset) -> (r: Self)
        ensures
            r.spec_offset() == offset,
    {
        WasmPtr { offset, marker: PhantomData }
    }

    /// The offset held.
    pub fn offset(self) -> (r: M::Offset)
        ensures
            r == self.spec_offset(),
    {
        self.offset
    }

    /// The same offset as a pointer to another type.
    pub fn cast<U>(self) -> (r: WasmPtr<U, M>)
        ensures
            r.spec_offset() == self.spec_offset(),
    {
        WasmPtr { offset: self.offset, marker: PhantomData }
    }

    /// The pointer to offset zero.
    pub fn null() -> (r: Self)
        ensures
            r.addr() == 0,
    {
        WasmPtr { offset: M::zero(), marker: PhantomData }
    }

    /// Whether the pointer points to offset zero.
    pub fn is_null(self) -> (r: bool)
        ensures
            r == (self.addr() == 0),
    {
        M::offset_to_u64(self.offset) == 0
    }

    /// The pointer as WebAssembly code holds it.
    pub fn to_native(self) -> (r: M::Native)
        ensures
            r == M::spec_to_native(self.spec_offset()),
    {
        M::offset_to_native(self.offset)
    }

    /// The pointer that WebAssembly code holds as `n`.
    pub fn from_native(n: M::Native) -> (r: Self)
        ensures
            r.spec_offset() == M::spec_from_native(n),
    {
        WasmPtr { offset: M::native_to_offset(n), marker: PhantomData }
    }

    /// Whether two pointers hold the same offset.
    pub fn same_offset(self, other: Self) -> (r: bool)
        ensures
            r == (self == other),
    {
        proof {
            M::lemma_offset(self.offset, other.offset);
        }
        M::offset_to_u64(self.offset) == M::offset_to_u64(other.offset)
    }
}

impl<T: ValueType, M: MemorySize> WasmPtr<T, M> {
    /// The address of the `index`-th `T` after the one pointed at.
    pub open spec fn addr_of(self, index: nat) -> nat {
        self.addr() + index * T::spec_size()
    }

    /// Moves the pointer forward by `offset` values of type `T`. Fails with
    /// `Overflow` exactly when the address would be more than the width of
    /// the addresses allows: no wrapped or cut address ever comes back.
    pub fn add_offset(self, offset: M::Offset) -> (r: Result<Self, MemoryAccessError>)
        ensures
            match r {
                Ok(p) => p.addr() == self.addr_of(M::spec_value(offset)) && p.addr()
                    <= M::spec_max(),
                Err(e) => e == MemoryAccessError::Overflow && self.addr_of(M::spec_value(offset))
                    > M::spec_max(),
            },
    {
        proof {
            M::lemma_offset(self.offset, offset);
            T::lemma_size();
        }
        let base: u64 = M::offset_to_u64(self.offset);
        let index: u64 = M::offset_to_u64(offset);
        let scaled: u64 = match index.checked_mul(T::size()) {
            Some(s) => s,
            None => {
                return Err(MemoryAccessError::Overflow);
            },
        };
        let address: u64 = match base.checked_add(scaled) {
            Some(a) => a,
            None => {
                return Err(MemoryAccessError::Overflow);
            },
        };
        match M::offset_from_u64(address) {
            Some(o) => Ok(WasmPtr { offset: o, marker: PhantomData }),
            None => Err(MemoryAccessError::Overflow),
        }
    }

    /// Moves the pointer back by `offset` values of type `T`. Fails with
    /// `Overflow` exactly when the address would fall below zero.
    pub fn sub_offset(self, offset: M::Offset) -> (r: Result<Self, MemoryAccessError>)
        ensures
            match r {
                Ok(p) => p.addr() + M::spec_value(offset) * T::spec_size() == self.addr(),
                Err(e) => e == MemoryAccessError::Overflow && M::spec_value(offset)
                    * T::spec_size() > self.addr(),
            },
    {
        proof {
            M::lemma_offset(self.offset, offset);
            T::lemma_size();
        }
        let base: u64 = M::offset_to_u64(self.offset);
        let index: u64 = M::offset_to_u64(offset);
        let scaled: u64 = match index.checked_mul(T::size()) {
            Some(s) => s,
            None => {
                return Err(MemoryAccessError::Overflow);
            },
        };
        let address: u64 = match base.checked_sub(scaled) {
            Some(a) => a,
            None => {
                return Err(MemoryAccessError::Overflow);
            },
        };
        match M::offset_from_u64(address) {
            Some(o) => Ok(WasmPtr { offset: o, marker: PhantomData }),
            None => Err(MemoryAccessError::Overflow),
        }
    }

    /// The outcome of an access to the value pointed at in `memory`.
    pub open spec fn check_deref(self, arena: ArenaState, memory: Memory) -> Result<
        (),
        MemoryAccessError,
    > {
        memory.check_wide_access(arena, self.addr() as u64, T::spec_size())
    }

    /// Binds the pointer to `memory`: the reference reads and writes the one
    /// `T` at the pointer's offset.
    pub fn deref(self, memory: &Memory) -> (r: WasmRef<T>)
        ensures
            r.spec_memory() == *memory,
            r.spec_offset() == self.addr(),
    {
        proof {
            M::lemma_offset(self.offset, self.offset);
        }
        WasmRef::new(memory, M::offset_to_u64(self.offset))
    }

    /// Reads the value pointed at in `memory`.
    pub fn read(self, ctx: &ContextObjects, memory: &Memory) -> (r: Result<T, MemoryAccessError>)
        ensures
            match r {
                Ok(v) => self.check_deref(ctx@, *memory) is Ok && v == value_at::<T>(
                    memory.state(ctx@).memory.bytes,
                    self.addr() as int,
                ),
                Err(e) => self.check_deref(ctx@, *memory) == Err::<(), MemoryAccessError>(e),
            },
    {
        self.deref(memory).read(ctx)
    }

    /// Stores `val` at the place pointed at in `memory`.
    pub fn write(self, ctx: &mut ContextObjects, memory: &Memory, val: T) -> (r: Result<
        (),
        MemoryAccessError,
    >)
        ensures
            old(ctx)@.wf() ==> final(ctx)@.wf(),
            r == self.check_deref(old(ctx)@, *memory),
            r is Ok ==> final(ctx)@ == memory.arena_written(
                old(ctx)@,
                self.addr() as u64,
                val.spec_encode(),
            ),
            r is Err ==> final(ctx)@ == old(ctx)@,
    {
        self.deref(memory).write(ctx, val)
    }

    /// The slice of `len` values from the pointer on in `memory`. Fails with
    /// `Overflow` exactly when the end of the slice cannot be written as a
    /// 64-bit address; the memory's size is looked at only when elements are
    /// read.
    pub fn slice(self, memory: &Memory, len: M::Offset) -> (r: Result<
        WasmSlice<T>,
        MemoryAccessError,
    >)
        ensures
            match r {
                Ok(s) => {
                    &&& s.wf()
                    &&& s.spec_memory() == *memory
                    &&& s.spec_offset() == self.addr()
                    &&& s.spec_len() == M::spec_value(len)
                },
                Err(e) => e == MemoryAccessError::Overflow && self.addr_of(M::spec_value(len))
                    > u64::MAX,
            },
    {
        proof {
            M::lemma_offset(self.offset, len);
        }
        WasmSlice::new(memory, M::offset_to_u64(self.offset), M::offset_to_u64(len))
    }

    /// The outcome of reading the `index`-th `T` after the one pointed at:
    /// the address is computed first, then checked against the memory.
    pub open spec fn check_element(self, arena: ArenaState, memory: Memory, index: nat) -> Result<
        (),
        MemoryAccessError,
    > {
        if self.addr_of(index) > M::spec_max() {
            Err(MemoryAccessError::Overflow)
        } else {
            memory.check_wide_access(arena, self.addr_of(index) as u64, T::spec_size())
        }
    }

    /// The `index`-th `T` after the one pointed at.
    pub open spec fn element(self, arena: ArenaState, memory: Memory, index: nat) -> T {
        value_at::<T>(memory.state(arena).memory.bytes, self.addr_of(index) as int)
    }

    /// The number of bytes of `memory` in `arena`; zero where the memory
    /// cannot be reached.
    pub open spec fn reach(arena: ArenaState, memory: Memory) -> nat {
        match memory.check(arena) {
            Ok(()) => memory.state(arena).memory.bytes.len(),
            Err(_) => 0,
        }
    }

    /// Reads the `index`-th `T` after the one pointed at.
    pub fn read_element(self, ctx: &ContextObjects, memory: &Memory, index: u64) -> (r: Result<
        T,
        MemoryAccessError,
    >)
        ensures
            match r {
                Ok(v) => {
                    &&& self.check_element(ctx@, *memory, index as nat) is Ok
                    &&& v == self.element(ctx@, *memory, index as nat)
                    &&& index < Self::reach(ctx@, *memory)
                    &&& index < u64::MAX
                },
                Err(e) => self.check_element(ctx@, *memory, index as nat) == Err::<
                    (),
                    MemoryAccessError,
                >(e),
            },
    {
        proof {
            T::lemma_size();
            M::lemma_offset(self.offset, self.offset);
            assert(index * T::spec_size() >= index) by (nonlinear_arith)
                requires
                    T::spec_size() >= 1,
                    index >= 0,
            ;
        }
        let idx = match M::offset_from_u64(index) {
            Some(o) => o,
            None => {
                return Err(MemoryAccessError::Overflow);
            },
        };
        let p = match self.add_offset(idx) {
            Ok(p) => p,
            Err(e) => {
                return Err(e);
            },
        };
        p.deref(memory).read(ctx)
    }

    /// Reads values from the pointer on until one satisfies `end`, and
    /// returns those before it. Each value is read with a bounds check of its
    /// own, so a memory without such a value ends the search with an error.
    pub fn read_until<F: Fn(&T) -> bool>(self, ctx: &ContextObjects, memory: &Memory, end: F) -> (r:
        Result<Vec<T>, MemoryAccessError>)
        requires
            forall|v: T| #[trigger] end.requires((&v,)),
        ensures
            match r {
                Ok(v) => {
                    &&& forall|i: int|
                        0 <= i < v@.len() ==> {
                            &&& #[trigger] self.check_element(ctx@, *memory, i as nat) is Ok
                            &&& v@[i] == self.element(ctx@, *memory, i as nat)
                            &&& end.ensures((&self.element(ctx@, *memory, i as nat),), false)
                        }
                    &&& self.check_element(ctx@, *memory, v@.len()) is Ok
                    &&& end.ensures((&self.element(ctx@, *memory, v@.len()),), true)
                },
                Err(e) => exists|n: nat|
                    {
                        &&& forall|i: int|
                            0 <= i < n ==> {
                                &&& #[trigger] self.check_element(ctx@, *memory, i as nat) is Ok
                                &&& end.ensures((&self.element(ctx@, *memory, i as nat),), false)
                            }
                        &&& #[trigger] self.check_element(ctx@, *memory, n) == Err::<
                            (),
                            MemoryAccessError,
                        >(e)
                    },
            },
    {
        let mut vec: Vec<T> = Vec::new();
        let mut i: u64 = 0;
        loop
            invariant
                i == vec@.len(),
                i <= Self::reach(ctx@, *memory),
                forall|v: T| #[trigger] end.requires((&v,)),
                forall|j: int|
                    0 <= j < vec@.len() ==> {
                        &&& #[trigger] self.check_element(ctx@, *memory, j as nat) is Ok
                        &&& vec@[j] == self.element(ctx@, *memory, j as nat)
                        &&& end.ensures((&self.element(ctx@, *memory, j as nat),), false)
                    },
            decreases Self::reach(ctx@, *memory) - i,
        {
            let val = match self.read_element(ctx, memory, i) {
                Ok(v) => v,
                Err(e) => {
                    assert(self.check_element(ctx@, *memory, i as nat) == Err::<
                        (),
                        MemoryAccessError,
                    >(e));
                    return Err(e);
                },
            };
            if end(&val) {
                return Ok(vec);
            }
            vec.push(val);
            i = i + 1;
        }
    }
}

/// Makes a string of `bytes` where they are UTF-8, by `String::from_utf8` of
/// the standard library: the string, whose UTF-8 encoding is then exactly
/// `bytes`, or `None` where `bytes` are not UTF-8.
#[verifier::external_body]
fn string_from_utf8(bytes: Vec<u8>) -> (r: Option<String>)
    ensures
        r is Some <==> valid_utf8(bytes@),
        r matches Some(s) ==> encode_utf8(s@) == bytes@,
{
    String::from_utf8(bytes).ok()
}

/// The string that `bytes` encode, or `NonUtf8String`.
pub fn utf8_string(bytes: Vec<u8>) -> (r: Result<String, MemoryAccessError>)
    ensures
        match r {
            Ok(s) => valid_utf8(bytes@) && s@ == decode_utf8(bytes@),
            Err(e) => e == MemoryAccessError::NonUtf8String && !valid_utf8(bytes@),
        },
{
    match string_from_utf8(bytes) {
        Some(s) => {
            proof {
                encode_utf8_decode_utf8(s@);
            }
            Ok(s)
        },
        None => Err(MemoryAccessError::NonUtf8String),
    }
}

impl<M: MemorySize> WasmPtr<u8, M> {
    /// Reads the `len` bytes from the pointer on and makes a string of them.
    /// Fails with `NonUtf8String` where the bytes can be read but are not
    /// UTF-8.
    pub fn read_utf8_string(self, ctx: &ContextObjects, memory: &Memory, len: M::Offset) -> (r:
        Result<String, MemoryAccessError>)
        ensures
            match r {
                Ok(s) => {
                    &&& memory.check_wide_access(ctx@, self.addr() as u64, M::spec_value(len))
                        is Ok
                    &&& valid_utf8(self.bytes_at(ctx@, *memory, M::spec_value(len)))
                    &&& s@ == decode_utf8(self.bytes_at(ctx@, *memory, M::spec_value(len)))
                },
                Err(e) => if self.addr() + M::spec_value(len) > u64::MAX {
                    e == MemoryAccessError::Overflow
                } else {
                    match memory.check_wide_access(ctx@, self.addr() as u64, M::spec_value(len)) {
                        Err(f) => e == f,
                        Ok(()) => e == MemoryAccessError::NonUtf8String && !valid_utf8(
                            self.bytes_at(ctx@, *memory, M::spec_value(len)),
                        ),
                    }
                },
            },
    {
        proof {
            M::lemma_offset(self.offset, len);
        }
        let slice = match self.slice(memory, len) {
            Ok(s) => s,
            Err(e) => {
                return Err(e);
            },
        };
        let vec = match slice.read_to_vec(ctx) {
            Ok(v) => v,
            Err(e) => {
                return Err(e);
            },
        };
        assert(vec@ =~= self.bytes_at(ctx@, *memory, M::spec_value(len))) by {
            let bytes = memory.state(ctx@).memory.bytes;
            assert forall|i: int| 0 <= i < vec@.len() implies vec@[i] == bytes[self.addr() + i] by {
                assert(vec@[i] == value_at::<u8>(bytes, slice.offset_of(i)));
            }
        }
        utf8_string(vec)
    }

    /// The `len` bytes from the pointer on.
    pub open spec fn bytes_at(self, arena: ArenaState, memory: Memory, len: nat) -> Seq<u8> {
        memory.state(arena).memory.bytes.subrange(self.addr() as int, (self.addr() + len) as int)
    }

    /// Reads bytes from the pointer on up to the first zero byte and makes a
    /// string of those before it. Fails with `NonUtf8String` where a zero
    /// byte is found but the bytes before it are not UTF-8.
    pub fn read_utf8_string_with_nul(self, ctx: &ContextObjects, memory: &Memory) -> (r: Result<
        String,
        MemoryAccessError,
    >)
        ensures
            match r {
                Ok(s) => exists|n: nat|
                    {
                        &&& #[trigger] self.no_nul_before(ctx@, *memory, n)
                        &&& self.nul_at(ctx@, *memory, n)
                        &&& valid_utf8(self.bytes_at(ctx@, *memory, n))
                        &&& s@ == decode_utf8(self.bytes_at(ctx@, *memory, n))
                    },
                Err(e) => exists|n: nat|
                    {
                        &&& #[trigger] self.no_nul_before(ctx@, *memory, n)
                        &&& if self.nul_at(ctx@, *memory, n) {
                            e == MemoryAccessError::NonUtf8String && !valid_utf8(
                                self.bytes_at(ctx@, *memory, n),
                            )
                        } else {
                            self.check_element(ctx@, *memory, n) == Err::<(), MemoryAccessError>(e)
                        }
                    },
            },
    {
        let is_nul = |byte: &u8| -> (b: bool)
            ensures
                b == (*byte == 0),
            { *byte == 0 };
        let vec = match self.read_until(ctx, memory, is_nul) {
            Ok(v) => v,
            Err(e) => {
                let ghost n = choose|n: nat|
                    {
                        &&& forall|i: int|
                            0 <= i < n ==> {
                                &&& #[trigger] self.check_element(ctx@, *memory, i as nat) is Ok
                                &&& is_nul.ensures((&self.element(ctx@, *memory, i as nat),), false)
                            }
                        &&& #[trigger] self.check_element(ctx@, *memory, n) == Err::<
                            (),
                            MemoryAccessError,
                        >(e)
                    };
                assert(self.no_nul_before(ctx@, *memory, n));
                return Err(e);
            },
        };
        let ghost n = vec@.len();
        proof {
            M::lemma_offset(self.offset, self.offset);
            assert(self.no_nul_before(ctx@, *memory, n));
            assert(self.nul_at(ctx@, *memory, n));
            let bytes = memory.state(ctx@).memory.bytes;
            assert(vec@ =~= self.bytes_at(ctx@, *memory, n)) by {
                assert forall|i: int| 0 <= i < n implies vec@[i] == bytes[self.addr() + i] by {
                    assert(self.check_element(ctx@, *memory, i as nat) is Ok);
                    assert(vec@[i] == self.element(ctx@, *memory, i as nat));
                }
            }
        }
        utf8_string(vec)
    }

    /// The bytes at positions before `n` can be read and none of them is
    /// zero.
    pub open spec fn no_nul_before(self, arena: ArenaState, memory: Memory, n: nat) -> bool {
        forall|i: int|
            0 <= i < n ==> {
                &&& #[trigger] self.check_element(arena, memory, i as nat) is Ok
                &&& self.element(arena, memory, i as nat) != 0
            }
    }

    /// The first zero byte from the pointer on is the one at position `n`.
    pub open spec fn nul_at(self, arena: ArenaState, memory: Memory, n: nat) -> bool {
        &&& self.no_nul_before(arena, memory, n)
        &&& self.check_element(arena, memory, n) is Ok
        &&& self.element(arena, memory, n) == 0
    }
}

} // verus!
