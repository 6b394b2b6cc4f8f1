//! The resources behind external objects: the byte buffer of a linear memory,
//! the elements of a table, the cell of a global and the identity of a
//! callable.
use crate::units::{WASM_MAX_PAGES, WASM_PAGE_SIZE};
use vstd::prelude::*;

verus! {

/// `n` zero bytes.
pub open spec fn zeros(n: nat) -> Seq<u8> {
    Seq::new(n, |i: int| 0u8)
}

/// What a linear memory is: its bytes and the page count it may never exceed.
pub struct LinearMemoryState {
    /// The committed bytes.
    pub bytes: Seq<u8>,
    /// The declared upper bound in pages, if any.
    pub maximum: Option<u32>,
}

impl LinearMemoryState {
    /// Whether a memory of `initial` pages, bounded by `maximum`, can be made.
    pub open spec fn allocatable(initial: u32, maximum: Option<u32>) -> bool {
        &&& initial <= WASM_MAX_PAGES
        &&& initial * WASM_PAGE_SIZE <= usize::MAX
        &&& maximum matches Some(m) ==> initial <= m && m <= WASM_MAX_PAGES
    }

    /// A fresh memory of `initial` zeroed pages.
    pub open spec fn fresh(initial: u32, maximum: Option<u32>) -> Self {
        LinearMemoryState { bytes: zeros((initial * WASM_PAGE_SIZE) as nat), maximum }
    }

    /// The committed size in whole pages.
    pub open spec fn pages(self) -> nat {
        self.bytes.len() / (WASM_PAGE_SIZE as nat)
    }

    /// The page count the memory may never exceed.
    pub open spec fn limit(self) -> nat {
        match self.maximum {
            Some(m) => m as nat,
            None => WASM_MAX_PAGES as nat,
        }
    }

    /// The bytes are whole pages, within the limit.
    pub open spec fn wf(self) -> bool {
        &&& self.bytes.len() == self.pages() * WASM_PAGE_SIZE
        &&& self.pages() <= self.limit()
        &&& self.limit() <= WASM_MAX_PAGES
    }

    /// Whether the memory can take `delta` more pages.
    pub open spec fn can_grow(self, delta: u32) -> bool {
        &&& self.pages() + delta <= self.limit()
        &&& (self.pages() + delta) * WASM_PAGE_SIZE <= usize::MAX
    }

    /// The memory after `delta` zeroed pages were added at its end.
    pub open spec fn grown(self, delta: u32) -> Self {
        LinearMemoryState {
            bytes: self.bytes + zeros((delta * WASM_PAGE_SIZE) as nat),
            maximum: self.maximum,
        }
    }

    /// Whether the `len` bytes from `start` lie inside the memory.
    pub open spec fn in_bounds(self, start: int, len: int) -> bool {
        0 <= start && 0 <= len && start + len <= self.bytes.len()
    }

    /// The `len` bytes from `start`.
    pub open spec fn read(self, start: int, len: int) -> Seq<u8> {
        self.bytes.subrange(start, start + len)
    }

    /// The memory after `data` was stored from `start` on.
    pub open spec fn written(self, start: int, data: Seq<u8>) -> Self {
        LinearMemoryState {
            bytes: Seq::new(
                self.bytes.len(),
                |i: int|
                    if start <= i < start + data.len() {
                        data[i - start]
                    } else {
                        self.bytes[i]
                    },
            ),
            maximum: self.maximum,
        }
    }
}

/// The byte buffer of one linear memory. It always holds a whole number of
/// pages and only ever gets longer.
#[derive(Debug)]
pub struct LinearMemory {
    bytes: Vec<u8>,
    maximum: Option<u32>,
}

impl View for LinearMemory {
    type V = LinearMemoryState;

    closed spec fn view(&self) -> LinearMemoryState {
        LinearMemoryState { bytes: self.bytes@, maximum: self.maximum }
    }
}

impl LinearMemory {
    /// Allocates `initial` zeroed pages. `None` when the limits are not those
    /// of a linear memory or the bytes cannot be addressed on this machine.
    pub fn new(initial: u32, maximum: Option<u32>) -> (r: Option<LinearMemory>)
        ensures
            r is Some <==> LinearMemoryState::allocatable(initial, maximum),
            r matches Some(m) ==> m@ == LinearMemoryState::fresh(initial, maximum) && m@.wf(),
    {
        if initial > WASM_MAX_PAGES {
            return None;
        }
        if let Some(m) = maximum {
            if initial > m || m > WASM_MAX_PAGES {
                return None;
            }
        }
        let wanted: u64 = initial as u64 * WASM_PAGE_SIZE;
        if wanted > usize::MAX as u64 {
            return None;
        }
        let mut bytes: Vec<u8> = Vec::new();
        bytes.resize(wanted as usize, 0u8);
        assert(bytes@ =~= zeros(wanted as nat));
        let r = LinearMemory { bytes, maximum };
        assert(r@.pages() == initial) by (nonlinear_arith)
            requires
                r@.bytes.len() == initial * 0x10000,
                WASM_PAGE_SIZE == 0x10000,
        ;
        Some(r)
    }

    /// The committed size in bytes.
    pub fn byte_length(&self) -> (r: u64)
        ensures
            r == self@.bytes.len(),
            r <= usize::MAX,
    {
        self.bytes.len() as u64
    }

    /// The committed size in pages.
    pub fn pages(&self) -> (r: u32)
        requires
            self@.wf(),
        ensures
            r == self@.pages(),
    {
        (self.bytes.len() as u64 / WASM_PAGE_SIZE) as u32
    }

    /// The declared upper bound in pages, if any.
    pub fn maximum(&self) -> (r: Option<u32>)
        ensures
            r == self@.maximum,
    {
        self.maximum
    }

    /// Adds `delta` zeroed pages and returns the page count before. `None`,
    /// with the memory untouched, where it cannot take that many.
    pub fn grow(&mut self, delta: u32) -> (r: Option<u32>)
        requires
            old(self)@.wf(),
        ensures
            final(self)@.wf(),
            old(self)@.can_grow(delta) ==> r == Some(old(self)@.pages() as u32) && final(self)@
                == old(self)@.grown(delta),
            !old(self)@.can_grow(delta) ==> r is None && final(self)@ == old(self)@,
    {
        let current: u32 = self.pages();
        let limit: u32 = match self.maximum {
            Some(m) => m,
            None => WASM_MAX_PAGES,
        };
        let wanted_pages: u64 = current as u64 + delta as u64;
        if wanted_pages > limit as u64 {
            return None;
        }
        let wanted: u64 = wanted_pages * WASM_PAGE_SIZE;
        if wanted > usize::MAX as u64 {
            return None;
        }
        let ghost before = self.bytes@;
        self.bytes.resize(wanted as usize, 0u8);
        proof {
            assert(wanted == before.len() + delta * WASM_PAGE_SIZE) by (nonlinear_arith)
                requires
                    wanted == (current + delta) * WASM_PAGE_SIZE,
                    before.len() == current * WASM_PAGE_SIZE,
            ;
            assert(self.bytes@ =~= before + zeros((delta * WASM_PAGE_SIZE) as nat)) by {
                assert(self.bytes@.subrange(0, before.len() as int) == before);
                assert forall|i: int| 0 <= i < before.len() implies self.bytes@[i] == before[i] by {
                    assert(self.bytes@.subrange(0, before.len() as int)[i] == self.bytes@[i]);
                }
            }
            assert(self@.pages() == wanted_pages) by (nonlinear_arith)
                requires
                    self@.bytes.len() == wanted_pages * 0x10000,
                    WASM_PAGE_SIZE == 0x10000,
            ;
        }
        Some(current)
    }

    /// Copies the bytes from `start` into `buf`, filling it.
    pub fn copy_to(&self, start: usize, buf: &mut [u8])
        requires
            self@.in_bounds(start as int, old(buf)@.len() as int),
        ensures
            final(buf)@ == self@.read(start as int, old(buf)@.len() as int),
    {
        let n = buf.len();
        let mut i: usize = 0;
        while i < n
            invariant
                n == buf@.len(),
                n == old(buf)@.len(),
                start + n <= self.bytes.len(),
                i <= n,
                forall|j: int| 0 <= j < i ==> buf@[j] == self.bytes@[start + j],
            decreases n - i,
        {
            buf[i] = self.bytes[start + i];
            i += 1;
        }
        assert(buf@ =~= self@.read(start as int, n as int));
    }

    /// Stores `data` from `start` on.
    pub fn copy_from(&mut self, start: usize, data: &[u8])
        requires
            old(self)@.in_bounds(start as int, data@.len() as int),
        ensures
            final(self)@ == old(self)@.written(start as int, data@),
    {
        let n = data.len();
        let mut i: usize = 0;
        while i < n
            invariant
                n == data@.len(),
                self.maximum == old(self).maximum,
                self.bytes@.len() == old(self).bytes@.len(),
                start + n <= self.bytes.len(),
                i <= n,
                forall|j: int| 0 <= j < i ==> self.bytes@[start + j] == data@[j],
                forall|j: int|
                    0 <= j < self.bytes@.len() && !(start <= j < start + i) ==> self.bytes@[j]
                        == old(self).bytes@[j],
            decreases n - i,
        {
            self.bytes[start + i] = data[i];
            i += 1;
        }
        assert(self@.bytes =~= old(self)@.written(start as int, data@).bytes);
    }
}

/// The identity of a callable that the host can invoke.
#[derive(Clone, Copy, Debug, PartialEq, Eq, Structural, Hash)]
pub struct HostFunction(pub u64);

} // verus!

verus! {

/// The elements of one table: a slot is empty or holds a callable.
#[derive(Debug)]
pub struct TableElements {
    slots: Vec<Option<HostFunction>>,
}

impl View for TableElements {
    type V = Seq<Option<HostFunction>>;

    closed spec fn view(&self) -> Seq<Option<HostFunction>> {
        self.slots@
    }
}

impl TableElements {
    /// `initial` empty slots. `None` when `initial` is over `maximum` or the
    /// slots cannot be addressed on this machine.
    pub fn new(initial: u32, maximum: Option<u32>) -> (r: Option<TableElements>)
        ensures
            r is Some <==> Self::allocatable(initial, maximum),
            r matches Some(t) ==> t@ == Seq::new(initial as nat, |i: int| None::<HostFunction>),
    {
        if let Some(m) = maximum {
            if initial > m {
                return None;
            }
        }
        if initial as u64 > usize::MAX as u64 {
            return None;
        }
        let mut slots: Vec<Option<HostFunction>> = Vec::new();
        slots.resize(initial as usize, None);
        assert(slots@ =~= Seq::new(initial as nat, |i: int| None::<HostFunction>));
        Some(TableElements { slots })
    }

    /// Whether a table of `initial` slots, bounded by `maximum`, can be made.
    pub open spec fn allocatable(initial: u32, maximum: Option<u32>) -> bool {
        &&& initial <= usize::MAX
        &&& maximum matches Some(m) ==> initial <= m
    }

    /// The number of slots.
    pub fn length(&self) -> (r: usize)
        ensures
            r == self@.len(),
    {
        self.slots.len()
    }

    /// What slot `index` holds; `None` when there is no such slot.
    pub fn get(&self, index: usize) -> (r: Option<Option<HostFunction>>)
        ensures
            index < self@.len() ==> r == Some(self@[index as int]),
            index >= self@.len() ==> r is None,
    {
        if index < self.slots.len() {
            Some(self.slots[index])
        } else {
            None
        }
    }

    /// Puts `item` into slot `index`. `false`, with the table untouched, when
    /// there is no such slot.
    pub fn set(&mut self, index: usize, item: HostFunction) -> (r: bool)
        ensures
            r == (index < old(self)@.len()),
            r ==> final(self)@ == old(self)@.update(index as int, Some(item)),
            !r ==> final(self)@ == old(self)@,
    {
        if index < self.slots.len() {
            self.slots[index] = Some(item);
            true
        } else {
            false
        }
    }
}

/// The cell of one global: the bits of the value it holds.
#[derive(Clone, Copy, Debug, PartialEq, Eq, Structural, Hash)]
pub struct GlobalCell(pub u64);

} // verus!
